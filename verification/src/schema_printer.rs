//! The schema type printer: one declaration per schema definition, in
//! document order, plus a root metadata declaration and two utility types.
//!
//! A scalar definition whose name has no configured mapping yields a
//! `ScalarTypeNotProvided` error for that definition; other definitions are
//! unaffected, and the document printer stops at the first such error.

use vstd::prelude::*;
use vstd::string::{StrSliceExecFns, StringExecFns};
use crate::base::{str_eq, Ident, Pos, StringValue};
use crate::ts_types::{
    doc_comment, escaped, field_doc, field_print, fields_print, get_ts_type_of_type, joined,
    nonnull_print, opt_chars, ts_print, ts_type_of_print, ObjectField, TSType,
};
use crate::type_system::{
    EnumTypeDefinition, EnumValueDefinition, FieldDefinition, InputObjectTypeDefinition,
    InterfaceTypeDefinition, ObjectTypeDefinition, ScalarTypeDefinition, SchemaDefinition,
    TypeDefinition, TypeSystemDefinition, TypeSystemDocument, UnionTypeDefinition,
};
use crate::types::is_nonnull;
use crate::operations::OperationType;
use crate::writer::{SourceMark, SourceMapWriter};

verus! {

/// Options for printing schema documents.
pub struct SchemaTypePrinterOptions {
    /// Mapping from scalar type names to target type texts; the first
    /// entry with a given name wins.
    pub scalar_types: Vec<(String, String)>,
    /// The name of the root metadata declaration.
    pub schema_metadata_type: String,
    /// Whether a nullable input-object field is printed optional.
    pub input_nullable_field_is_optional: bool,
    /// Whether enums additionally emit a runtime mapping.
    pub emit_schema_runtime: bool,
}

/// An error of printing one schema definition.
#[derive(Debug)]
pub enum SchemaTypePrinterError {
    /// A scalar type has no configured target type text.
    ScalarTypeNotProvided { name: String, position: Pos },
}

pub type SchemaTypePrinterResult<T> = Result<T, SchemaTypePrinterError>;

// ------------------------------------------------------------------
// Descriptions.
// ------------------------------------------------------------------

/// The characters of an optional description.
pub open spec fn desc_chars(d: Option<StringValue>) -> Option<Seq<char>> {
    match d {
        Some(sv) => Some(sv.value@),
        None => None,
    }
}

/// The documentation comment printed for an optional description.
pub open spec fn desc_print(d: Option<StringValue>) -> Seq<char> {
    match d {
        Some(sv) => doc_comment(sv.value@),
        None => Seq::empty(),
    }
}

/// The combined description of a field: its own description and, when
/// present, a deprecation line.
pub open spec fn ts_desc(description: Option<StringValue>, deprecation: Option<String>) -> Option<
    Seq<char>,
> {
    match (description, deprecation) {
        (Some(d), Some(r)) => Some(d.value@ + "\n\n@deprecated "@ + r@),
        (Some(d), None) => Some(d.value@),
        (None, Some(r)) => Some("@deprecated "@ + r@),
        (None, None) => None,
    }
}

/// The documentation comment for an optional combined description.
pub open spec fn doc_text_of(o: Option<Seq<char>>) -> Seq<char> {
    match o {
        Some(t) => doc_comment(t),
        None => Seq::empty(),
    }
}

/// Prints the documentation comment of an optional description.
pub fn print_description(description: &Option<StringValue>, writer: &mut SourceMapWriter)
    ensures
        final(writer).text@ == old(writer).text@ + desc_print(*description),
        final(writer).marks@ == old(writer).marks@,
{
    match description {
        Some(d) => crate::ts_types::write_doc_comment(d.value.as_str(), writer),
        None => {},
    }
}

/// Combines a description and a deprecation reason into a single string.
pub fn make_ts_description(description: &Option<StringValue>, deprecation: &Option<String>) -> (r:
    Option<String>)
    ensures
        opt_chars(r) == ts_desc(*description, *deprecation),
{
    match (description, deprecation) {
        (Some(d), Some(dep)) => {
            let mut s = d.value.clone();
            s.append("\n\n@deprecated ");
            s.append(dep.as_str());
            Some(s)
        },
        (Some(d), None) => Some(d.value.clone()),
        (None, Some(dep)) => {
            let mut s = String::from_str("@deprecated ");
            s.append(dep.as_str());
            Some(s)
        },
        (None, None) => None,
    }
}

// ------------------------------------------------------------------
// Scalar mapping lookup.
// ------------------------------------------------------------------

/// The configured target text of a scalar name: the first entry that
/// matches, if any.
pub open spec fn scalar_lookup(m: Seq<(String, String)>, name: Seq<char>) -> Option<Seq<char>>
    decreases m.len(),
{
    if m.len() == 0 {
        None
    } else if m[0].0@ == name {
        Some(m[0].1@)
    } else {
        scalar_lookup(m.drop_first(), name)
    }
}

/// Looks a scalar name up in the configured mapping.
fn lookup_scalar(options: &SchemaTypePrinterOptions, name: &str) -> (r: Option<String>)
    ensures
        opt_chars(r) == scalar_lookup(options.scalar_types@, name@),
{
    proof {
        assert(options.scalar_types@.skip(0) =~= options.scalar_types@);
    }
    let mut i: usize = 0;
    while i < options.scalar_types.len()
        invariant
            i <= options.scalar_types@.len(),
            scalar_lookup(options.scalar_types@, name@) == scalar_lookup(
                options.scalar_types@.skip(i as int),
                name@,
            ),
        decreases options.scalar_types@.len() - i,
    {
        let pair = &options.scalar_types[i];
        proof {
            assert(options.scalar_types@.skip(i as int)[0] == options.scalar_types@[i as int]);
            assert(options.scalar_types@.skip(i as int).drop_first() =~= options.scalar_types@.skip(
                i + 1,
            ));
        }
        if str_eq(pair.0.as_str(), name) {
            return Some(pair.1.clone());
        }
        i = i + 1;
    }
    None
}

// ------------------------------------------------------------------
// Unions of names, with duplicates removed.
// ------------------------------------------------------------------

/// The texts of a sequence of strings.
pub open spec fn names_view(v: Seq<String>) -> Seq<Seq<char>> {
    v.map_values(|s: String| s@)
}

/// The names of a sequence of identifiers.
pub open spec fn ident_names(v: Seq<Ident>) -> Seq<Seq<char>> {
    v.map_values(|id: Ident| id.name@)
}

/// Whether the sequence holds this name.
pub open spec fn name_in(ns: Seq<Seq<char>>, n: Seq<char>) -> bool {
    exists|i: int| 0 <= i < ns.len() && ns[i] == n
}

/// Walks `rest` left to right, keeping each name not seen before.
pub open spec fn dedup_names(acc: Seq<Seq<char>>, rest: Seq<Seq<char>>) -> Seq<Seq<char>>
    decreases rest.len(),
{
    if rest.len() == 0 {
        acc
    } else {
        dedup_names(
            if name_in(acc, rest[0]) {
                acc
            } else {
                acc.push(rest[0])
            },
            rest.drop_first(),
        )
    }
}

/// Names joined by a separator; a single name stands alone.
pub open spec fn name_joined(ns: Seq<Seq<char>>, sep: Seq<char>) -> Seq<char>
    decreases ns.len(),
{
    if ns.len() == 0 {
        Seq::empty()
    } else if ns.len() == 1 {
        ns[0]
    } else {
        name_joined(ns.drop_last(), sep) + sep + ns.last()
    }
}

/// The printed union of a sequence of type names: duplicates removed,
/// first-seen order kept; no names prints `never`.
pub open spec fn names_union_print(ns: Seq<Seq<char>>) -> Seq<char> {
    let ds = dedup_names(Seq::empty(), ns);
    if ds.len() == 0 {
        "never"@
    } else {
        name_joined(ds, " | "@)
    }
}

/// Whether the list holds a string with this text.
fn contains_string(v: &Vec<String>, s: &String) -> (r: bool)
    ensures
        r == name_in(names_view(v@), s@),
{
    let mut i: usize = 0;
    while i < v.len()
        invariant
            i <= v@.len(),
            forall|j: int| 0 <= j < i ==> names_view(v@)[j] != s@,
        decreases v@.len() - i,
    {
        if v[i].eq(s) {
            proof {
                assert(names_view(v@)[i as int] == s@);
            }
            return true;
        }
        i = i + 1;
    }
    false
}

/// Prints the union of the given type names: nothing prints `never`, one
/// name stands alone, several are joined by ` | `; duplicate names are
/// removed, first-seen order kept.
fn print_name_union(names: &Vec<String>, writer: &mut SourceMapWriter)
    ensures
        final(writer).text@ == old(writer).text@ + names_union_print(names_view(names@)),
        final(writer).marks@ == old(writer).marks@,
{
    let ghost whole = names_view(names@);
    let mut kept: Vec<String> = Vec::new();
    proof {
        assert(names_view(names@.skip(0)) =~= whole);
        assert(names_view(kept@) =~= Seq::<Seq<char>>::empty());
    }
    let mut i: usize = 0;
    while i < names.len()
        invariant
            i <= names@.len(),
            dedup_names(names_view(kept@), names_view(names@.skip(i as int))) == dedup_names(
                Seq::empty(),
                whole,
            ),
        decreases names@.len() - i,
    {
        let ghost kept0 = names_view(kept@);
        let ghost rest0 = names_view(names@.skip(i as int));
        proof {
            assert(rest0[0] == names@[i as int]@);
            assert(rest0.drop_first() =~= names_view(names@.skip(i + 1)));
        }
        let dup = contains_string(&kept, &names[i]);
        if !dup {
            kept.push(names[i].clone());
            proof {
                assert(names_view(kept@) =~= kept0.push(names@[i as int]@));
            }
        }
        proof {
            assert(dedup_names(kept0, rest0) == dedup_names(
                names_view(kept@),
                names_view(names@.skip(i + 1)),
            ));
        }
        i = i + 1;
    }
    proof {
        assert(names_view(names@.skip(names@.len() as int)) =~= Seq::<Seq<char>>::empty());
        assert(names_view(kept@) == dedup_names(Seq::empty(), whole));
    }
    if kept.len() == 0 {
        writer.write("never");
        return ;
    }
    let ghost ds = names_view(kept@);
    proof {
        assert(ds.take(0) =~= Seq::<Seq<char>>::empty());
    }
    let mut j: usize = 0;
    while j < kept.len()
        invariant
            j <= kept@.len(),
            kept@.len() > 0,
            ds == names_view(kept@),
            writer.text@ == old(writer).text@ + name_joined(ds.take(j as int), " | "@),
            writer.marks@ == old(writer).marks@,
        decreases kept@.len() - j,
    {
        if j > 0 {
            writer.write(" | ");
        }
        writer.write(kept[j].as_str());
        proof {
            assert(ds.take(j + 1).drop_last() =~= ds.take(j as int));
            assert(ds.take(j + 1).last() == ds[j as int]);
            assert(ds[j as int] == kept@[j as int]@);
            assert(writer.text@ =~= old(writer).text@ + name_joined(ds.take(j + 1), " | "@));
        }
        j = j + 1;
    }
    proof {
        assert(ds.take(ds.len() as int) =~= ds);
    }
}

// ------------------------------------------------------------------
// Interface implementers.
// ------------------------------------------------------------------

/// Whether an object type declares that it implements this name.
pub open spec fn implements_name(o: ObjectTypeDefinition, n: Seq<char>) -> bool {
    exists|i: int| 0 <= i < o.implements@.len() && o.implements@[i].name@ == n
}

/// Whether a definition is an object type implementing this name.
pub open spec fn def_implements(d: TypeSystemDefinition, n: Seq<char>) -> bool {
    d matches TypeSystemDefinition::TypeDefinition(td) && td matches TypeDefinition::Object(o)
        && implements_name(o, n)
}

/// The names of the object types that implement an interface, in document
/// order.
pub open spec fn impl_names(defs: Seq<TypeSystemDefinition>, n: Seq<char>) -> Seq<Seq<char>>
    decreases defs.len(),
{
    if defs.len() == 0 {
        Seq::empty()
    } else {
        impl_names(defs.drop_last(), n) + (if def_implements(defs.last(), n) {
            seq![obj_name_of(defs.last())]
        } else {
            Seq::<Seq<char>>::empty()
        })
    }
}

/// The name of the object type a definition declares; empty for others.
pub open spec fn obj_name_of(d: TypeSystemDefinition) -> Seq<char> {
    match d {
        TypeSystemDefinition::TypeDefinition(td) => match td {
            TypeDefinition::Object(o) => o.name.name@,
            _ => Seq::empty(),
        },
        _ => Seq::empty(),
    }
}

/// The indices of the object definitions that implement an interface, in
/// document order.
pub open spec fn implementer_indices(defs: Seq<TypeSystemDefinition>, n: Seq<char>) -> Seq<int>
    decreases defs.len(),
{
    if defs.len() == 0 {
        Seq::empty()
    } else {
        implementer_indices(defs.drop_last(), n) + (if def_implements(defs.last(), n) {
            seq![defs.len() - 1]
        } else {
            Seq::<int>::empty()
        })
    }
}

/// Whether this object type declares the interface name in its
/// implements-list.
fn implements_check(o: &ObjectTypeDefinition, name: &str) -> (r: bool)
    ensures
        r == implements_name(*o, name@),
{
    let mut i: usize = 0;
    while i < o.implements.len()
        invariant
            i <= o.implements@.len(),
            forall|j: int| 0 <= j < i ==> o.implements@[j].name@ != name@,
        decreases o.implements@.len() - i,
    {
        if str_eq(o.implements[i].name.as_str(), name) {
            return true;
        }
        i = i + 1;
    }
    false
}

/// The ordered indices, into the document's definition list, of the object
/// types implementing the given interface name.
pub fn interface_implementers(schema: &TypeSystemDocument, name: &str) -> (r: Vec<usize>)
    ensures
        r@.map_values(|u: usize| u as int) == implementer_indices(schema.definitions@, name@),
        forall|j: int|
            0 <= j < r@.len() ==> r@[j] < schema.definitions@.len() && def_implements(
                schema.definitions@[r@[j] as int],
                name@,
            ),
{
    let ghost defs = schema.definitions@;
    let mut out: Vec<usize> = Vec::new();
    proof {
        assert(out@.map_values(|u: usize| u as int) =~= implementer_indices(defs.take(0), name@));
    }
    let mut i: usize = 0;
    while i < schema.definitions.len()
        invariant
            i <= defs.len(),
            defs == schema.definitions@,
            out@.map_values(|u: usize| u as int) == implementer_indices(defs.take(i as int), name@),
            forall|j: int|
                0 <= j < out@.len() ==> out@[j] < i && def_implements(
                    defs[out@[j] as int],
                    name@,
                ),
        decreases defs.len() - i,
    {
        let ghost out0 = out@;
        let hit: bool = match &schema.definitions[i] {
            TypeSystemDefinition::TypeDefinition(td) => match td {
                TypeDefinition::Object(o) => implements_check(o, name),
                _ => false,
            },
            _ => false,
        };
        proof {
            assert(hit == def_implements(defs[i as int], name@));
            assert(defs.take(i + 1).drop_last() =~= defs.take(i as int));
            assert(defs.take(i + 1).last() == defs[i as int]);
        }
        if hit {
            out.push(i);
            proof {
                assert(out@.map_values(|u: usize| u as int) =~= out0.map_values(
                    |u: usize| u as int,
                ).push(i as int));
            }
        }
        proof {
            assert(out@.map_values(|u: usize| u as int) =~= implementer_indices(
                defs.take(i + 1),
                name@,
            ));
        }
        i = i + 1;
    }
    proof {
        assert(defs.take(defs.len() as int) =~= defs);
    }
    out
}

// ------------------------------------------------------------------
// The root metadata type.
// ------------------------------------------------------------------

/// The property key of a root operation.
pub open spec fn op_key(ot: OperationType) -> Seq<char> {
    match ot {
        OperationType::Query => "query"@,
        OperationType::Mutation => "mutation"@,
        OperationType::Subscription => "subscription"@,
    }
}

/// The field lines of an explicit root-operation mapping; each line
/// carries the schema-level description.
pub open spec fn schema_ops_lines(ops: Seq<(OperationType, Ident)>, desc: Option<Seq<char>>) -> Seq<
    char,
>
    decreases ops.len(),
{
    if ops.len() == 0 {
        Seq::empty()
    } else {
        schema_ops_lines(ops.drop_last(), desc) + doc_text_of(desc) + op_key(ops.last().0) + ": "@
            + ops.last().1.name@ + ";\n"@
    }
}

/// The first explicit schema definition of the document, if any.
pub open spec fn first_schema_def(defs: Seq<TypeSystemDefinition>) -> Option<SchemaDefinition>
    decreases defs.len(),
{
    if defs.len() == 0 {
        None
    } else {
        match defs[0] {
            TypeSystemDefinition::SchemaDefinition(sd) => Some(sd),
            _ => first_schema_def(defs.drop_first()),
        }
    }
}

/// Whether a definition declares an object type with this name.
pub open spec fn is_object_named(d: TypeSystemDefinition, n: Seq<char>) -> bool {
    d matches TypeSystemDefinition::TypeDefinition(td) && td matches TypeDefinition::Object(o)
        && o.name.name@ == n
}

/// Whether the document declares an object type with this name.
pub open spec fn has_object_named(defs: Seq<TypeSystemDefinition>, n: Seq<char>) -> bool {
    exists|i: int| 0 <= i < defs.len() && is_object_named(#[trigger] defs[i], n)
}

/// The field lines of the default root mapping: `Query`, `Mutation` and
/// `Subscription` object types, each included only if present, in that
/// fixed relative order.
pub open spec fn default_root_lines(defs: Seq<TypeSystemDefinition>) -> Seq<char> {
    (if has_object_named(defs, "Query"@) {
        "query"@ + ": "@ + "Query"@ + ";\n"@
    } else {
        Seq::<char>::empty()
    }) + (if has_object_named(defs, "Mutation"@) {
        "mutation"@ + ": "@ + "Mutation"@ + ";\n"@
    } else {
        Seq::<char>::empty()
    }) + (if has_object_named(defs, "Subscription"@) {
        "subscription"@ + ": "@ + "Subscription"@ + ";\n"@
    } else {
        Seq::<char>::empty()
    })
}

/// The printed form of the root metadata type.
pub open spec fn metadata_print(doc: TypeSystemDocument) -> Seq<char> {
    match first_schema_def(doc.definitions@) {
        Some(sd) => "{\n"@ + schema_ops_lines(sd.definitions@, desc_chars(sd.description)) + "}"@,
        None => "{\n"@ + default_root_lines(doc.definitions@) + "}"@,
    }
}

/// Whether the document declares an object type with this name.
fn find_object(schema: &TypeSystemDocument, name: &str) -> (r: bool)
    ensures
        r == has_object_named(schema.definitions@, name@),
{
    let mut i: usize = 0;
    while i < schema.definitions.len()
        invariant
            i <= schema.definitions@.len(),
            forall|j: int| 0 <= j < i ==> !is_object_named(schema.definitions@[j], name@),
        decreases schema.definitions@.len() - i,
    {
        match &schema.definitions[i] {
            TypeSystemDefinition::TypeDefinition(td) => match td {
                TypeDefinition::Object(o) => {
                    if str_eq(o.name.name.as_str(), name) {
                        proof {
                            assert(is_object_named(schema.definitions@[i as int], name@));
                        }
                        return true;
                    }
                },
                _ => {},
            },
            _ => {},
        }
        i = i + 1;
    }
    false
}

/// Builds the root metadata type: the explicit root-operation mapping when
/// the document has one, the default `Query`/`Mutation`/`Subscription`
/// roots otherwise; no roots give an empty object type.
pub fn get_schema_metadata_type(document: &TypeSystemDocument) -> (r: TSType)
    ensures
        ts_print(r) == metadata_print(*document),
{
    let ghost defs = document.definitions@;
    proof {
        assert(defs.skip(0) =~= defs);
    }
    let mut i: usize = 0;
    while i < document.definitions.len()
        invariant
            i <= defs.len(),
            defs == document.definitions@,
            first_schema_def(defs) == first_schema_def(defs.skip(i as int)),
        decreases defs.len() - i,
    {
        proof {
            assert(defs.skip(i as int)[0] == defs[i as int]);
            assert(defs.skip(i as int).drop_first() =~= defs.skip(i + 1));
        }
        match &document.definitions[i] {
            TypeSystemDefinition::SchemaDefinition(sd) => {
                let mut fields: Vec<ObjectField> = Vec::new();
                proof {
                    assert(first_schema_def(defs) == Some(*sd));
                    assert(sd.definitions@.take(0) =~= Seq::<(OperationType, Ident)>::empty());
                    assert(fields_print(fields@) =~= schema_ops_lines(
                        sd.definitions@.take(0),
                        desc_chars(sd.description),
                    ));
                }
                let mut j: usize = 0;
                while j < sd.definitions.len()
                    invariant
                        j <= sd.definitions@.len(),
                        fields@.len() == j,
                        fields_print(fields@) == schema_ops_lines(
                            sd.definitions@.take(j as int),
                            desc_chars(sd.description),
                        ),
                    decreases sd.definitions@.len() - j,
                {
                    let ghost fs0 = fields@;
                    let pair = &sd.definitions[j];
                    let key: String = match pair.0 {
                        OperationType::Query => String::from_str("query"),
                        OperationType::Mutation => String::from_str("mutation"),
                        OperationType::Subscription => String::from_str("subscription"),
                    };
                    proof {
                        assert(key@ == op_key(pair.0));
                    }
                    let dsc: Option<String> = match &sd.description {
                        Some(sv) => Some(sv.value.clone()),
                        None => None,
                    };
                    proof {
                        assert(opt_chars(dsc) == desc_chars(sd.description));
                    }
                    let f = ObjectField {
                        key,
                        ty: TSType::TypeVariable(pair.1.name.clone()),
                        readonly: false,
                        optional: false,
                        description: dsc,
                    };
                    proof {
                        assert(field_doc(f.description) == doc_text_of(desc_chars(sd.description)));
                        assert(field_print(f) =~= doc_text_of(desc_chars(sd.description)) + op_key(
                            pair.0,
                        ) + ": "@ + pair.1.name@ + ";\n"@);
                    }
                    fields.push(f);
                    proof {
                        assert(fields@.drop_last() =~= fs0);
                        assert(fields@.last() == f);
                        assert(sd.definitions@.take(j + 1).drop_last() =~= sd.definitions@.take(
                            j as int,
                        ));
                        assert(sd.definitions@.take(j + 1).last() == sd.definitions@[j as int]);
                        assert(fields_print(fields@) =~= schema_ops_lines(
                            sd.definitions@.take(j + 1),
                            desc_chars(sd.description),
                        ));
                    }
                    j = j + 1;
                }
                proof {
                    assert(sd.definitions@.take(sd.definitions@.len() as int)
                        =~= sd.definitions@);
                }
                let r = TSType::Object(fields);
                proof {
                    assert(ts_print(r) =~= metadata_print(*document));
                }
                return r;
            },
            _ => {},
        }
        i = i + 1;
    }
    proof {
        assert(defs.skip(defs.len() as int) =~= Seq::<TypeSystemDefinition>::empty());
        assert(first_schema_def(defs) is None);
    }
    let mut fields: Vec<ObjectField> = Vec::new();
    let ghost qline = (if has_object_named(defs, "Query"@) {
        "query"@ + ": "@ + "Query"@ + ";\n"@
    } else {
        Seq::<char>::empty()
    });
    let ghost mline = (if has_object_named(defs, "Mutation"@) {
        "mutation"@ + ": "@ + "Mutation"@ + ";\n"@
    } else {
        Seq::<char>::empty()
    });
    let ghost sline = (if has_object_named(defs, "Subscription"@) {
        "subscription"@ + ": "@ + "Subscription"@ + ";\n"@
    } else {
        Seq::<char>::empty()
    });
    proof {
        assert(fields_print(fields@) =~= Seq::<char>::empty());
    }
    if find_object(document, "Query") {
        let ghost fs0 = fields@;
        proof {
            assert(fields_print(fs0) == Seq::<char>::empty());
        }
        let f = ObjectField {
            key: String::from_str("query"),
            ty: TSType::TypeVariable(String::from_str("Query")),
            readonly: false,
            optional: false,
            description: None,
        };
        fields.push(f);
        proof {
            assert(fields@.drop_last() =~= fs0);
            assert(fields@.last() == f);
            assert(field_print(f) =~= qline);
            assert(fields_print(fields@) =~= qline);
        }
    }
    proof {
        assert(fields_print(fields@) =~= qline);
    }
    if find_object(document, "Mutation") {
        let ghost fs0 = fields@;
        let f = ObjectField {
            key: String::from_str("mutation"),
            ty: TSType::TypeVariable(String::from_str("Mutation")),
            readonly: false,
            optional: false,
            description: None,
        };
        fields.push(f);
        proof {
            assert(fields@.drop_last() =~= fs0);
            assert(fields@.last() == f);
            assert(field_print(f) =~= mline);
            assert(fields_print(fields@) =~= qline + mline);
        }
    }
    proof {
        assert(fields_print(fields@) =~= qline + mline);
    }
    if find_object(document, "Subscription") {
        let ghost fs0 = fields@;
        let f = ObjectField {
            key: String::from_str("subscription"),
            ty: TSType::TypeVariable(String::from_str("Subscription")),
            readonly: false,
            optional: false,
            description: None,
        };
        fields.push(f);
        proof {
            assert(fields@.drop_last() =~= fs0);
            assert(fields@.last() == f);
            assert(field_print(f) =~= sline);
            assert(fields_print(fields@) =~= qline + mline + sline);
        }
    }
    proof {
        assert(fields_print(fields@) =~= qline + mline + sline);
    }
    let r = TSType::Object(fields);
    proof {
        assert(ts_print(r) =~= metadata_print(*document));
    }
    r
}


// ------------------------------------------------------------------
// Source-map mark bookkeeping.
// ------------------------------------------------------------------

/// Prefixes chain through successive writes.
proof fn lemma_prefix_extend(a: Seq<SourceMark>, b: Seq<SourceMark>, c: Seq<SourceMark>)
    requires
        a.is_prefix_of(b),
        b.is_prefix_of(c),
    ensures
        a.is_prefix_of(c),
{
    assert(c.subrange(0, a.len() as int) =~= a) by {
        assert(forall|k: int| 0 <= k < a.len() ==> c[k] == b[k] && b[k] == a[k]);
    }
}

// ------------------------------------------------------------------
// Per-definition outputs.
// ------------------------------------------------------------------

/// Whether a scalar definition has a configured mapping.
pub open spec fn scalar_ok(d: ScalarTypeDefinition, opts: SchemaTypePrinterOptions) -> bool {
    scalar_lookup(opts.scalar_types@, d.name.name@) matches Some(_)
}

/// The exact output of a scalar definition with a configured mapping. If
/// the mapped text equals the scalar's own name, an internal alias is
/// emitted and re-exported under the original name; otherwise a direct
/// alias.
pub open spec fn scalar_output(d: ScalarTypeDefinition, opts: SchemaTypePrinterOptions) -> Seq<
    char,
> {
    match scalar_lookup(opts.scalar_types@, d.name.name@) {
        Some(target) => desc_print(d.description) + (if d.name.name@ == target {
            "type "@ + ("__tmp_"@ + d.name.name@) + " = "@ + target + ";\nexport type { "@ + (
            "__tmp_"@ + d.name.name@) + " as "@ + d.name.name@ + "};\n"@
        } else {
            "export type "@ + d.name.name@ + " = "@ + target + ";\n"@
        }),
        None => Seq::empty(),
    }
}

/// The printed line of one object or interface field.
pub open spec fn field_line(fd: FieldDefinition) -> Seq<char> {
    doc_text_of(ts_desc(fd.description, fd.deprecation)) + fd.name.name@ + ": "@
        + ts_type_of_print(fd.ty) + ";\n"@
}

pub open spec fn field_lines(fds: Seq<FieldDefinition>) -> Seq<char>
    decreases fds.len(),
{
    if fds.len() == 0 {
        Seq::empty()
    } else {
        field_lines(fds.drop_last()) + field_line(fds.last())
    }
}

/// The injected literal `__typename` field line of an object type.
pub open spec fn typename_line(n: Seq<char>) -> Seq<char> {
    "__typename"@ + ": "@ + "\""@ + escaped(n) + "\""@ + ";\n"@
}

/// The exact output of an object type definition.
pub open spec fn object_output(d: ObjectTypeDefinition) -> Seq<char> {
    desc_print(d.description) + "export type "@ + d.name.name@ + " = "@ + "{\n"@ + typename_line(
        d.name.name@,
    ) + field_lines(d.fields@) + "}"@ + ";\n"@
}

/// The exact output of an interface definition: the union of the object
/// types that implement it, in document order.
pub open spec fn interface_output(d: InterfaceTypeDefinition, doc: TypeSystemDocument) -> Seq<
    char,
> {
    desc_print(d.description) + "export type "@ + d.name.name@ + " = "@ + names_union_print(
        impl_names(doc.definitions@, d.name.name@),
    ) + ";\n"@
}

/// The exact output of a union definition: its declared members in order.
pub open spec fn union_output(d: UnionTypeDefinition) -> Seq<char> {
    desc_print(d.description) + "export type "@ + d.name.name@ + " = "@ + names_union_print(
        ident_names(d.members@),
    ) + ";\n"@
}

/// The string literal printed for one enum value.
pub open spec fn enum_lit(v: EnumValueDefinition) -> Seq<char> {
    "\""@ + escaped(v.name.name@) + "\""@
}

pub open spec fn enum_joined_vals(vs: Seq<EnumValueDefinition>) -> Seq<char>
    decreases vs.len(),
{
    if vs.len() == 0 {
        Seq::empty()
    } else if vs.len() == 1 {
        enum_lit(vs[0])
    } else {
        enum_joined_vals(vs.drop_last()) + " | "@ + enum_lit(vs.last())
    }
}

/// The union of an enum's values; no values print `never`.
pub open spec fn enum_union_text(vs: Seq<EnumValueDefinition>) -> Seq<char> {
    if vs.len() == 0 {
        "never"@
    } else {
        enum_joined_vals(vs)
    }
}

/// The lines of the optional runtime mapping of an enum.
pub open spec fn runtime_lines(vs: Seq<EnumValueDefinition>) -> Seq<char>
    decreases vs.len(),
{
    if vs.len() == 0 {
        Seq::empty()
    } else {
        runtime_lines(vs.drop_last()) + vs.last().name.name@ + ": \""@ + vs.last().name.name@
            + "\",\n"@
    }
}

/// The exact output of an enum definition: a string-literal union, plus a
/// read-only runtime mapping when configured.
pub open spec fn enum_output(d: EnumTypeDefinition, opts: SchemaTypePrinterOptions) -> Seq<char> {
    desc_print(d.description) + "export type "@ + d.name.name@ + " = "@ + enum_union_text(
        d.values@,
    ) + ";\n"@ + (if opts.emit_schema_runtime {
        "export const "@ + d.name.name@ + " = {\n"@ + runtime_lines(d.values@) + "} as const;\n"@
    } else {
        Seq::<char>::empty()
    })
}

/// The printed line of one input-object field: always read-only, and
/// optional exactly when the option is set and the field is nullable.
pub open spec fn input_field_line(fd: FieldDefinition, nullable_optional: bool) -> Seq<char> {
    doc_text_of(ts_desc(fd.description, fd.deprecation)) + "readonly "@ + fd.name.name@ + (if
    nullable_optional && !is_nonnull(fd.ty) {
        "?"@
    } else {
        Seq::<char>::empty()
    }) + ": "@ + ts_type_of_print(fd.ty) + ";\n"@
}

pub open spec fn input_field_lines(fds: Seq<FieldDefinition>, nullable_optional: bool) -> Seq<char>
    decreases fds.len(),
{
    if fds.len() == 0 {
        Seq::empty()
    } else {
        input_field_lines(fds.drop_last(), nullable_optional) + input_field_line(
            fds.last(),
            nullable_optional,
        )
    }
}

/// The exact output of an input object definition.
pub open spec fn input_output(d: InputObjectTypeDefinition, opts: SchemaTypePrinterOptions) -> Seq<
    char,
> {
    desc_print(d.description) + "export type "@ + d.name.name@ + " = "@ + "{\n"@
        + input_field_lines(d.fields@, opts.input_nullable_field_is_optional) + "}"@ + ";\n"@
}

/// Whether printing a type definition succeeds: only a scalar without a
/// configured mapping fails.
pub open spec fn td_ok(td: TypeDefinition, opts: SchemaTypePrinterOptions) -> bool {
    match td {
        TypeDefinition::Scalar(d) => scalar_ok(d, opts),
        _ => true,
    }
}

/// The exact output of a type definition.
pub open spec fn td_output(
    td: TypeDefinition,
    doc: TypeSystemDocument,
    opts: SchemaTypePrinterOptions,
) -> Seq<char> {
    match td {
        TypeDefinition::Scalar(d) => scalar_output(d, opts),
        TypeDefinition::Object(d) => object_output(d),
        TypeDefinition::Interface(d) => interface_output(d, doc),
        TypeDefinition::Union(d) => union_output(d),
        TypeDefinition::Enum(d) => enum_output(d, opts),
        TypeDefinition::InputObject(d) => input_output(d, opts),
    }
}

/// The error a failing type definition yields.
pub open spec fn td_error_matches(td: TypeDefinition, e: SchemaTypePrinterError) -> bool {
    td matches TypeDefinition::Scalar(sd) && (e matches
    SchemaTypePrinterError::ScalarTypeNotProvided { name, position } && name@ == sd.name.name@
        && position == sd.position)
}

/// Whether printing a definition succeeds.
pub open spec fn def_ok(def: TypeSystemDefinition, opts: SchemaTypePrinterOptions) -> bool {
    match def {
        TypeSystemDefinition::TypeDefinition(td) => td_ok(td, opts),
        _ => true,
    }
}

/// The exact output of a definition; schema and directive definitions
/// print nothing here.
pub open spec fn def_output(
    def: TypeSystemDefinition,
    doc: TypeSystemDocument,
    opts: SchemaTypePrinterOptions,
) -> Seq<char> {
    match def {
        TypeSystemDefinition::TypeDefinition(td) => td_output(td, doc, opts),
        _ => Seq::empty(),
    }
}

/// The error a failing definition yields.
pub open spec fn def_error_matches(def: TypeSystemDefinition, e: SchemaTypePrinterError) -> bool {
    def matches TypeSystemDefinition::TypeDefinition(td) && td_error_matches(td, e)
}


// ------------------------------------------------------------------
// The per-definition printers.
// ------------------------------------------------------------------

impl ScalarTypeDefinition {
    /// Prints the alias for this scalar, or reports the missing mapping.
    pub fn print_type(
        &self,
        _schema: &TypeSystemDocument,
        options: &SchemaTypePrinterOptions,
        writer: &mut SourceMapWriter,
    ) -> (r: SchemaTypePrinterResult<()>)
        ensures
            scalar_ok(*self, *options) ==> (r matches Ok(_) && final(writer).text@ == old(writer).text@ + scalar_output(*self, *options)),
            !scalar_ok(*self, *options) ==> (r matches Err(e) && def_error_matches(
                TypeSystemDefinition::TypeDefinition(TypeDefinition::Scalar(*self)),
                e,
            ) && final(writer).text@ == old(writer).text@),
            old(writer).marks@.is_prefix_of(final(writer).marks@),
    {
        let target: String = match lookup_scalar(options, self.name.name.as_str()) {
            None => {
                proof {
                    assert(old(writer).marks@.is_prefix_of(writer.marks@));
                }
                return Err(
                    SchemaTypePrinterError::ScalarTypeNotProvided {
                        name: self.name.name.clone(),
                        position: self.position,
                    },
                );
            },
            Some(t) => t,
        };
        print_description(&self.description, writer);
        if str_eq(self.name.name.as_str(), target.as_str()) {
            let mut tmp = String::from_str("__tmp_");
            tmp.append(self.name.name.as_str());
            writer.write_for("type ", self.scalar_keyword);
            writer.write_for(tmp.as_str(), self.name.position);
            writer.write(" = ");
            writer.write(target.as_str());
            writer.write(";\nexport type { ");
            writer.write(tmp.as_str());
            writer.write(" as ");
            writer.write(self.name.name.as_str());
            writer.write("};\n");
        } else {
            writer.write_for("export type ", self.scalar_keyword);
            writer.write_for(self.name.name.as_str(), self.name.position);
            writer.write(" = ");
            writer.write(target.as_str());
            writer.write(";\n");
        }
        proof {
            assert(final(writer).text@ =~= old(writer).text@ + scalar_output(*self, *options));
            assert(writer.marks@.subrange(0, old(writer).marks@.len() as int) =~= old(writer).marks@);
        }
        Ok(())
    }
}

impl ObjectTypeDefinition {
    /// Prints the object type: an injected literal `__typename` field
    /// followed by one field per declaration, in order.
    pub fn print_type(
        &self,
        _schema: &TypeSystemDocument,
        options: &SchemaTypePrinterOptions,
        writer: &mut SourceMapWriter,
    ) -> (r: SchemaTypePrinterResult<()>)
        ensures
            r matches Ok(_),
            final(writer).text@ == old(writer).text@ + object_output(*self),
            old(writer).marks@.is_prefix_of(final(writer).marks@),
    {
        let mut fields: Vec<ObjectField> = Vec::new();
        let tn = ObjectField {
            key: String::from_str("__typename"),
            ty: TSType::StringLiteral(self.name.name.clone()),
            readonly: false,
            optional: false,
            description: None,
        };
        proof {
            assert(field_print(tn) =~= typename_line(self.name.name@));
        }
        fields.push(tn);
        proof {
            assert(fields@.drop_last() =~= Seq::<ObjectField>::empty());
            assert(fields@.last() == tn);
            assert(fields_print(Seq::<ObjectField>::empty()) == Seq::<char>::empty());
            assert(self.fields@.take(0) =~= Seq::<FieldDefinition>::empty());
            assert(fields_print(fields@) =~= typename_line(self.name.name@) + field_lines(
                self.fields@.take(0),
            ));
        }
        let mut i: usize = 0;
        while i < self.fields.len()
            invariant
                i <= self.fields@.len(),
                fields@.len() == i + 1,
                fields_print(fields@) == typename_line(self.name.name@) + field_lines(
                    self.fields@.take(i as int),
                ),
            decreases self.fields@.len() - i,
        {
            let ghost fs0 = fields@;
            let fd = &self.fields[i];
            let dsc = make_ts_description(&fd.description, &fd.deprecation);
            let f = ObjectField {
                key: fd.name.name.clone(),
                ty: get_ts_type_of_type(&fd.ty),
                readonly: false,
                optional: false,
                description: dsc,
            };
            proof {
                assert(opt_chars(f.description) == ts_desc(fd.description, fd.deprecation));
                assert(field_doc(f.description) == doc_text_of(
                    ts_desc(fd.description, fd.deprecation),
                ));
                assert(field_print(f) =~= field_line(self.fields@[i as int]));
            }
            fields.push(f);
            proof {
                assert(fields@.drop_last() =~= fs0);
                assert(fields@.last() == f);
                assert(self.fields@.take(i + 1).drop_last() =~= self.fields@.take(i as int));
                assert(self.fields@.take(i + 1).last() == self.fields@[i as int]);
                assert(fields_print(fields@) =~= typename_line(self.name.name@) + field_lines(
                    self.fields@.take(i + 1),
                ));
            }
            i = i + 1;
        }
        proof {
            assert(self.fields@.take(self.fields@.len() as int) =~= self.fields@);
        }
        let obj = TSType::Object(fields);
        print_description(&self.description, writer);
        writer.write_for("export type ", self.type_keyword);
        writer.write_for(self.name.name.as_str(), self.name.position);
        writer.write(" = ");
        obj.print_type(writer);
        writer.write(";\n");
        proof {
            assert(final(writer).text@ =~= old(writer).text@ + object_output(*self));
            assert(writer.marks@.subrange(0, old(writer).marks@.len() as int) =~= old(writer).marks@);
        }
        Ok(())
    }
}

impl InterfaceTypeDefinition {
    /// Prints the interface as the union of all object types implementing
    /// it, in document order; no implementers print `never`.
    pub fn print_type(
        &self,
        schema: &TypeSystemDocument,
        _options: &SchemaTypePrinterOptions,
        writer: &mut SourceMapWriter,
    ) -> (r: SchemaTypePrinterResult<()>)
        ensures
            r matches Ok(_),
            final(writer).text@ == old(writer).text@ + interface_output(*self, *schema),
            old(writer).marks@.is_prefix_of(final(writer).marks@),
    {
        let ghost defs = schema.definitions@;
        let mut names: Vec<String> = Vec::new();
        proof {
            assert(defs.take(0) =~= Seq::<TypeSystemDefinition>::empty());
            assert(names_view(names@) =~= impl_names(defs.take(0), self.name.name@));
        }
        let mut i: usize = 0;
        while i < schema.definitions.len()
            invariant
                i <= defs.len(),
                defs == schema.definitions@,
                names_view(names@) == impl_names(defs.take(i as int), self.name.name@),
            decreases defs.len() - i,
        {
            let ghost ns0 = names_view(names@);
            proof {
                assert(defs.take(i + 1).drop_last() =~= defs.take(i as int));
                assert(defs.take(i + 1).last() == defs[i as int]);
            }
            match &schema.definitions[i] {
                TypeSystemDefinition::TypeDefinition(td) => match td {
                    TypeDefinition::Object(o) => {
                        if implements_check(o, self.name.name.as_str()) {
                            names.push(o.name.name.clone());
                            proof {
                                assert(names_view(names@) =~= ns0.push(o.name.name@));
                                assert(obj_name_of(defs[i as int]) == o.name.name@);
                            }
                        }
                    },
                    _ => {},
                },
                _ => {},
            }
            proof {
                assert(names_view(names@) =~= impl_names(defs.take(i + 1), self.name.name@));
            }
            i = i + 1;
        }
        proof {
            assert(defs.take(defs.len() as int) =~= defs);
        }
        print_description(&self.description, writer);
        writer.write_for("export type ", self.interface_keyword);
        writer.write_for(self.name.name.as_str(), self.name.position);
        writer.write(" = ");
        print_name_union(&names, writer);
        writer.write(";\n");
        proof {
            assert(final(writer).text@ =~= old(writer).text@ + interface_output(*self, *schema));
            assert(writer.marks@.subrange(0, old(writer).marks@.len() as int) =~= old(writer).marks@);
        }
        Ok(())
    }
}

impl UnionTypeDefinition {
    /// Prints the union of the declared member names, in declared order.
    pub fn print_type(
        &self,
        _schema: &TypeSystemDocument,
        _options: &SchemaTypePrinterOptions,
        writer: &mut SourceMapWriter,
    ) -> (r: SchemaTypePrinterResult<()>)
        ensures
            r matches Ok(_),
            final(writer).text@ == old(writer).text@ + union_output(*self),
            old(writer).marks@.is_prefix_of(final(writer).marks@),
    {
        let mut names: Vec<String> = Vec::new();
        proof {
            assert(self.members@.take(0) =~= Seq::<Ident>::empty());
            assert(names_view(names@) =~= ident_names(self.members@.take(0)));
        }
        let mut i: usize = 0;
        while i < self.members.len()
            invariant
                i <= self.members@.len(),
                names_view(names@) == ident_names(self.members@.take(i as int)),
            decreases self.members@.len() - i,
        {
            let ghost ns0 = names_view(names@);
            names.push(self.members[i].name.clone());
            proof {
                assert(names_view(names@) =~= ns0.push(self.members@[i as int].name@));
                assert(ident_names(self.members@.take(i + 1)) =~= ident_names(
                    self.members@.take(i as int),
                ).push(self.members@[i as int].name@));
            }
            i = i + 1;
        }
        proof {
            assert(self.members@.take(self.members@.len() as int) =~= self.members@);
        }
        print_description(&self.description, writer);
        writer.write_for("export type ", self.union_keyword);
        writer.write_for(self.name.name.as_str(), self.name.position);
        writer.write(" = ");
        print_name_union(&names, writer);
        writer.write(";\n");
        proof {
            assert(final(writer).text@ =~= old(writer).text@ + union_output(*self));
            assert(writer.marks@.subrange(0, old(writer).marks@.len() as int) =~= old(writer).marks@);
        }
        Ok(())
    }
}


impl EnumTypeDefinition {
    /// Prints the enum as a string-literal union of its values, and, when
    /// configured, a read-only runtime mapping from each value to itself.
    #[verifier::rlimit(60)]
    pub fn print_type(
        &self,
        _schema: &TypeSystemDocument,
        options: &SchemaTypePrinterOptions,
        writer: &mut SourceMapWriter,
    ) -> (r: SchemaTypePrinterResult<()>)
        ensures
            r matches Ok(_),
            final(writer).text@ == old(writer).text@ + enum_output(*self, *options),
            old(writer).marks@.is_prefix_of(final(writer).marks@),
    {
        let mut ms: Vec<TSType> = Vec::new();
        proof {
            assert(self.values@.take(0) =~= Seq::<EnumValueDefinition>::empty());
            assert(joined(ms@, " | "@) == enum_joined_vals(self.values@.take(0)));
        }
        let mut i: usize = 0;
        while i < self.values.len()
            invariant
                i <= self.values@.len(),
                ms@.len() == i,
                joined(ms@, " | "@) == enum_joined_vals(self.values@.take(i as int)),
            decreases self.values@.len() - i,
        {
            let ghost ms0 = ms@;
            let lit = TSType::StringLiteral(self.values[i].name.name.clone());
            proof {
                assert(ts_print(lit) == enum_lit(self.values@[i as int]));
            }
            ms.push(lit);
            proof {
                assert(ms@.drop_last() =~= ms0);
                assert(ms@.last() == lit);
                assert(self.values@.take(i + 1).drop_last() =~= self.values@.take(i as int));
                assert(self.values@.take(i + 1).last() == self.values@[i as int]);
                assert(joined(ms@, " | "@) == enum_joined_vals(self.values@.take(i + 1)));
            }
            i = i + 1;
        }
        proof {
            assert(self.values@.take(self.values@.len() as int) =~= self.values@);
        }
        let u = TSType::Union(ms);
        print_description(&self.description, writer);
        writer.write_for("export type ", self.enum_keyword);
        writer.write_for(self.name.name.as_str(), self.name.position);
        writer.write(" = ");
        u.print_type(writer);
        writer.write(";\n");
        let ghost mid_text = writer.text@;
        let ghost mid_marks = writer.marks@;
        proof {
            assert(mid_text =~= old(writer).text@ + desc_print(self.description)
                + "export type "@ + self.name.name@ + " = "@ + enum_union_text(self.values@)
                + ";\n"@);
            assert(writer.marks@.subrange(0, old(writer).marks@.len() as int) =~= old(writer).marks@);
        }
        if options.emit_schema_runtime {
            writer.write_for("export const ", self.enum_keyword);
            writer.write_for(self.name.name.as_str(), self.name.position);
            writer.write(" = {\n");
            proof {
                assert(self.values@.take(0) =~= Seq::<EnumValueDefinition>::empty());
                assert(writer.text@ =~= mid_text + "export const "@ + self.name.name@ + " = {\n"@
                    + runtime_lines(self.values@.take(0)));
                assert(mid_marks.subrange(0, old(writer).marks@.len() as int) =~= old(writer).marks@);
                assert(old(writer).marks@.is_prefix_of(writer.marks@));
            }
            let mut j: usize = 0;
            while j < self.values.len()
                invariant
                    j <= self.values@.len(),
                    writer.text@ == mid_text + "export const "@ + self.name.name@ + " = {\n"@
                        + runtime_lines(self.values@.take(j as int)),
                    old(writer).marks@.is_prefix_of(writer.marks@),
                decreases self.values@.len() - j,
            {
                let ghost marks0 = writer.marks@;
                writer.write_for(self.values[j].name.name.as_str(), self.values[j].name.position);
                writer.write(": \"");
                writer.write_for(self.values[j].name.name.as_str(), self.values[j].name.position);
                writer.write("\",\n");
                proof {
                    assert(self.values@.take(j + 1).drop_last() =~= self.values@.take(j as int));
                    assert(self.values@.take(j + 1).last() == self.values@[j as int]);
                    assert(writer.text@ =~= mid_text + "export const "@ + self.name.name@
                        + " = {\n"@ + runtime_lines(self.values@.take(j + 1)));
                    assert(marks0.is_prefix_of(writer.marks@)) by {
                        assert(writer.marks@.subrange(0, marks0.len() as int) =~= marks0);
                    }
                    lemma_prefix_extend(old(writer).marks@, marks0, writer.marks@);
                }
                j = j + 1;
            }
            writer.write("} as const;\n");
            proof {
                assert(self.values@.take(self.values@.len() as int) =~= self.values@);
                assert(final(writer).text@ =~= old(writer).text@ + enum_output(*self, *options));
            }
        } else {
            proof {
                assert(final(writer).text@ =~= old(writer).text@ + enum_output(*self, *options));
            }
        }
        Ok(())
    }
}

impl InputObjectTypeDefinition {
    /// Prints the input object: every field read-only, and optional
    /// exactly when configured so and the field's type is nullable.
    pub fn print_type(
        &self,
        _schema: &TypeSystemDocument,
        options: &SchemaTypePrinterOptions,
        writer: &mut SourceMapWriter,
    ) -> (r: SchemaTypePrinterResult<()>)
        ensures
            r matches Ok(_),
            final(writer).text@ == old(writer).text@ + input_output(*self, *options),
            old(writer).marks@.is_prefix_of(final(writer).marks@),
    {
        let mut fields: Vec<ObjectField> = Vec::new();
        proof {
            assert(self.fields@.take(0) =~= Seq::<FieldDefinition>::empty());
            assert(fields_print(fields@) == input_field_lines(
                self.fields@.take(0),
                options.input_nullable_field_is_optional,
            ));
        }
        let mut i: usize = 0;
        while i < self.fields.len()
            invariant
                i <= self.fields@.len(),
                fields@.len() == i,
                fields_print(fields@) == input_field_lines(
                    self.fields@.take(i as int),
                    options.input_nullable_field_is_optional,
                ),
            decreases self.fields@.len() - i,
        {
            let ghost fs0 = fields@;
            let fd = &self.fields[i];
            let dsc = make_ts_description(&fd.description, &fd.deprecation);
            let opt = options.input_nullable_field_is_optional && !fd.ty.is_nonnull();
            let f = ObjectField {
                key: fd.name.name.clone(),
                ty: get_ts_type_of_type(&fd.ty),
                readonly: true,
                optional: opt,
                description: dsc,
            };
            proof {
                assert(opt_chars(f.description) == ts_desc(fd.description, fd.deprecation));
                assert(field_doc(f.description) == doc_text_of(
                    ts_desc(fd.description, fd.deprecation),
                ));
                assert(field_print(f) =~= input_field_line(
                    self.fields@[i as int],
                    options.input_nullable_field_is_optional,
                ));
            }
            fields.push(f);
            proof {
                assert(fields@.drop_last() =~= fs0);
                assert(fields@.last() == f);
                assert(self.fields@.take(i + 1).drop_last() =~= self.fields@.take(i as int));
                assert(self.fields@.take(i + 1).last() == self.fields@[i as int]);
                assert(fields_print(fields@) =~= input_field_lines(
                    self.fields@.take(i + 1),
                    options.input_nullable_field_is_optional,
                ));
            }
            i = i + 1;
        }
        proof {
            assert(self.fields@.take(self.fields@.len() as int) =~= self.fields@);
        }
        let obj = TSType::Object(fields);
        print_description(&self.description, writer);
        writer.write_for("export type ", self.input_keyword);
        writer.write_for(self.name.name.as_str(), self.name.position);
        writer.write(" = ");
        obj.print_type(writer);
        writer.write(";\n");
        proof {
            assert(final(writer).text@ =~= old(writer).text@ + input_output(*self, *options));
            assert(writer.marks@.subrange(0, old(writer).marks@.len() as int) =~= old(writer).marks@);
        }
        Ok(())
    }
}

impl TypeDefinition {
    /// Prints one type definition; only a scalar without a configured
    /// mapping fails.
    pub fn print_type(
        &self,
        schema: &TypeSystemDocument,
        options: &SchemaTypePrinterOptions,
        writer: &mut SourceMapWriter,
    ) -> (r: SchemaTypePrinterResult<()>)
        ensures
            td_ok(*self, *options) ==> (r matches Ok(_) && final(writer).text@ == old(writer).text@ + td_output(*self, *schema, *options)),
            !td_ok(*self, *options) ==> (r matches Err(e) && td_error_matches(*self, e) && final(writer).text@ == old(writer).text@),
            old(writer).marks@.is_prefix_of(final(writer).marks@),
    {
        match self {
            TypeDefinition::Scalar(d) => d.print_type(schema, options, writer),
            TypeDefinition::Object(d) => d.print_type(schema, options, writer),
            TypeDefinition::Interface(d) => d.print_type(schema, options, writer),
            TypeDefinition::Union(d) => d.print_type(schema, options, writer),
            TypeDefinition::Enum(d) => d.print_type(schema, options, writer),
            TypeDefinition::InputObject(d) => d.print_type(schema, options, writer),
        }
    }
}

impl TypeSystemDefinition {
    /// Prints one definition; schema and directive definitions are passed
    /// over here (the root mapping is printed as the metadata type).
    pub fn print_type(
        &self,
        schema: &TypeSystemDocument,
        options: &SchemaTypePrinterOptions,
        writer: &mut SourceMapWriter,
    ) -> (r: SchemaTypePrinterResult<()>)
        ensures
            def_ok(*self, *options) ==> (r matches Ok(_) && final(writer).text@ == old(writer).text@ + def_output(*self, *schema, *options)),
            !def_ok(*self, *options) ==> (r matches Err(e) && def_error_matches(*self, e)
                && final(writer).text@ == old(writer).text@),
            old(writer).marks@.is_prefix_of(final(writer).marks@),
    {
        match self {
            TypeSystemDefinition::SchemaDefinition(_) => {
                proof {
                    assert(final(writer).text@ =~= old(writer).text@ + Seq::<char>::empty());
                    assert(writer.marks@.subrange(0, old(writer).marks@.len() as int) =~= old(writer).marks@);
                }
                Ok(())
            },
            TypeSystemDefinition::TypeDefinition(td) => td.print_type(schema, options, writer),
            TypeSystemDefinition::DirectiveDefinition(_) => {
                proof {
                    assert(final(writer).text@ =~= old(writer).text@ + Seq::<char>::empty());
                    assert(writer.marks@.subrange(0, old(writer).marks@.len() as int) =~= old(writer).marks@);
                }
                Ok(())
            },
        }
    }
}

// ------------------------------------------------------------------
// The whole document.
// ------------------------------------------------------------------

/// The fixed utility declarations every generated schema file carries.
pub open spec fn utility_text() -> Seq<char> {
    "type __Beautify<Obj> = { [K in keyof Obj]: Obj[K] } & {};\nexport type __SelectionSet<Orig, Obj, Others> =\n  __Beautify<Pick<{\n    [K in keyof Orig]: Obj extends Record<K, infer V> ? V : unknown\n  }, Extract<keyof Orig, keyof Obj>> & Others>;\n"@
}

/// The document header: the root metadata declaration and the utility
/// declarations.
pub open spec fn header_output(doc: TypeSystemDocument, opts: SchemaTypePrinterOptions) -> Seq<
    char,
> {
    "export type "@ + opts.schema_metadata_type@ + " = "@ + metadata_print(doc) + ";\n\n"@
        + utility_text()
}

/// The outputs of the definitions, in document order, each followed by a
/// blank line.
pub open spec fn defs_output(
    defs: Seq<TypeSystemDefinition>,
    doc: TypeSystemDocument,
    opts: SchemaTypePrinterOptions,
) -> Seq<char>
    decreases defs.len(),
{
    if defs.len() == 0 {
        Seq::empty()
    } else {
        defs_output(defs.drop_last(), doc, opts) + def_output(defs.last(), doc, opts) + "\n"@
    }
}

/// Whether every definition of the document prints successfully.
pub open spec fn all_ok(defs: Seq<TypeSystemDefinition>, opts: SchemaTypePrinterOptions) -> bool {
    forall|i: int| 0 <= i < defs.len() ==> def_ok(#[trigger] defs[i], opts)
}

/// The index of the first definition that fails, or a negative value when
/// none does.
pub open spec fn first_bad(defs: Seq<TypeSystemDefinition>, opts: SchemaTypePrinterOptions) -> int
    decreases defs.len(),
{
    if defs.len() == 0 {
        -1
    } else if !def_ok(defs[0], opts) {
        0
    } else {
        if first_bad(defs.drop_first(), opts) < 0 {
            -1
        } else {
            first_bad(defs.drop_first(), opts) + 1
        }
    }
}

/// When the first `i` definitions print and the next fails, it is the
/// first failure.
proof fn lemma_first_bad_at(defs: Seq<TypeSystemDefinition>, opts: SchemaTypePrinterOptions, i: int)
    requires
        0 <= i < defs.len(),
        forall|j: int| 0 <= j < i ==> def_ok(#[trigger] defs[j], opts),
        !def_ok(defs[i], opts),
    ensures
        first_bad(defs, opts) == i,
    decreases i,
{
    if i == 0 {
    } else {
        assert(def_ok(defs[0], opts));
        assert forall|j: int| 0 <= j < i - 1 implies def_ok(#[trigger] defs.drop_first()[j], opts) by {
            assert(defs.drop_first()[j] == defs[j + 1]);
        }
        assert(defs.drop_first()[i - 1] == defs[i]);
        lemma_first_bad_at(defs.drop_first(), opts, i - 1);
    }
}

impl TypeSystemDocument {
    /// Prints the whole document: the root metadata declaration, the
    /// utility declarations, then one declaration per definition in
    /// document order. Stops at the first scalar without a configured
    /// mapping and reports it; the text printed for earlier definitions
    /// has then already been emitted.
    pub fn print_type(
        &self,
        options: &SchemaTypePrinterOptions,
        writer: &mut SourceMapWriter,
    ) -> (r: SchemaTypePrinterResult<()>)
        ensures
            all_ok(self.definitions@, *options) ==> (r matches Ok(_) && final(writer).text@ == old(writer).text@ + header_output(*self, *options) + defs_output(
                self.definitions@,
                *self,
                *options,
            )),
            !all_ok(self.definitions@, *options) ==> (r matches Err(e) && {
                let k = first_bad(self.definitions@, *options);
                &&& 0 <= k < self.definitions@.len()
                &&& def_error_matches(self.definitions@[k], e)
                &&& final(writer).text@ == old(writer).text@ + header_output(*self, *options)
                    + defs_output(self.definitions@.take(k), *self, *options)
            }),
            old(writer).marks@.is_prefix_of(final(writer).marks@),
    {
        let ghost defs = self.definitions@;
        writer.write("export type ");
        writer.write(options.schema_metadata_type.as_str());
        writer.write(" = ");
        let meta = get_schema_metadata_type(self);
        meta.print_type(writer);
        writer.write(";\n\n");
        writer.write(
            "type __Beautify<Obj> = { [K in keyof Obj]: Obj[K] } & {};\nexport type __SelectionSet<Orig, Obj, Others> =\n  __Beautify<Pick<{\n    [K in keyof Orig]: Obj extends Record<K, infer V> ? V : unknown\n  }, Extract<keyof Orig, keyof Obj>> & Others>;\n",
        );
        proof {
            assert(defs.take(0) =~= Seq::<TypeSystemDefinition>::empty());
            assert(writer.text@ =~= old(writer).text@ + header_output(*self, *options)
                + defs_output(defs.take(0), *self, *options));
            assert(writer.marks@.subrange(0, old(writer).marks@.len() as int) =~= old(writer).marks@);
        }
        let mut i: usize = 0;
        while i < self.definitions.len()
            invariant
                i <= defs.len(),
                defs == self.definitions@,
                forall|j: int| 0 <= j < i ==> def_ok(#[trigger] defs[j], *options),
                writer.text@ == old(writer).text@ + header_output(*self, *options) + defs_output(
                    defs.take(i as int),
                    *self,
                    *options,
                ),
                old(writer).marks@.is_prefix_of(writer.marks@),
            decreases defs.len() - i,
        {
            let ghost marks0 = writer.marks@;
            let res = self.definitions[i].print_type(self, options, writer);
            match res {
                Ok(_) => {
                    writer.write("\n");
                    proof {
                        assert(defs.take(i + 1).drop_last() =~= defs.take(i as int));
                        assert(defs.take(i + 1).last() == defs[i as int]);
                        assert(writer.text@ =~= old(writer).text@ + header_output(*self, *options)
                            + defs_output(defs.take(i + 1), *self, *options));
                        lemma_prefix_extend(old(writer).marks@, marks0, writer.marks@);
                    }
                    i = i + 1;
                },
                Err(e) => {
                    proof {
                        assert(!def_ok(defs[i as int], *options));
                        lemma_first_bad_at(defs, *options, i as int);
                        assert(!all_ok(defs, *options));
                        lemma_prefix_extend(old(writer).marks@, marks0, writer.marks@);
                    }
                    return Err(e);
                },
            }
        }
        proof {
            assert(defs.take(defs.len() as int) =~= defs);
            assert(all_ok(defs, *options));
        }
        Ok(())
    }
}

} // verus!
