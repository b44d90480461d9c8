//! Statements, proved once and for all, about the printers: determinism,
//! union construction, scalar self-aliasing, enum runtime emission,
//! input-object field modifiers, and inline-fragment handling.

use vstd::prelude::*;
use crate::query_printer::{
    defs_print, operation_document_print, selection_print, selection_set_print,
    QueryTypePrinterOptions,
};
use crate::schema_printer::{
    defs_output, desc_print, enum_output, enum_union_text, first_bad, header_output,
    input_field_line, runtime_lines, scalar_lookup, scalar_output, SchemaTypePrinterOptions,
};
use crate::selection_set::{Field, InlineFragment, Selection, SelectionSet};
use crate::operations::{ExecutableDefinition, OperationDocument};
use crate::ts_types::{
    contains_eq, dedup_members, escaped, expand_member, flatten_members, joined, lemma_ts_eq_refl,
    ts_eq, ts_print, union_members, TSType,
};
use crate::type_system::{
    EnumTypeDefinition, FieldDefinition, ScalarTypeDefinition, TypeSystemDefinition,
    TypeSystemDocument,
};
use crate::types::is_nonnull;

verus! {

// ------------------------------------------------------------------
// Output order and determinism.
// ------------------------------------------------------------------

/// A schema document's output is built definition by definition, in
/// document order: the output for the first `i + 1` definitions is the
/// output for the first `i` followed by the `i`-th definition's own
/// output and a blank line. Declaration order equals definition order.
pub proof fn lemma_schema_output_in_order(
    defs: Seq<TypeSystemDefinition>,
    doc: TypeSystemDocument,
    opts: SchemaTypePrinterOptions,
    i: int,
)
    requires
        0 <= i < defs.len(),
    ensures
        defs_output(defs.take(i + 1), doc, opts) == defs_output(defs.take(i), doc, opts)
            + crate::schema_printer::def_output(defs[i], doc, opts) + "\n"@,
{
    assert(defs.take(i + 1).drop_last() =~= defs.take(i));
    assert(defs.take(i + 1).last() == defs[i]);
}

/// The same, for operation documents: one declaration per definition, in
/// document order.
pub proof fn lemma_operation_output_in_order(
    defs: Seq<ExecutableDefinition>,
    opts: QueryTypePrinterOptions,
    i: int,
)
    requires
        0 <= i < defs.len(),
    ensures
        defs_print(defs.take(i + 1), opts) == defs_print(defs.take(i), opts)
            + crate::query_printer::executable_print(defs[i], opts),
{
    assert(defs.take(i + 1).drop_last() =~= defs.take(i));
    assert(defs.take(i + 1).last() == defs[i]);
}

/// Printing a schema document is a pure function of the document and the
/// options: any two successful runs on the same input append the same
/// text, so recompiling identical input yields identical output.
pub proof fn lemma_schema_output_deterministic(
    doc: TypeSystemDocument,
    opts: SchemaTypePrinterOptions,
    t1: Seq<char>,
    t2: Seq<char>,
)
    requires
        t1 == header_output(doc, opts) + defs_output(doc.definitions@, doc, opts),
        t2 == header_output(doc, opts) + defs_output(doc.definitions@, doc, opts),
    ensures
        t1 == t2,
{
}

/// The same, for operation documents.
pub proof fn lemma_operation_output_deterministic(
    doc: OperationDocument,
    opts: QueryTypePrinterOptions,
    t1: Seq<char>,
    t2: Seq<char>,
)
    requires
        t1 == operation_document_print(doc, opts),
        t2 == operation_document_print(doc, opts),
    ensures
        t1 == t2,
{
}

// ------------------------------------------------------------------
// Union construction.
// ------------------------------------------------------------------

/// A union of no members prints `never`.
pub proof fn lemma_union_empty_prints_never(ts: Seq<TSType>, u: Vec<TSType>)
    requires
        ts.len() == 0,
        u@ == union_members(ts),
    ensures
        ts_print(TSType::Union(u)) == "never"@,
{
    assert(flatten_members(ts).len() == 0);
    assert(union_members(ts).len() == 0);
}

/// A union of one member prints exactly that member's own form, with no
/// added grouping.
pub proof fn lemma_union_single_collapses(x: TSType, ts: Seq<TSType>, u: Vec<TSType>)
    requires
        ts == seq![x],
        !(x matches TSType::Union(_)),
        u@ == union_members(ts),
    ensures
        ts_print(TSType::Union(u)) == ts_print(x),
{
    assert(ts.drop_last() =~= Seq::<TSType>::empty());
    assert(ts.last() == x);
    assert(flatten_members(Seq::<TSType>::empty()).len() == 0);
    assert(flatten_members(ts) =~= expand_member(x));
    assert(expand_member(x) =~= seq![x]);
    let f = flatten_members(ts);
    assert(f[0] == x);
    assert(f.drop_first() =~= Seq::<TSType>::empty());
    assert(!contains_eq(Seq::<TSType>::empty(), x));
    let acc1 = Seq::<TSType>::empty().push(x);
    assert(dedup_members(Seq::<TSType>::empty(), f) == dedup_members(
        acc1,
        Seq::<TSType>::empty(),
    ));
    assert(dedup_members(acc1, Seq::<TSType>::empty()) == acc1);
    assert(acc1 =~= seq![x]);
    assert(union_members(ts) =~= seq![x]);
    assert(u@.len() == 1);
    assert(joined(u@, " | "@) == ts_print(x));
}

/// Exact duplicates are removed, first-seen order kept: the union built
/// from `[a, b, a]`, for distinct non-union `a` and `b`, prints `a | b`.
pub proof fn lemma_union_dedup(a: TSType, b: TSType, ts: Seq<TSType>, u: Vec<TSType>)
    requires
        ts == seq![a, b, a],
        !(a matches TSType::Union(_)),
        !(b matches TSType::Union(_)),
        !ts_eq(a, b),
        !ts_eq(b, a),
        u@ == union_members(ts),
    ensures
        ts_print(TSType::Union(u)) == ts_print(a) + " | "@ + ts_print(b),
{
    assert(ts.drop_last() =~= seq![a, b]);
    assert(ts.last() == a);
    assert(seq![a, b].drop_last() =~= seq![a]);
    assert(seq![a, b].last() == b);
    assert(seq![a].drop_last() =~= Seq::<TSType>::empty());
    assert(seq![a].last() == a);
    assert(flatten_members(Seq::<TSType>::empty()).len() == 0);
    assert(flatten_members(seq![a]) =~= seq![a]);
    assert(flatten_members(seq![a, b]) =~= seq![a, b]);
    let f = flatten_members(ts);
    assert(f =~= seq![a, b, a]);
    // walk the deduplication
    lemma_ts_eq_refl(a);
    assert(f[0] == a);
    assert(f.drop_first() =~= seq![b, a]);
    assert(!contains_eq(Seq::<TSType>::empty(), a));
    let acc1 = Seq::<TSType>::empty().push(a);
    assert(acc1 =~= seq![a]);
    assert(seq![b, a][0] == b);
    assert(seq![b, a].drop_first() =~= seq![a]);
    assert(!contains_eq(acc1, b)) by {
        assert(forall|i: int| 0 <= i < acc1.len() ==> acc1[i] == a);
    }
    let acc2 = acc1.push(b);
    assert(acc2 =~= seq![a, b]);
    assert(seq![a][0] == a);
    assert(seq![a].drop_first() =~= Seq::<TSType>::empty());
    assert(contains_eq(acc2, a)) by {
        assert(acc2[0] == a);
        assert(ts_eq(acc2[0], a));
    }
    assert(union_members(ts) == dedup_members(Seq::<TSType>::empty(), f));
    assert(dedup_members(Seq::<TSType>::empty(), f) == dedup_members(acc1, seq![b, a]));
    assert(dedup_members(acc1, seq![b, a]) == dedup_members(acc2, seq![a]));
    assert(dedup_members(acc2, seq![a]) == dedup_members(acc2, Seq::<TSType>::empty()));
    assert(dedup_members(acc2, Seq::<TSType>::empty()) == acc2);
    assert(union_members(ts) =~= seq![a, b]);
    assert(u@.len() == 2);
    assert(u@.drop_last() =~= seq![a]);
    assert(u@.last() == b);
    assert(u@.drop_last()[0] == a);
    assert(joined(u@.drop_last(), " | "@) == ts_print(a));
    assert(joined(u@, " | "@) == ts_print(a) + " | "@ + ts_print(b));
}

// ------------------------------------------------------------------
// Scalars.
// ------------------------------------------------------------------

/// A scalar whose mapped target text equals its own name is emitted
/// through an internal alias and a re-export, never as a direct
/// self-referential alias.
pub proof fn lemma_scalar_self_alias(d: ScalarTypeDefinition, opts: SchemaTypePrinterOptions)
    requires
        scalar_lookup(opts.scalar_types@, d.name.name@) == Some(d.name.name@),
    ensures
        scalar_output(d, opts) == desc_print(d.description) + ("type "@ + ("__tmp_"@
            + d.name.name@) + " = "@ + d.name.name@ + ";\nexport type { "@ + ("__tmp_"@
            + d.name.name@) + " as "@ + d.name.name@ + "};\n"@),
{
}

/// A scalar whose mapped target text differs from its name is emitted as
/// a direct alias.
pub proof fn lemma_scalar_direct_alias(
    d: ScalarTypeDefinition,
    opts: SchemaTypePrinterOptions,
    target: Seq<char>,
)
    requires
        scalar_lookup(opts.scalar_types@, d.name.name@) == Some(target),
        target != d.name.name@,
    ensures
        scalar_output(d, opts) == desc_print(d.description) + ("export type "@ + d.name.name@
            + " = "@ + target + ";\n"@),
{
}

// ------------------------------------------------------------------
// Enums.
// ------------------------------------------------------------------

/// Without the runtime option, an enum emits only its type declaration;
/// with it, the same declaration followed by the runtime mapping.
pub proof fn lemma_enum_runtime_emission(d: EnumTypeDefinition, opts: SchemaTypePrinterOptions)
    ensures
        !opts.emit_schema_runtime ==> enum_output(d, opts) =~= desc_print(d.description)
            + "export type "@ + d.name.name@ + " = "@ + enum_union_text(d.values@) + ";\n"@,
        opts.emit_schema_runtime ==> enum_output(d, opts) == desc_print(d.description)
            + "export type "@ + d.name.name@ + " = "@ + enum_union_text(d.values@) + ";\n"@ + (
        "export const "@ + d.name.name@ + " = {\n"@ + runtime_lines(d.values@) + "} as const;\n"@),
{
}

// ------------------------------------------------------------------
// Input objects.
// ------------------------------------------------------------------

/// A non-null input field is required whatever the option says; a
/// nullable one becomes optional exactly when the option is set. Every
/// input field is read-only.
pub proof fn lemma_input_field_modifiers(fd: FieldDefinition, nullable_optional: bool)
    ensures
        is_nonnull(fd.ty) ==> input_field_line(fd, nullable_optional) =~= crate::schema_printer::doc_text_of(
            crate::schema_printer::ts_desc(fd.description, fd.deprecation),
        ) + "readonly "@ + fd.name.name@ + ": "@ + crate::ts_types::ts_type_of_print(fd.ty)
            + ";\n"@,
        !is_nonnull(fd.ty) && nullable_optional ==> input_field_line(fd, nullable_optional)
            =~= crate::schema_printer::doc_text_of(
            crate::schema_printer::ts_desc(fd.description, fd.deprecation),
        ) + "readonly "@ + fd.name.name@ + "?"@ + ": "@ + crate::ts_types::ts_type_of_print(fd.ty)
            + ";\n"@,
{
}

// ------------------------------------------------------------------
// Selection sets.
// ------------------------------------------------------------------

/// Selecting a single field with an empty sub-selection yields an object
/// with that one property, whose type is the deferred lookup into the
/// parent, unchanged by recursion.
pub proof fn lemma_leaf_field_selection(sel: SelectionSet, f: Field, parent: Seq<char>)
    requires
        sel.selections@ == seq![Selection::Field(f)],
        f.selection_set.selections@.len() == 0,
    ensures
        selection_set_print(sel, parent) =~= "{\n"@ + crate::query_printer::field_key(f) + ": "@
            + (parent + "["@ + ("\""@ + escaped(f.name.name@) + "\""@) + "]"@) + ";\n"@ + "}"@,
{
    assert(sel.selections@[0] == Selection::Field(f));
    assert(sel.selections@.len() == 1);
    let nominal = parent + "["@ + ("\""@ + escaped(f.name.name@) + "\""@) + "]"@;
    assert(selection_set_print(f.selection_set, nominal) == nominal);
    assert(selection_print(Selection::Field(f), parent) == "{\n"@
        + crate::query_printer::field_key(f) + ": "@ + nominal + ";\n"@ + "}"@);
    assert(selection_set_print(sel, parent) == selection_print(Selection::Field(f), parent));
}

/// An inline fragment without a type condition leaves the parent type
/// unchanged; one with a type condition replaces the parent type by the
/// condition's type variable. (The replacement is a known approximation,
/// kept deliberately; true narrowing would intersect instead.)
pub proof fn lemma_inline_fragment_parent(inf: InlineFragment, parent: Seq<char>)
    ensures
        inf.type_condition matches None ==> selection_print(Selection::InlineFragment(inf), parent)
            == selection_set_print(inf.selection_set, parent),
        (inf.type_condition matches Some(c) ==> selection_print(
            Selection::InlineFragment(inf),
            parent,
        ) == selection_set_print(inf.selection_set, c.name@)),
{
}

// ------------------------------------------------------------------
// Errors.
// ------------------------------------------------------------------

/// A document whose definitions all print is exactly one with no first
/// failure.
pub proof fn lemma_all_ok_no_first_bad(
    defs: Seq<TypeSystemDefinition>,
    opts: SchemaTypePrinterOptions,
)
    requires
        crate::schema_printer::all_ok(defs, opts),
    ensures
        first_bad(defs, opts) == -1,
    decreases defs.len(),
{
    if defs.len() > 0 {
        assert(crate::schema_printer::all_ok(defs.drop_first(), opts)) by {
            assert(forall|j: int|
                0 <= j < defs.drop_first().len() ==> #[trigger] defs.drop_first()[j] == defs[
                    j + 1
                ]);
        }
        lemma_all_ok_no_first_bad(defs.drop_first(), opts);
    }
}

} // verus!
