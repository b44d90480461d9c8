//! The query/selection compiler: for each operation and each fragment in an
//! operation document it emits one declaration describing the exact response
//! shape of its selection set.
//!
//! The compilation is recursive over (selection set, current parent type):
//! an empty selection set passes the parent type through; otherwise each
//! selection contributes one type and the contributions are combined by
//! `Intersection`, leaving structural merging of same-named fields to the
//! consuming type system. A field's nominal type is a deferred lookup
//! `parent["name"]`. A fragment spread becomes a reference to the fragment's
//! own declaration. An inline fragment without a type condition keeps the
//! parent type; one with a type condition replaces the parent type by the
//! condition's type variable. The replacement is a known approximation,
//! kept deliberately: true narrowing would intersect the condition with
//! the ambient type instead of discarding it.

use vstd::prelude::*;
use vstd::string::{StrSliceExecFns, StringExecFns};
use crate::operations::{
    ExecutableDefinition, FragmentDefinition, OperationDefinition, OperationDocument,
};
use crate::selection_set::{Selection, SelectionSet};
use crate::ts_types::{escaped, joined, field_print, fields_print, ts_intersection, ts_print, ObjectField, TSType};
use crate::writer::SourceMapWriter;

verus! {

/// Options for printing operation documents.
pub struct QueryTypePrinterOptions {
    /// The name of the root type that an operation's selections index into.
    pub schema_root: String,
    /// Suffix appended to an operation's name for its result declaration.
    pub query_result_suffix: String,
}

/// Uppercases an ASCII lowercase letter; any other character is unchanged.
pub open spec fn upper_char(c: char) -> char {
    if c == 'a' { 'A' } else if c == 'b' { 'B' } else if c == 'c' { 'C' }
    else if c == 'd' { 'D' } else if c == 'e' { 'E' } else if c == 'f' { 'F' }
    else if c == 'g' { 'G' } else if c == 'h' { 'H' } else if c == 'i' { 'I' }
    else if c == 'j' { 'J' } else if c == 'k' { 'K' } else if c == 'l' { 'L' }
    else if c == 'm' { 'M' } else if c == 'n' { 'N' } else if c == 'o' { 'O' }
    else if c == 'p' { 'P' } else if c == 'q' { 'Q' } else if c == 'r' { 'R' }
    else if c == 's' { 'S' } else if c == 't' { 'T' } else if c == 'u' { 'U' }
    else if c == 'v' { 'V' } else if c == 'w' { 'W' } else if c == 'x' { 'X' }
    else if c == 'y' { 'Y' } else if c == 'z' { 'Z' } else { c }
}

/// The text with its first character uppercased.
pub open spec fn cap(s: Seq<char>) -> Seq<char> {
    if s.len() == 0 {
        s
    } else {
        seq![upper_char(s[0])] + s.drop_first()
    }
}

/// The response property key of a field selection: its alias when present,
/// its name otherwise.
pub open spec fn field_key(f: crate::selection_set::Field) -> Seq<char> {
    match f.alias {
        Some(a) => a.name@,
        None => f.name.name@,
    }
}

/// The printed form of the type compiled for one selection set against a
/// parent type whose printed form is `parent`.
pub open spec fn selection_set_print(sel: SelectionSet, parent: Seq<char>) -> Seq<char>
    decreases sel,
{
    if sel.selections@.len() == 0 {
        parent
    } else {
        sel_joined(sel.selections@, parent)
    }
}

/// The contributions of the selections, joined by the intersection
/// separator; a single contribution stands alone.
pub open spec fn sel_joined(sels: Seq<Selection>, parent: Seq<char>) -> Seq<char>
    decreases sels,
{
    if sels.len() == 0 {
        Seq::empty()
    } else if sels.len() == 1 {
        selection_print(sels[0], parent)
    } else {
        sel_joined(sels.drop_last(), parent) + " & "@ + selection_print(sels.last(), parent)
    }
}

/// The printed form of the contribution of one selection.
pub open spec fn selection_print(s: Selection, parent: Seq<char>) -> Seq<char>
    decreases s,
{
    match s {
        Selection::Field(f) => "{\n"@ + field_key(f) + ": "@ + selection_set_print(
            f.selection_set,
            parent + "["@ + ("\""@ + escaped(f.name.name@) + "\""@) + "]"@,
        ) + ";\n"@ + "}"@,
        Selection::FragmentSpread(sp) => sp.fragment_name.name@,
        Selection::InlineFragment(inf) => match inf.type_condition {
            None => selection_set_print(inf.selection_set, parent),
            Some(c) => selection_set_print(inf.selection_set, c.name@),
        },
    }
}

/// The declaration printed for one operation.
pub open spec fn operation_print(od: OperationDefinition, opts: QueryTypePrinterOptions) -> Seq<
    char,
> {
    "type "@ + (match od.name {
        Some(id) => cap(id.name@),
        None => Seq::<char>::empty(),
    }) + opts.query_result_suffix@ + " = "@ + selection_set_print(
        od.selection_set,
        opts.schema_root@,
    ) + ";\n\n"@
}

/// The declaration printed for one fragment: compiled by the same
/// algorithm, rooted at the fragment's type condition, exported under the
/// fragment's own name.
pub open spec fn fragment_print(fd: FragmentDefinition) -> Seq<char> {
    "type "@ + fd.name.name@ + " = "@ + selection_set_print(
        fd.selection_set,
        fd.type_condition.name@,
    ) + ";\n\n"@
}

pub open spec fn executable_print(d: ExecutableDefinition, opts: QueryTypePrinterOptions) -> Seq<
    char,
> {
    match d {
        ExecutableDefinition::OperationDefinition(od) => operation_print(od, opts),
        ExecutableDefinition::FragmentDefinition(fd) => fragment_print(fd),
    }
}

/// The whole output for an operation document: one declaration per
/// definition, in document order.
pub open spec fn operation_document_print(
    doc: OperationDocument,
    opts: QueryTypePrinterOptions,
) -> Seq<char>
    decreases doc.definitions@.len(),
{
    defs_print(doc.definitions@, opts)
}

pub open spec fn defs_print(defs: Seq<ExecutableDefinition>, opts: QueryTypePrinterOptions) -> Seq<
    char,
>
    decreases defs.len(),
{
    if defs.len() == 0 {
        Seq::empty()
    } else {
        defs_print(defs.drop_last(), opts) + executable_print(defs.last(), opts)
    }
}

/// Uppercases an ASCII lowercase letter.
fn upper_char_exec(c: char) -> (r: char)
    ensures
        r == upper_char(c),
{
    if c == 'a' { 'A' } else if c == 'b' { 'B' } else if c == 'c' { 'C' }
    else if c == 'd' { 'D' } else if c == 'e' { 'E' } else if c == 'f' { 'F' }
    else if c == 'g' { 'G' } else if c == 'h' { 'H' } else if c == 'i' { 'I' }
    else if c == 'j' { 'J' } else if c == 'k' { 'K' } else if c == 'l' { 'L' }
    else if c == 'm' { 'M' } else if c == 'n' { 'N' } else if c == 'o' { 'O' }
    else if c == 'p' { 'P' } else if c == 'q' { 'Q' } else if c == 'r' { 'R' }
    else if c == 's' { 'S' } else if c == 't' { 'T' } else if c == 'u' { 'U' }
    else if c == 'v' { 'V' } else if c == 'w' { 'W' } else if c == 'x' { 'X' }
    else if c == 'y' { 'Y' } else if c == 'z' { 'Z' } else { c }
}

/// The string made of one uppercased character, for a character that the
/// uppercasing changes (an ASCII lowercase letter).
fn upper_char_string(c: char) -> (r: String)
    requires
        upper_char(c) != c,
    ensures
        r@ == seq![upper_char(c)],
{
    proof {
        reveal_strlit("A"); reveal_strlit("B"); reveal_strlit("C"); reveal_strlit("D");
        reveal_strlit("E"); reveal_strlit("F"); reveal_strlit("G"); reveal_strlit("H");
        reveal_strlit("I"); reveal_strlit("J"); reveal_strlit("K"); reveal_strlit("L");
        reveal_strlit("M"); reveal_strlit("N"); reveal_strlit("O"); reveal_strlit("P");
        reveal_strlit("Q"); reveal_strlit("R"); reveal_strlit("S"); reveal_strlit("T");
        reveal_strlit("U"); reveal_strlit("V"); reveal_strlit("W"); reveal_strlit("X");
        reveal_strlit("Y"); reveal_strlit("Z");
    }
    let u = upper_char_exec(c);
    if u == 'A' { String::from_str("A") } else if u == 'B' { String::from_str("B") }
    else if u == 'C' { String::from_str("C") } else if u == 'D' { String::from_str("D") }
    else if u == 'E' { String::from_str("E") } else if u == 'F' { String::from_str("F") }
    else if u == 'G' { String::from_str("G") } else if u == 'H' { String::from_str("H") }
    else if u == 'I' { String::from_str("I") } else if u == 'J' { String::from_str("J") }
    else if u == 'K' { String::from_str("K") } else if u == 'L' { String::from_str("L") }
    else if u == 'M' { String::from_str("M") } else if u == 'N' { String::from_str("N") }
    else if u == 'O' { String::from_str("O") } else if u == 'P' { String::from_str("P") }
    else if u == 'Q' { String::from_str("Q") } else if u == 'R' { String::from_str("R") }
    else if u == 'S' { String::from_str("S") } else if u == 'T' { String::from_str("T") }
    else if u == 'U' { String::from_str("U") } else if u == 'V' { String::from_str("V") }
    else if u == 'W' { String::from_str("W") } else if u == 'X' { String::from_str("X") }
    else if u == 'Y' { String::from_str("Y") } else if u == 'Z' { String::from_str("Z") }
    else {
        proof {
            assert(false);
        }
        String::new()
    }
}

/// Returns the text with its first character uppercased (ASCII letters
/// only; any other first character is kept).
pub fn capitalize(s: &str) -> (r: String)
    ensures
        r@ == cap(s@),
{
    let len = s.unicode_len();
    if len == 0 {
        let r = String::new();
        proof {
            assert(r@ =~= cap(s@));
        }
        return r;
    }
    let c = s.get_char(0);
    let u = upper_char_exec(c);
    let mut head: String;
    if u == c {
        let p = s.substring_char(0, 1);
        head = String::from_str(p);
        proof {
            assert(head@ =~= seq![upper_char(c)]);
        }
    } else {
        head = upper_char_string(c);
    }
    let tail = s.substring_char(1, len);
    head.append(tail);
    proof {
        assert(head@ =~= cap(s@));
    }
    head
}

/// Compiles a selection set against the given parent type.
///
/// An empty selection set returns the parent type itself. Otherwise the
/// result is the intersection of one contribution per selection, and its
/// printed form is exactly `selection_set_print`.
pub fn get_type_for_selection_set(selection_set: &SelectionSet, parent_type: TSType) -> (r: TSType)
    ensures
        ts_print(r) == selection_set_print(*selection_set, ts_print(parent_type)),
        selection_set.selections@.len() == 0 ==> r == parent_type,
    decreases *selection_set,
{
    if selection_set.selections.len() == 0 {
        return parent_type;
    }
    let ghost pp = ts_print(parent_type);
    let mut pieces: Vec<TSType> = Vec::new();
    proof {
        assert(selection_set.selections@.take(0) =~= Seq::<Selection>::empty());
    }
    let mut i: usize = 0;
    while i < selection_set.selections.len()
        invariant
            i <= selection_set.selections@.len(),
            pieces@.len() == i,
            pp == ts_print(parent_type),
            joined(pieces@, " & "@) == sel_joined(
                selection_set.selections@.take(i as int),
                pp,
            ),
        decreases selection_set.selections@.len() - i,
    {
        let ghost cs0 = pieces@;
        let sel = &selection_set.selections[i];
        let p = parent_type.clone_ts();
        let piece: TSType = match sel {
            Selection::Field(f) => {
                let key: String = match &f.alias {
                    Some(a) => a.name.clone(),
                    None => f.name.name.clone(),
                };
                let lit = TSType::StringLiteral(f.name.name.clone());
                let nominal = TSType::IndexType(Box::new(p), Box::new(lit));
                proof {
                    assert(ts_print(lit) == "\""@ + escaped(f.name.name@) + "\""@);
                    assert(ts_print(nominal) == pp + "["@ + ("\""@ + escaped(f.name.name@)
                        + "\""@) + "]"@);
                }
                let inner = get_type_for_selection_set(&f.selection_set, nominal);
                let fld = ObjectField {
                    key,
                    ty: inner,
                    readonly: false,
                    optional: false,
                    description: None,
                };
                let mut fv: Vec<ObjectField> = Vec::new();
                fv.push(fld);
                let obj = TSType::Object(fv);
                proof {
                    assert(fv@.len() == 1);
                    assert(fv@[0] == fld);
                    assert(fv@.last() == fld);
                    assert(fv@.drop_last() =~= Seq::<ObjectField>::empty());
                    assert(fields_print(fv@.drop_last()) == Seq::<char>::empty());
                    assert(fields_print(fv@) == fields_print(fv@.drop_last()) + field_print(
                        fv@.last(),
                    ));
                    assert(fields_print(fv@) =~= field_print(fld));
                    assert(field_print(fld) =~= fld.key@ + ": "@ + ts_print(fld.ty) + ";\n"@);
                    assert(ts_print(obj) =~= selection_print(
                        selection_set.selections@[i as int],
                        pp,
                    ));
                }
                obj
            },
            Selection::FragmentSpread(sp) => TSType::TypeVariable(sp.fragment_name.name.clone()),
            Selection::InlineFragment(inf) => match &inf.type_condition {
                None => get_type_for_selection_set(&inf.selection_set, p),
                Some(c) => get_type_for_selection_set(
                    &inf.selection_set,
                    TSType::TypeVariable(c.name.clone()),
                ),
            },
        };
        proof {
            assert(ts_print(piece) == selection_print(
                selection_set.selections@[i as int],
                pp,
            ));
        }
        pieces.push(piece);
        proof {
            assert(pieces@.drop_last() =~= cs0);
            assert(pieces@.last() == piece);
            assert(selection_set.selections@.take(i + 1).drop_last()
                =~= selection_set.selections@.take(i as int));
            assert(selection_set.selections@.take(i + 1).last()
                == selection_set.selections@[i as int]);
            assert(joined(pieces@, " & "@) == sel_joined(
                selection_set.selections@.take(i + 1),
                pp,
            ));
        }
        i = i + 1;
    }
    proof {
        assert(selection_set.selections@.take(selection_set.selections@.len() as int)
            =~= selection_set.selections@);
    }
    let r = ts_intersection(pieces);
    r
}

impl OperationDefinition {
    /// Prints the result-type declaration for this operation. Its name is
    /// the operation's own name capitalized (empty when the operation is
    /// anonymous) followed by the configured suffix.
    pub fn print_type(&self, options: &QueryTypePrinterOptions, writer: &mut SourceMapWriter)
        ensures
            final(writer).text@ == old(writer).text@ + operation_print(*self, *options),
            final(writer).marks@ == old(writer).marks@,
    {
        let name_part: String = match &self.name {
            Some(id) => capitalize(id.name.as_str()),
            None => String::new(),
        };
        writer.write("type ");
        writer.write(name_part.as_str());
        writer.write(options.query_result_suffix.as_str());
        writer.write(" = ");
        let root = TSType::TypeVariable(options.schema_root.clone());
        let t = get_type_for_selection_set(&self.selection_set, root);
        t.print_type(writer);
        writer.write(";\n\n");
        proof {
            assert(final(writer).text@ =~= old(writer).text@ + operation_print(*self, *options));
        }
    }
}

impl FragmentDefinition {
    /// Prints the declaration for this fragment, rooted at its type
    /// condition and exported under the fragment's own name.
    pub fn print_type(&self, options: &QueryTypePrinterOptions, writer: &mut SourceMapWriter)
        ensures
            final(writer).text@ == old(writer).text@ + fragment_print(*self),
            final(writer).marks@ == old(writer).marks@,
    {
        writer.write("type ");
        writer.write(self.name.name.as_str());
        writer.write(" = ");
        let root = TSType::TypeVariable(self.type_condition.name.clone());
        let t = get_type_for_selection_set(&self.selection_set, root);
        t.print_type(writer);
        writer.write(";\n\n");
        proof {
            assert(final(writer).text@ =~= old(writer).text@ + fragment_print(*self));
        }
    }
}

impl ExecutableDefinition {
    /// Prints the declaration for one executable definition.
    pub fn print_type(&self, options: &QueryTypePrinterOptions, writer: &mut SourceMapWriter)
        ensures
            final(writer).text@ == old(writer).text@ + executable_print(*self, *options),
            final(writer).marks@ == old(writer).marks@,
    {
        match self {
            ExecutableDefinition::OperationDefinition(od) => od.print_type(options, writer),
            ExecutableDefinition::FragmentDefinition(fd) => fd.print_type(options, writer),
        }
    }
}

impl OperationDocument {
    /// Prints one declaration per definition, in document order.
    pub fn print_type(&self, options: &QueryTypePrinterOptions, writer: &mut SourceMapWriter)
        ensures
            final(writer).text@ == old(writer).text@ + operation_document_print(*self, *options),
            final(writer).marks@ == old(writer).marks@,
    {
        proof {
            assert(self.definitions@.take(0) =~= Seq::<ExecutableDefinition>::empty());
        }
        let mut i: usize = 0;
        while i < self.definitions.len()
            invariant
                i <= self.definitions@.len(),
                writer.text@ == old(writer).text@ + defs_print(
                    self.definitions@.take(i as int),
                    *options,
                ),
                writer.marks@ == old(writer).marks@,
            decreases self.definitions@.len() - i,
        {
            self.definitions[i].print_type(options, writer);
            proof {
                assert(self.definitions@.take(i + 1).drop_last() =~= self.definitions@.take(
                    i as int,
                ));
                assert(self.definitions@.take(i + 1).last() == self.definitions@[i as int]);
                assert(writer.text@ =~= old(writer).text@ + defs_print(
                    self.definitions@.take(i + 1),
                    *options,
                ));
            }
            i = i + 1;
        }
        proof {
            assert(self.definitions@.take(self.definitions@.len() as int) =~= self.definitions@);
        }
    }
}

} // verus!
