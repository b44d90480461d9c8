//! The target type algebra: the intermediate representation of generated
//! type expressions, its exact printing rules, and the union/intersection
//! constructors.
//!
//! Printing rules:
//! - `TypeVariable` prints as the raw identifier, trusted valid.
//! - `StringLiteral` prints quoted, with `"` `\` and newline escaped.
//! - `List(t)` prints `(t)[]`; `Nullable(t)` prints `t | null`.
//! - `IndexType(base, key)` prints `base[key]`, a deferred property lookup.
//! - `Union`: no members prints `never`, one member collapses to that
//!   member's own form, two or more are joined by ` | `.
//! - `Intersection`: no members prints `unknown`, one collapses, two or
//!   more are joined by ` & `. No field-level merging happens here.
//! - `Object` prints one field per line between `{` and `}`; each field may
//!   carry a documentation comment, a `readonly` marker and a `?` marker.

use vstd::prelude::*;
use vstd::string::StrSliceExecFns;
use crate::writer::SourceMapWriter;

verus! {

/// A target-language type expression.
pub enum TSType {
    TypeVariable(String),
    StringLiteral(String),
    List(Box<TSType>),
    Nullable(Box<TSType>),
    IndexType(Box<TSType>, Box<TSType>),
    Union(Vec<TSType>),
    Intersection(Vec<TSType>),
    Object(Vec<ObjectField>),
}

/// One field of an `Object` type expression.
pub struct ObjectField {
    pub key: String,
    pub ty: TSType,
    pub readonly: bool,
    pub optional: bool,
    pub description: Option<String>,
}

// ------------------------------------------------------------------
// Printing, as a mathematical function from expressions to text.
// ------------------------------------------------------------------

/// How one character of a string literal prints.
pub open spec fn esc_char(c: char) -> Seq<char> {
    if c == '"' {
        "\\\""@
    } else if c == '\\' {
        "\\\\"@
    } else if c == '\n' {
        "\\n"@
    } else {
        seq![c]
    }
}

/// The escaped form of a string literal's content.
pub open spec fn escaped(s: Seq<char>) -> Seq<char>
    decreases s.len(),
{
    if s.len() == 0 {
        Seq::empty()
    } else {
        escaped(s.drop_last()) + esc_char(s.last())
    }
}

/// How one character of a documentation comment's text prints: a line
/// break starts a new ` * ` comment line.
pub open spec fn comment_char(c: char) -> Seq<char> {
    if c == '\n' {
        "\n * "@
    } else {
        seq![c]
    }
}

/// The body of a documentation comment.
pub open spec fn comment_body(s: Seq<char>) -> Seq<char>
    decreases s.len(),
{
    if s.len() == 0 {
        Seq::empty()
    } else {
        comment_body(s.drop_last()) + comment_char(s.last())
    }
}

/// A complete documentation comment for the given text.
pub open spec fn doc_comment(s: Seq<char>) -> Seq<char> {
    "/**\n * "@ + comment_body(s) + "\n */\n"@
}

/// The characters of an optional string.
pub open spec fn opt_chars(d: Option<String>) -> Option<Seq<char>> {
    match d {
        Some(s) => Some(s@),
        None => None,
    }
}

/// The documentation comment of a field, empty when it has none.
pub open spec fn field_doc(d: Option<String>) -> Seq<char> {
    match d {
        Some(s) => doc_comment(s@),
        None => Seq::empty(),
    }
}

/// The exact text an object field prints to.
pub open spec fn field_print(f: ObjectField) -> Seq<char>
    decreases f,
{
    field_doc(f.description) + (if f.readonly {
        "readonly "@
    } else {
        Seq::<char>::empty()
    }) + f.key@ + (if f.optional {
        "?"@
    } else {
        Seq::<char>::empty()
    }) + ": "@ + ts_print(f.ty) + ";\n"@
}

/// The exact text a sequence of object fields prints to.
pub open spec fn fields_print(fs: Seq<ObjectField>) -> Seq<char>
    decreases fs,
{
    if fs.len() == 0 {
        Seq::empty()
    } else {
        fields_print(fs.drop_last()) + field_print(fs.last())
    }
}

/// Member texts joined by a separator; one member collapses to its own form.
pub open spec fn joined(ts: Seq<TSType>, sep: Seq<char>) -> Seq<char>
    decreases ts,
{
    if ts.len() == 0 {
        Seq::empty()
    } else if ts.len() == 1 {
        ts_print(ts[0])
    } else {
        joined(ts.drop_last(), sep) + sep + ts_print(ts.last())
    }
}

/// The exact text a type expression prints to.
pub open spec fn ts_print(t: TSType) -> Seq<char>
    decreases t,
{
    match t {
        TSType::TypeVariable(name) => name@,
        TSType::StringLiteral(v) => "\""@ + escaped(v@) + "\""@,
        TSType::List(inner) => "("@ + ts_print(*inner) + ")[]"@,
        TSType::Nullable(inner) => ts_print(*inner) + " | null"@,
        TSType::IndexType(base, key) => ts_print(*base) + "["@ + ts_print(*key) + "]"@,
        TSType::Union(ms) => if ms@.len() == 0 {
            "never"@
        } else {
            joined(ms@, " | "@)
        },
        TSType::Intersection(ms) => if ms@.len() == 0 {
            "unknown"@
        } else {
            joined(ms@, " & "@)
        },
        TSType::Object(fs) => "{\n"@ + fields_print(fs@) + "}"@,
    }
}

// ------------------------------------------------------------------
// Content equality of type expressions.
// ------------------------------------------------------------------

/// Whether two type expressions have the same content: the same shape with
/// the same texts everywhere. This is the notion of "exact duplicate" that
/// union construction removes.
pub open spec fn ts_eq(a: TSType, b: TSType) -> bool
    decreases a,
{
    match (a, b) {
        (TSType::TypeVariable(x), TSType::TypeVariable(y)) => x@ == y@,
        (TSType::StringLiteral(x), TSType::StringLiteral(y)) => x@ == y@,
        (TSType::List(x), TSType::List(y)) => ts_eq(*x, *y),
        (TSType::Nullable(x), TSType::Nullable(y)) => ts_eq(*x, *y),
        (TSType::IndexType(xb, xk), TSType::IndexType(yb, yk)) => ts_eq(*xb, *yb) && ts_eq(
            *xk,
            *yk,
        ),
        (TSType::Union(xs), TSType::Union(ys)) => list_eq(xs@, ys@),
        (TSType::Intersection(xs), TSType::Intersection(ys)) => list_eq(xs@, ys@),
        (TSType::Object(xs), TSType::Object(ys)) => fields_eq(xs@, ys@),
        _ => false,
    }
}

pub open spec fn list_eq(xs: Seq<TSType>, ys: Seq<TSType>) -> bool
    decreases xs,
{
    if xs.len() != ys.len() {
        false
    } else if xs.len() == 0 {
        true
    } else {
        ts_eq(xs.last(), ys.last()) && list_eq(xs.drop_last(), ys.drop_last())
    }
}

pub open spec fn field_eq(x: ObjectField, y: ObjectField) -> bool
    decreases x,
{
    x.key@ == y.key@ && ts_eq(x.ty, y.ty) && x.readonly == y.readonly && x.optional == y.optional
        && opt_chars(x.description) == opt_chars(y.description)
}

pub open spec fn fields_eq(xs: Seq<ObjectField>, ys: Seq<ObjectField>) -> bool
    decreases xs,
{
    if xs.len() != ys.len() {
        false
    } else if xs.len() == 0 {
        true
    } else {
        field_eq(xs.last(), ys.last()) && fields_eq(xs.drop_last(), ys.drop_last())
    }
}

/// Content equality is reflexive.
pub proof fn lemma_ts_eq_refl(t: TSType)
    ensures
        ts_eq(t, t),
    decreases t,
{
    match t {
        TSType::List(x) => lemma_ts_eq_refl(*x),
        TSType::Nullable(x) => lemma_ts_eq_refl(*x),
        TSType::IndexType(b, k) => {
            lemma_ts_eq_refl(*b);
            lemma_ts_eq_refl(*k);
        },
        TSType::Union(xs) => lemma_list_eq_refl(xs@),
        TSType::Intersection(xs) => lemma_list_eq_refl(xs@),
        TSType::Object(xs) => lemma_fields_eq_refl(xs@),
        _ => {},
    }
}

pub proof fn lemma_list_eq_refl(xs: Seq<TSType>)
    ensures
        list_eq(xs, xs),
    decreases xs,
{
    if xs.len() > 0 {
        lemma_ts_eq_refl(xs.last());
        lemma_list_eq_refl(xs.drop_last());
    }
}

pub proof fn lemma_fields_eq_refl(xs: Seq<ObjectField>)
    ensures
        fields_eq(xs, xs),
    decreases xs,
{
    if xs.len() > 0 {
        lemma_ts_eq_refl(xs.last().ty);
        lemma_fields_eq_refl(xs.drop_last());
        assert(field_eq(xs.last(), xs.last()));
    }
}

// ------------------------------------------------------------------
// Union construction: splicing nested unions, removing duplicates.
// ------------------------------------------------------------------

/// What one member contributes to a union: a union member's own members
/// are spliced in, any other member stands alone.
pub open spec fn expand_member(t: TSType) -> Seq<TSType> {
    match t {
        TSType::Union(inner) => inner@,
        _ => seq![t],
    }
}

/// All members contributed to a union by a member list.
pub open spec fn flatten_members(ts: Seq<TSType>) -> Seq<TSType>
    decreases ts.len(),
{
    if ts.len() == 0 {
        Seq::empty()
    } else {
        flatten_members(ts.drop_last()) + expand_member(ts.last())
    }
}

/// Whether the list holds a member with the same content.
pub open spec fn contains_eq(ts: Seq<TSType>, t: TSType) -> bool {
    exists|i: int| 0 <= i < ts.len() && ts_eq(ts[i], t)
}

/// Walks `rest` left to right, keeping each member whose content was not
/// seen before; `acc` holds what was kept so far.
pub open spec fn dedup_members(acc: Seq<TSType>, rest: Seq<TSType>) -> Seq<TSType>
    decreases rest.len(),
{
    if rest.len() == 0 {
        acc
    } else {
        dedup_members(
            if contains_eq(acc, rest[0]) {
                acc
            } else {
                acc.push(rest[0])
            },
            rest.drop_first(),
        )
    }
}

/// The member list of the union built from `ts`: spliced and deduplicated,
/// first-seen order preserved.
pub open spec fn union_members(ts: Seq<TSType>) -> Seq<TSType> {
    dedup_members(Seq::empty(), flatten_members(ts))
}

/// Whether the list holds a member whose content equals `t`'s.
fn contains_ts(ts: &Vec<TSType>, t: &TSType) -> (r: bool)
    ensures
        r == contains_eq(ts@, *t),
{
    let mut i: usize = 0;
    while i < ts.len()
        invariant
            i <= ts@.len(),
            forall|j: int| 0 <= j < i ==> !ts_eq(ts@[j], *t),
        decreases ts@.len() - i,
    {
        if ts[i].eq_ts(t) {
            return true;
        }
        i = i + 1;
    }
    false
}

/// Builds the union of the given types: nested unions are spliced in,
/// duplicate contents are removed, first-seen order is preserved.
pub fn ts_union(members: Vec<TSType>) -> (r: TSType)
    ensures
        (r matches TSType::Union(ms) && ms@ == union_members(members@)),
{
    let ghost orig = members@;
    let mut members = members;
    let mut flat: Vec<TSType> = Vec::new();
    let ghost mut seen: int = 0;
    while members.len() > 0
        invariant
            0 <= seen <= orig.len(),
            members@ =~= orig.skip(seen),
            flat@ == flatten_members(orig.take(seen)),
        decreases members@.len(),
    {
        let m = members.remove(0);
        let ghost morig = m;
        proof {
            assert(orig.skip(seen)[0] == orig[seen]);
            assert(morig == orig[seen]);
            assert(orig.take(seen + 1).drop_last() =~= orig.take(seen));
            assert(orig.take(seen + 1).last() == orig[seen]);
            assert(members@ =~= orig.skip(seen + 1));
        }
        match m {
            TSType::Union(mut inner) => {
                let ghost inner0 = inner@;
                let ghost flat0 = flat@;
                let ghost mut done: int = 0;
                proof {
                    assert(expand_member(morig) == inner0);
                    assert(inner0.take(0) =~= Seq::<TSType>::empty());
                    assert(inner0.skip(0) =~= inner0);
                    assert(flat@ =~= flat0 + inner0.take(0));
                }
                while inner.len() > 0
                    invariant
                        0 <= done <= inner0.len(),
                        inner@ =~= inner0.skip(done),
                        flat@ == flat0 + inner0.take(done),
                    decreases inner@.len(),
                {
                    let x = inner.remove(0);
                    proof {
                        assert(done < inner0.len());
                        assert(x == inner0.skip(done)[0]);
                        assert(x == inner0[done]);
                        assert(inner@ =~= inner0.skip(done + 1));
                        assert(inner0.take(done + 1) =~= inner0.take(done).push(inner0[done]));
                        assert(flat0 + inner0.take(done + 1) =~= (flat0 + inner0.take(done)).push(
                            inner0[done],
                        ));
                    }
                    flat.push(x);
                    proof {
                        done = done + 1;
                    }
                }
                proof {
                    assert(inner0.take(inner0.len() as int) =~= inner0);
                    assert(flat@ =~= flatten_members(orig.take(seen)) + expand_member(
                        orig.take(seen + 1).last(),
                    ));
                }
            },
            other => {
                let ghost otherg = other;
                proof {
                    assert(expand_member(otherg) =~= seq![otherg]);
                    assert(flat@.push(otherg) =~= flatten_members(orig.take(seen)) + expand_member(
                        orig.take(seen + 1).last(),
                    ));
                }
                flat.push(other);
            },
        }
        proof {
            seen = seen + 1;
        }
    }
    proof {
        assert(seen == orig.len());
        assert(orig.take(orig.len() as int) =~= orig);
    }
    let ghost whole = flat@;
    let mut kept: Vec<TSType> = Vec::new();
    while flat.len() > 0
        invariant
            dedup_members(kept@, flat@) == dedup_members(Seq::empty(), whole),
        decreases flat@.len(),
    {
        let ghost kept0 = kept@;
        let ghost flat0 = flat@;
        let t = flat.remove(0);
        let dup = contains_ts(&kept, &t);
        if !dup {
            kept.push(t);
        }
        proof {
            assert(flat@ =~= flat0.drop_first());
            assert(t == flat0[0]);
            if dup {
                assert(kept@ == kept0);
            } else {
                assert(kept@ =~= kept0.push(flat0[0]));
            }
            assert(dedup_members(kept0, flat0) == dedup_members(kept@, flat@));
        }
    }
    proof {
        assert(dedup_members(kept@, flat@) == kept@);
    }
    TSType::Union(kept)
}

/// Builds the intersection of the given types, in order, without any
/// field-level merge.
pub fn ts_intersection(members: Vec<TSType>) -> (r: TSType)
    ensures
        r == TSType::Intersection(members),
{
    TSType::Intersection(members)
}

// ------------------------------------------------------------------
// Executable printing and equality.
// ------------------------------------------------------------------

/// Appends the escaped form of `s` to the output.
pub fn write_escaped(s: &str, writer: &mut SourceMapWriter)
    ensures
        final(writer).text@ == old(writer).text@ + escaped(s@),
        final(writer).marks@ == old(writer).marks@,
{
    let len = s.unicode_len();
    proof {
        assert(s@.take(0) =~= Seq::<char>::empty());
        assert(writer.text@ =~= old(writer).text@ + escaped(s@.take(0)));
    }
    let mut i: usize = 0;
    while i < len
        invariant
            i <= len,
            len == s@.len(),
            writer.text@ == old(writer).text@ + escaped(s@.take(i as int)),
            writer.marks@ == old(writer).marks@,
        decreases len - i,
    {
        let c = s.get_char(i);
        if c == '"' {
            writer.write("\\\"");
        } else if c == '\\' {
            writer.write("\\\\");
        } else if c == '\n' {
            writer.write("\\n");
        } else {
            let piece = s.substring_char(i, i + 1);
            proof {
                assert(piece@ =~= seq![s@[i as int]]);
            }
            writer.write(piece);
        }
        proof {
            assert(s@.take(i + 1).drop_last() =~= s@.take(i as int));
            assert(s@.take(i + 1).last() == s@[i as int]);
            assert(writer.text@ =~= old(writer).text@ + escaped(s@.take(i + 1)));
        }
        i = i + 1;
    }
    proof {
        assert(s@.take(len as int) =~= s@);
    }
}

/// Appends a documentation comment holding `text` to the output.
pub fn write_doc_comment(text: &str, writer: &mut SourceMapWriter)
    ensures
        final(writer).text@ == old(writer).text@ + doc_comment(text@),
        final(writer).marks@ == old(writer).marks@,
{
    writer.write("/**\n * ");
    let len = text.unicode_len();
    proof {
        assert(text@.take(0) =~= Seq::<char>::empty());
        assert(writer.text@ =~= old(writer).text@ + "/**\n * "@ + comment_body(text@.take(0)));
    }
    let mut i: usize = 0;
    while i < len
        invariant
            i <= len,
            len == text@.len(),
            writer.text@ == old(writer).text@ + "/**\n * "@ + comment_body(text@.take(i as int)),
            writer.marks@ == old(writer).marks@,
        decreases len - i,
    {
        let c = text.get_char(i);
        if c == '\n' {
            writer.write("\n * ");
        } else {
            let piece = text.substring_char(i, i + 1);
            proof {
                assert(piece@ =~= seq![text@[i as int]]);
            }
            writer.write(piece);
        }
        proof {
            assert(text@.take(i + 1).drop_last() =~= text@.take(i as int));
            assert(text@.take(i + 1).last() == text@[i as int]);
            assert(writer.text@ =~= old(writer).text@ + "/**\n * "@ + comment_body(
                text@.take(i + 1),
            ));
        }
        i = i + 1;
    }
    writer.write("\n */\n");
    proof {
        assert(text@.take(len as int) =~= text@);
        assert(writer.text@ =~= old(writer).text@ + doc_comment(text@));
    }
}

impl ObjectField {
    /// Prints this field, documentation comment and markers included.
    pub fn print_field(&self, writer: &mut SourceMapWriter)
        ensures
            final(writer).text@ == old(writer).text@ + field_print(*self),
            final(writer).marks@ == old(writer).marks@,
        decreases *self,
    {
        match &self.description {
            Some(d) => write_doc_comment(d.as_str(), writer),
            None => {},
        }
        if self.readonly {
            writer.write("readonly ");
        }
        writer.write(self.key.as_str());
        if self.optional {
            writer.write("?");
        }
        writer.write(": ");
        self.ty.print_type(writer);
        writer.write(";\n");
        proof {
            assert(writer.text@ =~= old(writer).text@ + field_print(*self));
        }
    }
}

impl TSType {
    /// Prints this type expression to the output, exactly as `ts_print`
    /// describes.
    pub fn print_type(&self, writer: &mut SourceMapWriter)
        ensures
            final(writer).text@ == old(writer).text@ + ts_print(*self),
            final(writer).marks@ == old(writer).marks@,
        decreases *self,
    {
        match self {
            TSType::TypeVariable(name) => {
                writer.write(name.as_str());
            },
            TSType::StringLiteral(v) => {
                writer.write("\"");
                write_escaped(v.as_str(), writer);
                writer.write("\"");
                proof {
                    assert(writer.text@ =~= old(writer).text@ + ts_print(*self));
                }
            },
            TSType::List(inner) => {
                writer.write("(");
                inner.print_type(writer);
                writer.write(")[]");
                proof {
                    assert(writer.text@ =~= old(writer).text@ + ts_print(*self));
                }
            },
            TSType::Nullable(inner) => {
                inner.print_type(writer);
                writer.write(" | null");
                proof {
                    assert(writer.text@ =~= old(writer).text@ + ts_print(*self));
                }
            },
            TSType::IndexType(base, key) => {
                base.print_type(writer);
                writer.write("[");
                key.print_type(writer);
                writer.write("]");
                proof {
                    assert(writer.text@ =~= old(writer).text@ + ts_print(*self));
                }
            },
            TSType::Union(ms) => {
                if ms.len() == 0 {
                    writer.write("never");
                } else {
                    print_members(ms, " | ", writer);
                }
            },
            TSType::Intersection(ms) => {
                if ms.len() == 0 {
                    writer.write("unknown");
                } else {
                    print_members(ms, " & ", writer);
                }
            },
            TSType::Object(fs) => {
                writer.write("{\n");
                print_fields(fs, writer);
                writer.write("}");
                proof {
                    assert(writer.text@ =~= old(writer).text@ + ts_print(*self));
                }
            },
        }
    }

    /// Whether this expression has the same content as `other`.
    pub fn eq_ts(&self, other: &TSType) -> (r: bool)
        ensures
            r == ts_eq(*self, *other),
        decreases *self,
    {
        match (self, other) {
            (TSType::TypeVariable(x), TSType::TypeVariable(y)) => x.eq(y),
            (TSType::StringLiteral(x), TSType::StringLiteral(y)) => x.eq(y),
            (TSType::List(x), TSType::List(y)) => x.eq_ts(y),
            (TSType::Nullable(x), TSType::Nullable(y)) => x.eq_ts(y),
            (TSType::IndexType(xb, xk), TSType::IndexType(yb, yk)) => xb.eq_ts(yb) && xk.eq_ts(
                yk,
            ),
            (TSType::Union(xs), TSType::Union(ys)) => eq_ts_list(xs, ys),
            (TSType::Intersection(xs), TSType::Intersection(ys)) => eq_ts_list(xs, ys),
            (TSType::Object(xs), TSType::Object(ys)) => eq_ts_fields(xs, ys),
            _ => false,
        }
    }
}

fn eq_ts_list(xs: &Vec<TSType>, ys: &Vec<TSType>) -> (r: bool)
    ensures
        r == list_eq(xs@, ys@),
    decreases xs@,
{
    if xs.len() != ys.len() {
        return false;
    }
    let mut i: usize = 0;
    while i < xs.len()
        invariant
            i <= xs@.len(),
            xs@.len() == ys@.len(),
            forall|j: int| 0 <= j < i ==> ts_eq(xs@[j], ys@[j]),
        decreases xs@.len() - i,
    {
        if !xs[i].eq_ts(&ys[i]) {
            proof {
                lemma_list_eq_pointwise(xs@, ys@);
            }
            return false;
        }
        i = i + 1;
    }
    proof {
        lemma_list_eq_pointwise(xs@, ys@);
    }
    true
}

fn eq_ts_fields(xs: &Vec<ObjectField>, ys: &Vec<ObjectField>) -> (r: bool)
    ensures
        r == fields_eq(xs@, ys@),
    decreases xs@,
{
    if xs.len() != ys.len() {
        return false;
    }
    let mut i: usize = 0;
    while i < xs.len()
        invariant
            i <= xs@.len(),
            xs@.len() == ys@.len(),
            forall|j: int| 0 <= j < i ==> field_eq(xs@[j], ys@[j]),
        decreases xs@.len() - i,
    {
        let fx = &xs[i];
        let fy = &ys[i];
        let keys = fx.key.eq(&fy.key);
        let tys = fx.ty.eq_ts(&fy.ty);
        let descs = match (&fx.description, &fy.description) {
            (Some(dx), Some(dy)) => dx.eq(dy),
            (None, None) => true,
            _ => false,
        };
        if !(keys && tys && fx.readonly == fy.readonly && fx.optional == fy.optional && descs) {
            proof {
                lemma_fields_eq_pointwise(xs@, ys@);
            }
            return false;
        }
        i = i + 1;
    }
    proof {
        lemma_fields_eq_pointwise(xs@, ys@);
    }
    true
}

/// `list_eq` is the same as pointwise content equality.
proof fn lemma_list_eq_pointwise(xs: Seq<TSType>, ys: Seq<TSType>)
    requires
        xs.len() == ys.len(),
    ensures
        list_eq(xs, ys) == (forall|j: int| 0 <= j < xs.len() ==> ts_eq(xs[j], ys[j])),
    decreases xs,
{
    if xs.len() > 0 {
        lemma_list_eq_pointwise(xs.drop_last(), ys.drop_last());
        assert(forall|j: int|
            0 <= j < xs.len() - 1 ==> xs.drop_last()[j] == xs[j] && ys.drop_last()[j] == ys[j]);
    }
}

/// `fields_eq` is the same as pointwise field equality.
proof fn lemma_fields_eq_pointwise(xs: Seq<ObjectField>, ys: Seq<ObjectField>)
    requires
        xs.len() == ys.len(),
    ensures
        fields_eq(xs, ys) == (forall|j: int| 0 <= j < xs.len() ==> field_eq(xs[j], ys[j])),
    decreases xs,
{
    if xs.len() > 0 {
        lemma_fields_eq_pointwise(xs.drop_last(), ys.drop_last());
        assert(forall|j: int|
            0 <= j < xs.len() - 1 ==> xs.drop_last()[j] == xs[j] && ys.drop_last()[j] == ys[j]);
    }
}

/// Prints a sequence of object fields.
fn print_fields(fs: &Vec<ObjectField>, writer: &mut SourceMapWriter)
    ensures
        final(writer).text@ == old(writer).text@ + fields_print(fs@),
        final(writer).marks@ == old(writer).marks@,
    decreases *fs,
{
    proof {
        assert(fs@.take(0) =~= Seq::<ObjectField>::empty());
        assert(writer.text@ =~= old(writer).text@ + fields_print(fs@.take(0)));
    }
    let mut i: usize = 0;
    while i < fs.len()
        invariant
            i <= fs@.len(),
            writer.text@ == old(writer).text@ + fields_print(fs@.take(i as int)),
            writer.marks@ == old(writer).marks@,
        decreases fs@.len() - i,
    {
        fs[i].print_field(writer);
        proof {
            assert(fs@.take(i + 1).drop_last() =~= fs@.take(i as int));
            assert(fs@.take(i + 1).last() == fs@[i as int]);
            assert(writer.text@ =~= old(writer).text@ + fields_print(fs@.take(i + 1)));
        }
        i = i + 1;
    }
    proof {
        assert(fs@.take(fs@.len() as int) =~= fs@);
    }
}

/// Prints at least one member, joined by the separator.
fn print_members(ms: &Vec<TSType>, sep: &str, writer: &mut SourceMapWriter)
    requires
        ms@.len() > 0,
    ensures
        final(writer).text@ == old(writer).text@ + joined(ms@, sep@),
        final(writer).marks@ == old(writer).marks@,
    decreases *ms,
{
    proof {
        assert(ms@.take(0) =~= Seq::<TSType>::empty());
        assert(writer.text@ =~= old(writer).text@ + joined(ms@.take(0), sep@));
    }
    let mut i: usize = 0;
    while i < ms.len()
        invariant
            i <= ms@.len(),
            ms@.len() > 0,
            writer.text@ == old(writer).text@ + joined(ms@.take(i as int), sep@),
            writer.marks@ == old(writer).marks@,
        decreases ms@.len() - i,
    {
        if i > 0 {
            writer.write(sep);
        }
        ms[i].print_type(writer);
        proof {
            assert(ms@.take(i + 1).drop_last() =~= ms@.take(i as int));
            assert(ms@.take(i + 1).last() == ms@[i as int]);
            if i == 0 {
                assert(joined(ms@.take(1), sep@) == ts_print(ms@[0]));
            }
            assert(writer.text@ =~= old(writer).text@ + joined(ms@.take(i + 1), sep@));
        }
        i = i + 1;
    }
    proof {
        assert(ms@.take(ms@.len() as int) =~= ms@);
    }
}


// ------------------------------------------------------------------
// Deep copy.
// ------------------------------------------------------------------

/// A copy of an optional string.
fn clone_opt_string(o: &Option<String>) -> (r: Option<String>)
    ensures
        r == *o,
{
    match o {
        Some(d) => Some(d.clone()),
        None => None,
    }
}

/// A deep copy of a member list; same contents, same printed text.
fn clone_ts_list(ms: &Vec<TSType>) -> (r: Vec<TSType>)
    ensures
        r@.len() == ms@.len(),
        list_eq(r@, ms@),
        joined(r@, " | "@) == joined(ms@, " | "@),
        joined(r@, " & "@) == joined(ms@, " & "@),
    decreases *ms,
{
    let mut out: Vec<TSType> = Vec::new();
    proof {
        assert(ms@.take(0) =~= Seq::<TSType>::empty());
    }
    let mut i: usize = 0;
    while i < ms.len()
        invariant
            i <= ms@.len(),
            out@.len() == i,
            list_eq(out@, ms@.take(i as int)),
            joined(out@, " | "@) == joined(ms@.take(i as int), " | "@),
            joined(out@, " & "@) == joined(ms@.take(i as int), " & "@),
        decreases ms@.len() - i,
    {
        let ghost out0 = out@;
        let c = ms[i].clone_ts();
        out.push(c);
        proof {
            assert(out@.drop_last() =~= out0);
            assert(out@.last() == c);
            assert(ms@.take(i + 1).drop_last() =~= ms@.take(i as int));
            assert(ms@.take(i + 1).last() == ms@[i as int]);
            assert(list_eq(out@, ms@.take(i + 1)));
            assert(joined(out@, " | "@) == joined(ms@.take(i + 1), " | "@));
            assert(joined(out@, " & "@) == joined(ms@.take(i + 1), " & "@));
        }
        i = i + 1;
    }
    proof {
        assert(ms@.take(ms@.len() as int) =~= ms@);
    }
    out
}

/// A deep copy of an object field list; same contents, same printed text.
fn clone_fields_list(fs: &Vec<ObjectField>) -> (r: Vec<ObjectField>)
    ensures
        r@.len() == fs@.len(),
        fields_eq(r@, fs@),
        fields_print(r@) == fields_print(fs@),
    decreases *fs,
{
    let mut out: Vec<ObjectField> = Vec::new();
    proof {
        assert(fs@.take(0) =~= Seq::<ObjectField>::empty());
    }
    let mut i: usize = 0;
    while i < fs.len()
        invariant
            i <= fs@.len(),
            out@.len() == i,
            fields_eq(out@, fs@.take(i as int)),
            fields_print(out@) == fields_print(fs@.take(i as int)),
        decreases fs@.len() - i,
    {
        let ghost out0 = out@;
        let f = &fs[i];
        let nf = ObjectField {
            key: f.key.clone(),
            ty: f.ty.clone_ts(),
            readonly: f.readonly,
            optional: f.optional,
            description: clone_opt_string(&f.description),
        };
        proof {
            assert(field_eq(nf, fs@[i as int]));
            assert(field_print(nf) == field_print(fs@[i as int]));
        }
        out.push(nf);
        proof {
            assert(out@.drop_last() =~= out0);
            assert(out@.last() == nf);
            assert(fs@.take(i + 1).drop_last() =~= fs@.take(i as int));
            assert(fs@.take(i + 1).last() == fs@[i as int]);
            assert(fields_eq(out@, fs@.take(i + 1)));
            assert(fields_print(out@) == fields_print(fs@.take(i + 1)));
        }
        i = i + 1;
    }
    proof {
        assert(fs@.take(fs@.len() as int) =~= fs@);
    }
    out
}

impl TSType {
    /// A deep copy: same content, printing to the same text.
    pub fn clone_ts(&self) -> (r: TSType)
        ensures
            ts_eq(r, *self),
            ts_print(r) == ts_print(*self),
        decreases *self,
    {
        match self {
            TSType::TypeVariable(s) => TSType::TypeVariable(s.clone()),
            TSType::StringLiteral(s) => TSType::StringLiteral(s.clone()),
            TSType::List(inner) => {
                let c = inner.clone_ts();
                TSType::List(Box::new(c))
            },
            TSType::Nullable(inner) => {
                let c = inner.clone_ts();
                TSType::Nullable(Box::new(c))
            },
            TSType::IndexType(base, key) => {
                let b = base.clone_ts();
                let k = key.clone_ts();
                TSType::IndexType(Box::new(b), Box::new(k))
            },
            TSType::Union(ms) => TSType::Union(clone_ts_list(ms)),
            TSType::Intersection(ms) => TSType::Intersection(clone_ts_list(ms)),
            TSType::Object(fs) => TSType::Object(clone_fields_list(fs)),
        }
    }
}


// ------------------------------------------------------------------
// Mapping type references onto the algebra.
// ------------------------------------------------------------------

/// The printed form of the type that a (possibly wrapped) type reference
/// maps to: a named type becomes a nullable type variable, a list becomes a
/// nullable array, and a non-null wrapper strips the nullability.
pub open spec fn ts_type_of_print(t: crate::types::Type) -> Seq<char>
    decreases t, 1int,
{
    match t {
        crate::types::Type::NonNull(inner) => nonnull_print(*inner),
        _ => nonnull_print(t) + " | null"@,
    }
}

/// The printed form of a type reference with nullability stripped.
pub open spec fn nonnull_print(t: crate::types::Type) -> Seq<char>
    decreases t, 0int,
{
    match t {
        crate::types::Type::Named(n) => n.name@,
        crate::types::Type::List(inner) => "("@ + ts_type_of_print(*inner) + ")[]"@,
        crate::types::Type::NonNull(inner) => nonnull_print(*inner),
    }
}

/// Maps a type reference to its target type expression: named types become
/// type variables, lists become arrays, and every level is nullable unless
/// wrapped in a non-null marker.
pub fn get_ts_type_of_type(ty: &crate::types::Type) -> (r: TSType)
    ensures
        ts_print(r) == ts_type_of_print(*ty),
        !(*ty matches crate::types::Type::NonNull(_)) ==> (r matches TSType::Nullable(b)
            && ts_print(*b) == nonnull_print(*ty) && !(*b matches TSType::Nullable(_))),
        (*ty matches crate::types::Type::NonNull(_)) ==> !(r matches TSType::Nullable(_)),
    decreases *ty,
{
    match ty {
        crate::types::Type::Named(n) => {
            let v = TSType::TypeVariable(n.name.clone());
            let r = TSType::Nullable(Box::new(v));
            proof {
                assert(nonnull_print(*ty) == n.name@);
                assert(ts_type_of_print(*ty) == nonnull_print(*ty) + " | null"@);
                assert(ts_print(r) == ts_print(v) + " | null"@);
            }
            r
        },
        crate::types::Type::List(inner) => {
            let it = get_ts_type_of_type(inner);
            let lst = TSType::List(Box::new(it));
            let r = TSType::Nullable(Box::new(lst));
            proof {
                assert(ts_print(lst) == "("@ + ts_type_of_print(**inner) + ")[]"@);
                assert(nonnull_print(*ty) == "("@ + ts_type_of_print(**inner) + ")[]"@);
                assert(ts_type_of_print(*ty) == nonnull_print(*ty) + " | null"@);
            }
            r
        },
        crate::types::Type::NonNull(inner) => {
            proof {
                assert(ts_type_of_print(*ty) == nonnull_print(**inner));
            }
            let t = get_ts_type_of_type(inner);
            match t {
                TSType::Nullable(b) => {
                    proof {
                        assert(ts_print(t) == ts_print(*b) + " | null"@);
                        assert(!(**inner matches crate::types::Type::NonNull(_)));
                        assert(ts_print(*b) == nonnull_print(**inner));
                    }
                    *b
                },
                other => {
                    let ghost og = other;
                    proof {
                        assert(**inner matches crate::types::Type::NonNull(_));
                        assert(ts_print(og) == ts_type_of_print(**inner));
                        assert(ts_type_of_print(**inner) == nonnull_print(**inner));
                    }
                    other
                },
            }
        },
    }
}

} // verus!
