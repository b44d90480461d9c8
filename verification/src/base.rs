//! Basic building blocks shared by every document: source positions,
//! identifiers, and string values.

use vstd::prelude::*;
use vstd::string::StrSliceExecFns;

verus! {

/// A position in an input document: line and column, with `builtin` set on
/// nodes the generator invents itself (no corresponding input text).
#[derive(Clone, Copy, PartialEq, Eq, Structural, Debug)]
pub struct Pos {
    pub line: usize,
    pub column: usize,
    pub builtin: bool,
}

impl Pos {
    /// The position used for nodes the generator makes up itself.
    pub fn builtin() -> (r: Pos)
        ensures
            r == (Pos { line: 0, column: 0, builtin: true }),
    {
        Pos { line: 0, column: 0, builtin: true }
    }
}

/// An identifier together with its source position.
#[derive(Clone, Debug)]
pub struct Ident {
    pub name: String,
    pub position: Pos,
}

/// A `$name` variable reference.
#[derive(Clone, Debug)]
pub struct Variable {
    pub name: String,
    pub position: Pos,
}

/// A string value; `value` holds the decoded text.
#[derive(Clone, Debug)]
pub struct StringValue {
    pub position: Pos,
    pub value: String,
}

/// Whether two string slices hold the same characters.
pub fn str_eq(a: &str, b: &str) -> (r: bool)
    ensures
        r == (a@ == b@),
{
    let alen = a.unicode_len();
    let blen = b.unicode_len();
    if alen != blen {
        return false;
    }
    let mut i: usize = 0;
    while i < alen
        invariant
            i <= alen,
            alen == a@.len(),
            alen == b@.len(),
            forall|j: int| 0 <= j < i ==> a@[j] == b@[j],
        decreases alen - i,
    {
        if a.get_char(i) != b.get_char(i) {
            return false;
        }
        i = i + 1;
    }
    proof {
        assert(a@ =~= b@);
    }
    true
}

} // verus!
