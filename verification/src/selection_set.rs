//! Selection sets: what an operation asks for at one level of a response.

use vstd::prelude::*;
use crate::base::{Ident, Pos};

verus! {

/// An ordered sequence of selections. May be empty, which means "select
/// the entire current value".
pub struct SelectionSet {
    pub position: Pos,
    pub selections: Vec<Selection>,
}

pub enum Selection {
    Field(Field),
    FragmentSpread(FragmentSpread),
    InlineFragment(InlineFragment),
}

/// A field selection; `alias`, when present, names the response property.
pub struct Field {
    pub position: Pos,
    pub alias: Option<Ident>,
    pub name: Ident,
    pub selection_set: SelectionSet,
}

/// A reference to a separately defined fragment.
pub struct FragmentSpread {
    pub position: Pos,
    pub fragment_name: Ident,
}

/// An inline fragment, optionally scoped to a type condition.
pub struct InlineFragment {
    pub position: Pos,
    pub type_condition: Option<Ident>,
    pub selection_set: SelectionSet,
}

} // verus!
