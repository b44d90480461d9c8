//! Directives attached to definitions and selections. The compiler keeps
//! them in the data model but does not translate them.

use vstd::prelude::*;
use crate::base::{Ident, Pos};
use crate::value::Value;

verus! {

pub struct Directive {
    pub position: Pos,
    pub name: Ident,
    pub arguments: Vec<(Ident, Value)>,
}

} // verus!
