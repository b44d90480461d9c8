//! Input values as they appear in documents: literals, lists, objects and
//! variable references. The compiler carries them through unchanged.

use vstd::prelude::*;
use crate::base::{Ident, Pos, StringValue, Variable};

verus! {

pub struct IntValue {
    pub position: Pos,
    pub value: String,
}

pub struct FloatValue {
    pub position: Pos,
    pub value: String,
}

pub struct BooleanValue {
    pub position: Pos,
    pub keyword: String,
}

pub struct NullValue {
    pub position: Pos,
    pub keyword: String,
}

pub struct EnumValue {
    pub position: Pos,
    pub value: String,
}

pub struct ListValue {
    pub position: Pos,
    pub values: Vec<Value>,
}

pub struct ObjectValue {
    pub position: Pos,
    pub fields: Vec<(Ident, Value)>,
}

/// A value written in a document. Numbers keep their source spelling.
pub enum Value {
    Variable(Variable),
    IntValue(IntValue),
    FloatValue(FloatValue),
    StringValue(StringValue),
    BooleanValue(BooleanValue),
    NullValue(NullValue),
    EnumValue(EnumValue),
    ListValue(ListValue),
    ObjectValue(ObjectValue),
}

} // verus!
