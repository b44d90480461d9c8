//! Builds `Value` syntax nodes from plain parse-tree nodes.
//!
//! The textual parser is an external collaborator: it hands this module a
//! tree of plain nodes, one per grammar rule, and the builder turns each
//! into the corresponding `Value`. Typing the input rules out the
//! "unexpected rule" case entirely: every node a caller can construct has
//! exactly one translation.

use vstd::prelude::*;
use crate::base::{Ident, Pos, StringValue, Variable};
use crate::value::{
    BooleanValue, EnumValue, FloatValue, IntValue, ListValue, NullValue, ObjectValue, Value,
};

verus! {

/// One node of the parse tree for a value, as the parsing collaborator
/// hands it over: the matched rule, the matched text, and the children.
pub enum ValueNode {
    Variable { position: Pos, name: String },
    IntValue { position: Pos, text: String },
    FloatValue { position: Pos, text: String },
    StringValue { position: Pos, text: String },
    BooleanValue { position: Pos, text: String },
    NullValue { position: Pos, text: String },
    EnumValue { position: Pos, text: String },
    ListValue { position: Pos, items: Vec<ValueNode> },
    ObjectValue { position: Pos, fields: Vec<(Ident, ValueNode)> },
}

/// Whether `v` is exactly the value built from node `n`: same kind, same
/// position, same texts, recursively through lists and objects.
pub open spec fn value_matches_node(v: Value, n: ValueNode) -> bool
    decreases n,
{
    match n {
        ValueNode::Variable { position, name } => v matches Value::Variable(x) && x.name@ == name@
            && x.position == position,
        ValueNode::IntValue { position, text } => v matches Value::IntValue(x) && x.value@ == text@
            && x.position == position,
        ValueNode::FloatValue { position, text } => v matches Value::FloatValue(x) && x.value@
            == text@ && x.position == position,
        ValueNode::StringValue { position, text } => v matches Value::StringValue(x) && x.value@
            == text@ && x.position == position,
        ValueNode::BooleanValue { position, text } => v matches Value::BooleanValue(x)
            && x.keyword@ == text@ && x.position == position,
        ValueNode::NullValue { position, text } => v matches Value::NullValue(x) && x.keyword@
            == text@ && x.position == position,
        ValueNode::EnumValue { position, text } => v matches Value::EnumValue(x) && x.value@
            == text@ && x.position == position,
        ValueNode::ListValue { position, items } => v matches Value::ListValue(x) && x.position
            == position && x.values@.len() == items@.len() && (forall|i: int|
            0 <= i < items@.len() ==> value_matches_node(x.values@[i], #[trigger] items@[i])),
        ValueNode::ObjectValue { position, fields } => v matches Value::ObjectValue(x)
            && x.position == position && x.fields@.len() == fields@.len() && (forall|i: int|
            0 <= i < fields@.len() ==> (x.fields@[i].0.name@ == (#[trigger] fields@[i]).0.name@
                && x.fields@[i].0.position == fields@[i].0.position && value_matches_node(
                x.fields@[i].1,
                fields@[i].1,
            ))),
    }
}

/// Builds the `Value` for a parse-tree node.
pub fn build_value(node: &ValueNode) -> (r: Value)
    ensures
        value_matches_node(r, *node),
    decreases *node,
{
    match node {
        ValueNode::Variable { position, name } => Value::Variable(
            Variable { name: name.clone(), position: *position },
        ),
        ValueNode::IntValue { position, text } => Value::IntValue(
            IntValue { position: *position, value: text.clone() },
        ),
        ValueNode::FloatValue { position, text } => Value::FloatValue(
            FloatValue { position: *position, value: text.clone() },
        ),
        ValueNode::StringValue { position, text } => Value::StringValue(
            StringValue { position: *position, value: text.clone() },
        ),
        ValueNode::BooleanValue { position, text } => Value::BooleanValue(
            BooleanValue { position: *position, keyword: text.clone() },
        ),
        ValueNode::NullValue { position, text } => Value::NullValue(
            NullValue { position: *position, keyword: text.clone() },
        ),
        ValueNode::EnumValue { position, text } => Value::EnumValue(
            EnumValue { position: *position, value: text.clone() },
        ),
        ValueNode::ListValue { position, items } => Value::ListValue(
            ListValue { position: *position, values: build_values(items) },
        ),
        ValueNode::ObjectValue { position, fields } => Value::ObjectValue(
            ObjectValue { position: *position, fields: build_object_fields(fields) },
        ),
    }
}

/// Builds the values of a list node, element by element.
fn build_values(items: &Vec<ValueNode>) -> (r: Vec<Value>)
    ensures
        r@.len() == items@.len(),
        forall|j: int| 0 <= j < items@.len() ==> value_matches_node(r@[j], #[trigger] items@[j]),
    decreases *items,
{
    let mut values: Vec<Value> = Vec::new();
    let mut i: usize = 0;
    while i < items.len()
        invariant
            i <= items@.len(),
            values@.len() == i,
            forall|j: int| 0 <= j < i ==> value_matches_node(values@[j], #[trigger] items@[j]),
        decreases items@.len() - i,
    {
        let v = build_value(&items[i]);
        values.push(v);
        i = i + 1;
    }
    values
}

/// Builds the fields of an object node, pair by pair.
fn build_object_fields(fields: &Vec<(Ident, ValueNode)>) -> (r: Vec<(Ident, Value)>)
    ensures
        r@.len() == fields@.len(),
        forall|j: int|
            0 <= j < fields@.len() ==> (r@[j].0.name@ == (#[trigger] fields@[j]).0.name@
                && r@[j].0.position == fields@[j].0.position && value_matches_node(
                r@[j].1,
                fields@[j].1,
            )),
    decreases *fields,
{
    let mut built: Vec<(Ident, Value)> = Vec::new();
    let mut i: usize = 0;
    while i < fields.len()
        invariant
            i <= fields@.len(),
            built@.len() == i,
            forall|j: int|
                0 <= j < i ==> (built@[j].0.name@ == (#[trigger] fields@[j]).0.name@
                    && built@[j].0.position == fields@[j].0.position && value_matches_node(
                    built@[j].1,
                    fields@[j].1,
                )),
        decreases fields@.len() - i,
    {
        let pair = &fields[i];
        let key = Ident { name: pair.0.name.clone(), position: pair.0.position };
        let v = build_value(&pair.1);
        built.push((key, v));
        i = i + 1;
    }
    built
}

} // verus!
