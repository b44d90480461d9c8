use nitrogql::base::{Ident, Pos};
use nitrogql::value::Value;
use nitrogql::value_builder::{build_value, ValueNode};

fn pos() -> Pos {
    Pos { line: 2, column: 5, builtin: false }
}

#[test]
fn scalar_nodes_become_matching_values() {
    match build_value(&ValueNode::IntValue { position: pos(), text: "42".to_string() }) {
        Value::IntValue(v) => {
            assert_eq!(v.value, "42");
            assert_eq!(v.position.line, 2);
        }
        _ => panic!("expected an int value"),
    }
    match build_value(&ValueNode::BooleanValue { position: pos(), text: "true".to_string() }) {
        Value::BooleanValue(v) => assert_eq!(v.keyword, "true"),
        _ => panic!("expected a boolean value"),
    }
    match build_value(&ValueNode::NullValue { position: pos(), text: "null".to_string() }) {
        Value::NullValue(v) => assert_eq!(v.keyword, "null"),
        _ => panic!("expected a null value"),
    }
}

#[test]
fn list_nodes_build_recursively_in_order() {
    let node = ValueNode::ListValue {
        position: pos(),
        items: vec![
            ValueNode::EnumValue { position: pos(), text: "RED".to_string() },
            ValueNode::StringValue { position: pos(), text: "hi".to_string() },
        ],
    };
    match build_value(&node) {
        Value::ListValue(l) => {
            assert_eq!(l.values.len(), 2);
            match &l.values[0] {
                Value::EnumValue(e) => assert_eq!(e.value, "RED"),
                _ => panic!("expected an enum value first"),
            }
            match &l.values[1] {
                Value::StringValue(s) => assert_eq!(s.value, "hi"),
                _ => panic!("expected a string value second"),
            }
        }
        _ => panic!("expected a list value"),
    }
}

#[test]
fn object_nodes_keep_field_names() {
    let node = ValueNode::ObjectValue {
        position: pos(),
        fields: vec![(
            Ident { name: "limit".to_string(), position: pos() },
            ValueNode::IntValue { position: pos(), text: "10".to_string() },
        )],
    };
    match build_value(&node) {
        Value::ObjectValue(o) => {
            assert_eq!(o.fields.len(), 1);
            assert_eq!(o.fields[0].0.name, "limit");
            match &o.fields[0].1 {
                Value::IntValue(v) => assert_eq!(v.value, "10"),
                _ => panic!("expected an int value"),
            }
        }
        _ => panic!("expected an object value"),
    }
}

#[test]
fn variable_nodes_keep_their_name() {
    match build_value(&ValueNode::Variable { position: pos(), name: "id".to_string() }) {
        Value::Variable(v) => assert_eq!(v.name, "id"),
        _ => panic!("expected a variable"),
    }
}
