use nitrogql::base::{str_eq, Pos};
use nitrogql::ts_types::{ts_intersection, ts_union, ObjectField, TSType};
use nitrogql::writer::SourceMapWriter;

fn var(name: &str) -> TSType {
    TSType::TypeVariable(name.to_string())
}

fn printed(t: &TSType) -> String {
    let mut w = SourceMapWriter::new();
    t.print_type(&mut w);
    w.text
}

#[test]
fn union_of_nothing_prints_never() {
    let u = ts_union(vec![]);
    assert_eq!(printed(&u), "never");
}

#[test]
fn union_of_one_collapses() {
    let u = ts_union(vec![var("User")]);
    assert_eq!(printed(&u), "User");
}

#[test]
fn union_removes_duplicates_first_seen_order() {
    let u = ts_union(vec![var("A"), var("B"), var("A")]);
    assert_eq!(printed(&u), "A | B");
}

#[test]
fn union_splices_nested_unions() {
    let inner = TSType::Union(vec![var("A"), var("B")]);
    let u = ts_union(vec![inner, var("C")]);
    assert_eq!(printed(&u), "A | B | C");
}

#[test]
fn intersection_of_nothing_prints_unknown() {
    let t = ts_intersection(vec![]);
    assert_eq!(printed(&t), "unknown");
}

#[test]
fn intersection_joins_members() {
    let t = ts_intersection(vec![var("A"), var("B")]);
    assert_eq!(printed(&t), "A & B");
}

#[test]
fn string_literal_is_quoted_and_escaped() {
    let t = TSType::StringLiteral("a\"b\\c\nd".to_string());
    assert_eq!(printed(&t), "\"a\\\"b\\\\c\\nd\"");
}

#[test]
fn index_type_prints_deferred_lookup() {
    let t = TSType::IndexType(
        Box::new(var("Schema")),
        Box::new(TSType::StringLiteral("user".to_string())),
    );
    assert_eq!(printed(&t), "Schema[\"user\"]");
}

#[test]
fn list_and_nullable_wrappers() {
    let t = TSType::Nullable(Box::new(TSType::List(Box::new(var("Item")))));
    assert_eq!(printed(&t), "(Item)[] | null");
}

#[test]
fn object_prints_fields_with_modifiers() {
    let t = TSType::Object(vec![
        ObjectField {
            key: "a".to_string(),
            ty: var("A"),
            readonly: true,
            optional: true,
            description: None,
        },
        ObjectField {
            key: "b".to_string(),
            ty: var("B"),
            readonly: false,
            optional: false,
            description: None,
        },
    ]);
    assert_eq!(printed(&t), "{\nreadonly a?: A;\nb: B;\n}");
}

#[test]
fn object_field_description_becomes_doc_comment() {
    let t = TSType::Object(vec![ObjectField {
        key: "a".to_string(),
        ty: var("A"),
        readonly: false,
        optional: false,
        description: Some("hello\nworld".to_string()),
    }]);
    assert_eq!(printed(&t), "{\n/**\n * hello\n * world\n */\na: A;\n}");
}

#[test]
fn eq_ts_compares_content() {
    assert!(var("A").eq_ts(&var("A")));
    assert!(!var("A").eq_ts(&var("B")));
    assert!(!var("A").eq_ts(&TSType::StringLiteral("A".to_string())));
    let o1 = TSType::Object(vec![ObjectField {
        key: "k".to_string(),
        ty: var("T"),
        readonly: false,
        optional: false,
        description: None,
    }]);
    let o2 = o1.clone_ts();
    assert!(o1.eq_ts(&o2));
}

#[test]
fn writer_records_marks_at_byte_offsets() {
    let mut w = SourceMapWriter::new();
    w.write("ab");
    let pos = Pos { line: 3, column: 7, builtin: false };
    w.write_for("cd", pos);
    assert_eq!(w.text, "abcd");
    assert_eq!(w.marks.len(), 1);
    assert_eq!(w.marks[0].offset, 2);
    assert_eq!(w.marks[0].position.line, 3);
    assert_eq!(w.marks[0].position.column, 7);
}

#[test]
fn str_eq_compares_characters() {
    assert!(str_eq("abc", "abc"));
    assert!(!str_eq("abc", "abd"));
    assert!(!str_eq("abc", "ab"));
    assert!(str_eq("", ""));
}

#[test]
fn pos_builtin_is_marked() {
    let p = Pos::builtin();
    assert!(p.builtin);
    assert_eq!(p.line, 0);
    assert_eq!(p.column, 0);
}
