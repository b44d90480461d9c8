use nitrogql::base::{Ident, Pos, StringValue};
use nitrogql::schema_printer::{
    get_schema_metadata_type, interface_implementers, make_ts_description, SchemaTypePrinterError,
    SchemaTypePrinterOptions,
};
use nitrogql::type_system::{
    EnumTypeDefinition, EnumValueDefinition, FieldDefinition, InputObjectTypeDefinition,
    InterfaceTypeDefinition, ObjectTypeDefinition, ScalarTypeDefinition, SchemaDefinition,
    TypeDefinition, TypeSystemDefinition, TypeSystemDocument, UnionTypeDefinition,
};
use nitrogql::types::Type;
use nitrogql::operations::OperationType;
use nitrogql::writer::SourceMapWriter;

fn pos() -> Pos {
    Pos { line: 0, column: 0, builtin: false }
}

fn ident(name: &str) -> Ident {
    Ident { name: name.to_string(), position: pos() }
}

fn named(name: &str) -> Type {
    Type::Named(ident(name))
}

fn field(name: &str, ty: Type) -> FieldDefinition {
    FieldDefinition { name: ident(name), description: None, deprecation: None, ty }
}

fn object(name: &str, implements: Vec<&str>, fields: Vec<FieldDefinition>) -> ObjectTypeDefinition {
    ObjectTypeDefinition {
        position: pos(),
        type_keyword: pos(),
        name: ident(name),
        implements: implements.into_iter().map(ident).collect(),
        description: None,
        fields,
    }
}

fn options() -> SchemaTypePrinterOptions {
    SchemaTypePrinterOptions {
        scalar_types: vec![],
        schema_metadata_type: "Schema".to_string(),
        input_nullable_field_is_optional: true,
        emit_schema_runtime: false,
    }
}

fn empty_doc() -> TypeSystemDocument {
    TypeSystemDocument { definitions: vec![] }
}

#[test]
fn scalar_with_distinct_mapping_is_direct_alias() {
    let d = ScalarTypeDefinition {
        position: pos(),
        scalar_keyword: pos(),
        name: ident("ID"),
        description: None,
    };
    let mut opts = options();
    opts.scalar_types = vec![("ID".to_string(), "string".to_string())];
    let mut w = SourceMapWriter::new();
    let r = d.print_type(&empty_doc(), &opts, &mut w);
    assert!(r.is_ok());
    assert_eq!(w.text, "export type ID = string;\n");
}

#[test]
fn scalar_self_alias_uses_reexport() {
    let d = ScalarTypeDefinition {
        position: pos(),
        scalar_keyword: pos(),
        name: ident("Date"),
        description: None,
    };
    let mut opts = options();
    opts.scalar_types = vec![("Date".to_string(), "Date".to_string())];
    let mut w = SourceMapWriter::new();
    let r = d.print_type(&empty_doc(), &opts, &mut w);
    assert!(r.is_ok());
    assert_eq!(
        w.text,
        "type __tmp_Date = Date;\nexport type { __tmp_Date as Date};\n"
    );
}

#[test]
fn scalar_without_mapping_is_an_error() {
    let d = ScalarTypeDefinition {
        position: Pos { line: 4, column: 2, builtin: false },
        scalar_keyword: pos(),
        name: ident("Odd"),
        description: None,
    };
    let opts = options();
    let mut w = SourceMapWriter::new();
    let r = d.print_type(&empty_doc(), &opts, &mut w);
    match r {
        Err(SchemaTypePrinterError::ScalarTypeNotProvided { name, position }) => {
            assert_eq!(name, "Odd");
            assert_eq!(position.line, 4);
            assert_eq!(position.column, 2);
        }
        _ => panic!("expected a missing-scalar error"),
    }
    assert_eq!(w.text, "");
}

#[test]
fn object_gets_injected_typename() {
    let d = object("User", vec![], vec![field("id", Type::NonNull(Box::new(named("ID"))))]);
    let opts = options();
    let mut w = SourceMapWriter::new();
    let r = d.print_type(&empty_doc(), &opts, &mut w);
    assert!(r.is_ok());
    assert_eq!(
        w.text,
        "export type User = {\n__typename: \"User\";\nid: ID;\n};\n"
    );
}

#[test]
fn object_field_nullability_and_lists() {
    let d = object(
        "Post",
        vec![],
        vec![
            field("title", named("String")),
            field(
                "tags",
                Type::NonNull(Box::new(Type::List(Box::new(named("String"))))),
            ),
        ],
    );
    let opts = options();
    let mut w = SourceMapWriter::new();
    d.print_type(&empty_doc(), &opts, &mut w).unwrap();
    assert_eq!(
        w.text,
        "export type Post = {\n__typename: \"Post\";\ntitle: String | null;\ntags: (String | null)[];\n};\n"
    );
}

fn node_doc() -> TypeSystemDocument {
    TypeSystemDocument {
        definitions: vec![
            TypeSystemDefinition::TypeDefinition(TypeDefinition::Object(object(
                "User",
                vec!["Node"],
                vec![],
            ))),
            TypeSystemDefinition::TypeDefinition(TypeDefinition::Object(object(
                "Post",
                vec!["Node"],
                vec![],
            ))),
            TypeSystemDefinition::TypeDefinition(TypeDefinition::Object(object(
                "Comment",
                vec![],
                vec![],
            ))),
        ],
    }
}

#[test]
fn interface_is_union_of_implementers_in_document_order() {
    let d = InterfaceTypeDefinition {
        position: pos(),
        interface_keyword: pos(),
        name: ident("Node"),
        description: None,
        fields: vec![],
    };
    let doc = node_doc();
    let opts = options();
    let mut w = SourceMapWriter::new();
    d.print_type(&doc, &opts, &mut w).unwrap();
    assert_eq!(w.text, "export type Node = User | Post;\n");
}

#[test]
fn interface_without_implementers_prints_never() {
    let d = InterfaceTypeDefinition {
        position: pos(),
        interface_keyword: pos(),
        name: ident("Unused"),
        description: None,
        fields: vec![],
    };
    let doc = node_doc();
    let opts = options();
    let mut w = SourceMapWriter::new();
    d.print_type(&doc, &opts, &mut w).unwrap();
    assert_eq!(w.text, "export type Unused = never;\n");
}

#[test]
fn interface_implementers_returns_document_order_indices() {
    let doc = node_doc();
    let idx = interface_implementers(&doc, "Node");
    assert_eq!(idx, vec![0, 1]);
}

#[test]
fn union_prints_declared_members() {
    let d = UnionTypeDefinition {
        position: pos(),
        union_keyword: pos(),
        name: ident("Media"),
        description: None,
        members: vec![ident("Photo"), ident("Video")],
    };
    let opts = options();
    let mut w = SourceMapWriter::new();
    d.print_type(&empty_doc(), &opts, &mut w).unwrap();
    assert_eq!(w.text, "export type Media = Photo | Video;\n");
}

fn color_enum() -> EnumTypeDefinition {
    EnumTypeDefinition {
        position: pos(),
        enum_keyword: pos(),
        name: ident("Color"),
        description: None,
        values: vec![
            EnumValueDefinition { name: ident("RED"), description: None, deprecation: None },
            EnumValueDefinition { name: ident("GREEN"), description: None, deprecation: None },
        ],
    }
}

#[test]
fn enum_without_runtime_emits_only_type() {
    let opts = options();
    let mut w = SourceMapWriter::new();
    color_enum().print_type(&empty_doc(), &opts, &mut w).unwrap();
    assert_eq!(w.text, "export type Color = \"RED\" | \"GREEN\";\n");
}

#[test]
fn enum_with_runtime_emits_mapping_too() {
    let mut opts = options();
    opts.emit_schema_runtime = true;
    let mut w = SourceMapWriter::new();
    color_enum().print_type(&empty_doc(), &opts, &mut w).unwrap();
    assert_eq!(
        w.text,
        "export type Color = \"RED\" | \"GREEN\";\nexport const Color = {\nRED: \"RED\",\nGREEN: \"GREEN\",\n} as const;\n"
    );
}

fn filter_input() -> InputObjectTypeDefinition {
    InputObjectTypeDefinition {
        position: pos(),
        input_keyword: pos(),
        name: ident("Filter"),
        description: None,
        fields: vec![
            field("text", named("String")),
            field("limit", Type::NonNull(Box::new(named("Int")))),
        ],
    }
}

#[test]
fn input_nullable_field_becomes_optional_when_configured() {
    let opts = options();
    let mut w = SourceMapWriter::new();
    filter_input().print_type(&empty_doc(), &opts, &mut w).unwrap();
    assert_eq!(
        w.text,
        "export type Filter = {\nreadonly text?: String | null;\nreadonly limit: Int;\n};\n"
    );
}

#[test]
fn input_fields_required_without_the_option() {
    let mut opts = options();
    opts.input_nullable_field_is_optional = false;
    let mut w = SourceMapWriter::new();
    filter_input().print_type(&empty_doc(), &opts, &mut w).unwrap();
    assert_eq!(
        w.text,
        "export type Filter = {\nreadonly text: String | null;\nreadonly limit: Int;\n};\n"
    );
}

#[test]
fn metadata_uses_default_roots_in_fixed_order() {
    let doc = TypeSystemDocument {
        definitions: vec![
            TypeSystemDefinition::TypeDefinition(TypeDefinition::Object(object(
                "Mutation",
                vec![],
                vec![],
            ))),
            TypeSystemDefinition::TypeDefinition(TypeDefinition::Object(object(
                "Query",
                vec![],
                vec![],
            ))),
        ],
    };
    let t = get_schema_metadata_type(&doc);
    let mut w = SourceMapWriter::new();
    t.print_type(&mut w);
    assert_eq!(w.text, "{\nquery: Query;\nmutation: Mutation;\n}");
}

#[test]
fn metadata_uses_explicit_schema_definition() {
    let doc = TypeSystemDocument {
        definitions: vec![TypeSystemDefinition::SchemaDefinition(SchemaDefinition {
            position: pos(),
            description: None,
            definitions: vec![
                (OperationType::Mutation, ident("Mut")),
                (OperationType::Query, ident("Q")),
            ],
        })],
    };
    let t = get_schema_metadata_type(&doc);
    let mut w = SourceMapWriter::new();
    t.print_type(&mut w);
    assert_eq!(w.text, "{\nmutation: Mut;\nquery: Q;\n}");
}

#[test]
fn metadata_with_no_roots_is_empty_object() {
    let t = get_schema_metadata_type(&empty_doc());
    let mut w = SourceMapWriter::new();
    t.print_type(&mut w);
    assert_eq!(w.text, "{\n}");
}

#[test]
fn make_ts_description_combines_deprecation() {
    let d = Some(StringValue { position: pos(), value: "desc".to_string() });
    let dep = Some("use other".to_string());
    assert_eq!(
        make_ts_description(&d, &dep),
        Some("desc\n\n@deprecated use other".to_string())
    );
    assert_eq!(make_ts_description(&d, &None), Some("desc".to_string()));
    assert_eq!(
        make_ts_description(&None, &dep),
        Some("@deprecated use other".to_string())
    );
    assert_eq!(make_ts_description(&None, &None), None);
}

#[test]
fn document_output_is_ordered_and_deterministic() {
    let doc = TypeSystemDocument {
        definitions: vec![
            TypeSystemDefinition::TypeDefinition(TypeDefinition::Object(object(
                "Query",
                vec![],
                vec![field("me", named("User"))],
            ))),
            TypeSystemDefinition::TypeDefinition(TypeDefinition::Object(object(
                "User",
                vec![],
                vec![],
            ))),
        ],
    };
    let opts = options();
    let mut w1 = SourceMapWriter::new();
    let mut w2 = SourceMapWriter::new();
    doc.print_type(&opts, &mut w1).unwrap();
    doc.print_type(&opts, &mut w2).unwrap();
    assert_eq!(w1.text, w2.text);
    assert!(w1.text.starts_with("export type Schema = {\nquery: Query;\n};\n\n"));
    let query_at = w1.text.find("export type Query = ").unwrap();
    let user_at = w1.text.find("export type User = ").unwrap();
    assert!(query_at < user_at);
}

#[test]
fn document_stops_at_first_missing_scalar() {
    let doc = TypeSystemDocument {
        definitions: vec![
            TypeSystemDefinition::TypeDefinition(TypeDefinition::Scalar(ScalarTypeDefinition {
                position: pos(),
                scalar_keyword: pos(),
                name: ident("Odd"),
                description: None,
            })),
            TypeSystemDefinition::TypeDefinition(TypeDefinition::Object(object(
                "User",
                vec![],
                vec![],
            ))),
        ],
    };
    let opts = options();
    let mut w = SourceMapWriter::new();
    let r = doc.print_type(&opts, &mut w);
    match r {
        Err(SchemaTypePrinterError::ScalarTypeNotProvided { name, .. }) => {
            assert_eq!(name, "Odd");
        }
        _ => panic!("expected a missing-scalar error"),
    }
    assert!(!w.text.contains("export type User"));
}
