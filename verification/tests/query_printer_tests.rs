use nitrogql::base::{Ident, Pos};
use nitrogql::config::{Config, FromStrError, GenerateConfig, GenerateMode, GenerateNameConfig};
use nitrogql::operations::{
    ExecutableDefinition, FragmentDefinition, OperationDefinition, OperationDocument,
    OperationType,
};
use nitrogql::query_printer::{capitalize, get_type_for_selection_set, QueryTypePrinterOptions};
use nitrogql::selection_set::{Field, FragmentSpread, InlineFragment, Selection, SelectionSet};
use nitrogql::ts_types::TSType;
use nitrogql::writer::SourceMapWriter;

fn pos() -> Pos {
    Pos { line: 0, column: 0, builtin: false }
}

fn ident(name: &str) -> Ident {
    Ident { name: name.to_string(), position: pos() }
}

fn empty_sel() -> SelectionSet {
    SelectionSet { position: pos(), selections: vec![] }
}

fn sel(selections: Vec<Selection>) -> SelectionSet {
    SelectionSet { position: pos(), selections }
}

fn field(name: &str, sub: SelectionSet) -> Selection {
    Selection::Field(Field { position: pos(), alias: None, name: ident(name), selection_set: sub })
}

fn printed(t: &TSType) -> String {
    let mut w = SourceMapWriter::new();
    t.print_type(&mut w);
    w.text
}

fn options() -> QueryTypePrinterOptions {
    QueryTypePrinterOptions {
        schema_root: "Schema".to_string(),
        query_result_suffix: "Result".to_string(),
    }
}

#[test]
fn empty_selection_set_passes_parent_through() {
    let t = get_type_for_selection_set(&empty_sel(), TSType::TypeVariable("Q".to_string()));
    assert_eq!(printed(&t), "Q");
}

#[test]
fn leaf_field_selects_deferred_lookup() {
    let s = sel(vec![field("id", empty_sel())]);
    let t = get_type_for_selection_set(&s, TSType::TypeVariable("Q".to_string()));
    assert_eq!(printed(&t), "{\nid: Q[\"id\"];\n}");
}

#[test]
fn alias_renames_property_but_looks_up_field_name() {
    let s = sel(vec![Selection::Field(Field {
        position: pos(),
        alias: Some(ident("nick")),
        name: ident("name"),
        selection_set: empty_sel(),
    })]);
    let t = get_type_for_selection_set(&s, TSType::TypeVariable("Q".to_string()));
    assert_eq!(printed(&t), "{\nnick: Q[\"name\"];\n}");
}

#[test]
fn several_selections_are_intersected() {
    let s = sel(vec![field("id", empty_sel()), field("name", empty_sel())]);
    let t = get_type_for_selection_set(&s, TSType::TypeVariable("Q".to_string()));
    assert_eq!(printed(&t), "{\nid: Q[\"id\"];\n} & {\nname: Q[\"name\"];\n}");
}

#[test]
fn nested_fields_chain_lookups() {
    let s = sel(vec![field("user", sel(vec![field("id", empty_sel())]))]);
    let t = get_type_for_selection_set(&s, TSType::TypeVariable("Q".to_string()));
    assert_eq!(printed(&t), "{\nuser: {\nid: Q[\"user\"][\"id\"];\n};\n}");
}

#[test]
fn fragment_spread_references_fragment_by_name() {
    let s = sel(vec![Selection::FragmentSpread(FragmentSpread {
        position: pos(),
        fragment_name: ident("UserFields"),
    })]);
    let t = get_type_for_selection_set(&s, TSType::TypeVariable("Q".to_string()));
    assert_eq!(printed(&t), "UserFields");
}

#[test]
fn inline_fragment_without_condition_keeps_parent() {
    let s = sel(vec![Selection::InlineFragment(InlineFragment {
        position: pos(),
        type_condition: None,
        selection_set: sel(vec![field("id", empty_sel())]),
    })]);
    let t = get_type_for_selection_set(&s, TSType::TypeVariable("Q".to_string()));
    assert_eq!(printed(&t), "{\nid: Q[\"id\"];\n}");
}

#[test]
fn inline_fragment_with_condition_replaces_parent() {
    let s = sel(vec![Selection::InlineFragment(InlineFragment {
        position: pos(),
        type_condition: Some(ident("Admin")),
        selection_set: sel(vec![field("id", empty_sel())]),
    })]);
    let t = get_type_for_selection_set(&s, TSType::TypeVariable("Q".to_string()));
    assert_eq!(printed(&t), "{\nid: Admin[\"id\"];\n}");
}

#[test]
fn operation_declaration_is_named_and_suffixed() {
    let op = OperationDefinition {
        operation_type: OperationType::Query,
        name: Some(ident("getUser")),
        variables_definition: None,
        directives: vec![],
        selection_set: sel(vec![field("id", empty_sel())]),
    };
    let mut w = SourceMapWriter::new();
    op.print_type(&options(), &mut w);
    assert_eq!(w.text, "type GetUserResult = {\nid: Schema[\"id\"];\n};\n\n");
}

#[test]
fn anonymous_operation_has_only_the_suffix() {
    let op = OperationDefinition {
        operation_type: OperationType::Query,
        name: None,
        variables_definition: None,
        directives: vec![],
        selection_set: empty_sel(),
    };
    let mut w = SourceMapWriter::new();
    op.print_type(&options(), &mut w);
    assert_eq!(w.text, "type Result = Schema;\n\n");
}

#[test]
fn fragment_declaration_rooted_at_condition() {
    let frag = FragmentDefinition {
        position: pos(),
        name: ident("UserFields"),
        type_condition: ident("User"),
        directives: vec![],
        selection_set: sel(vec![field("id", empty_sel())]),
    };
    let mut w = SourceMapWriter::new();
    frag.print_type(&options(), &mut w);
    assert_eq!(w.text, "type UserFields = {\nid: User[\"id\"];\n};\n\n");
}

#[test]
fn document_prints_definitions_in_order() {
    let doc = OperationDocument {
        definitions: vec![
            ExecutableDefinition::OperationDefinition(OperationDefinition {
                operation_type: OperationType::Query,
                name: Some(ident("a")),
                variables_definition: None,
                directives: vec![],
                selection_set: empty_sel(),
            }),
            ExecutableDefinition::FragmentDefinition(FragmentDefinition {
                position: pos(),
                name: ident("F"),
                type_condition: ident("User"),
                directives: vec![],
                selection_set: empty_sel(),
            }),
        ],
    };
    let mut w = SourceMapWriter::new();
    doc.print_type(&options(), &mut w);
    assert_eq!(w.text, "type AResult = Schema;\n\ntype F = User;\n\n");
}

#[test]
fn capitalize_uppercases_first_ascii_letter() {
    assert_eq!(capitalize("getUser"), "GetUser");
    assert_eq!(capitalize("x"), "X");
    assert_eq!(capitalize("Already"), "Already");
    assert_eq!(capitalize(""), "");
    assert_eq!(capitalize("9lives"), "9lives");
}

#[test]
fn generate_mode_parses_documented_spellings() {
    assert_eq!(
        GenerateMode::from_str("with-loader-ts-5.0"),
        Ok(GenerateMode::WithLoaderTS5_0)
    );
    assert_eq!(
        GenerateMode::from_str("with-loader-ts-4.0"),
        Ok(GenerateMode::WithLoaderTS4_0)
    );
    assert_eq!(
        GenerateMode::from_str("standalone-ts-4.0"),
        Ok(GenerateMode::StandaloneTS4_0)
    );
    assert_eq!(GenerateMode::from_str("something-else"), Err(FromStrError));
}

#[test]
fn generate_config_defaults() {
    let c = GenerateConfig::default();
    assert_eq!(c.mode, GenerateMode::WithLoaderTS5_0);
    assert!(c.schema_output.is_none());
    assert!(c.schema_module_specifier.is_none());
    assert!(c.scalar_types.is_empty());
    assert!(c.default_export_for_operation);
    assert!(!c.emit_schema_runtime);
    let n = GenerateNameConfig::default();
    assert!(n.operation_result_type_suffix.is_none());
    assert!(n.variables_type_suffix.is_none());
    assert!(n.capitalize_operation_names.is_none());
    assert!(n.query_variable_suffix.is_none());
    assert!(n.mutation_variable_suffix.is_none());
    assert!(n.subscription_variable_suffix.is_none());
    let top = Config::default();
    assert!(top.schema.is_empty());
    assert!(top.operations.is_empty());
    assert_eq!(top.generate.mode, GenerateMode::WithLoaderTS5_0);
}
