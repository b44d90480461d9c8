//! Configuration for the generator. Every option is carried explicitly
//! through call boundaries; nothing here computes a default behind the
//! caller's back beyond the `Default` impls below.

use vstd::prelude::*;
use crate::base::str_eq;

verus! {

/// Top-level configuration.
#[derive(Debug)]
pub struct Config {
    /// Path(s) to schema definition files.
    pub schema: Vec<String>,
    /// Path(s) to operation definition files.
    pub operations: Vec<String>,
    /// Config related to the 'generate' command.
    pub generate: GenerateConfig,
}

/// Config related to the 'generate' command.
#[derive(Debug)]
pub struct GenerateConfig {
    /// Mode of generation.
    pub mode: GenerateMode,
    /// Output file path for schema.
    pub schema_output: Option<String>,
    /// Module specifier for importing schema types from operations.
    pub schema_module_specifier: Option<String>,
    /// Mapping from scalar type names to target type texts.
    pub scalar_types: Vec<(String, String)>,
    /// Whether an operation is exported as a default export.
    pub default_export_for_operation: bool,
    /// Config related to generated names.
    pub name: GenerateNameConfig,
    /// Whether to emit runtime code for generated schema types.
    pub emit_schema_runtime: bool,
}

/// Mode of code generation.
#[derive(Debug, Copy, Clone, PartialEq, Eq, Structural)]
pub enum GenerateMode {
    /// For a loader of schema files; emits declarations that later
    /// tooling versions accept.
    WithLoaderTS5_0,
    /// For a loader of schema files; emits declarations for older tooling.
    WithLoaderTS4_0,
    /// Standalone declaration files for older tooling.
    StandaloneTS4_0,
}

/// The error of parsing a `GenerateMode` from text.
#[derive(Debug, PartialEq, Eq, Structural)]
pub struct FromStrError;

/// Config related to names of generated variables and types.
#[derive(Debug)]
pub struct GenerateNameConfig {
    /// Suffix for the type of an operation result.
    pub operation_result_type_suffix: Option<String>,
    /// Suffix for the type of variables for an operation.
    pub variables_type_suffix: Option<String>,
    /// Whether operation names should be capitalized.
    pub capitalize_operation_names: Option<bool>,
    /// Suffix for the variable of a query.
    pub query_variable_suffix: Option<String>,
    /// Suffix for the variable of a mutation.
    pub mutation_variable_suffix: Option<String>,
    /// Suffix for the variable of a subscription.
    pub subscription_variable_suffix: Option<String>,
}

/// What `GenerateNameConfig::default` returns: every option unset.
pub open spec fn name_config_is_default(c: GenerateNameConfig) -> bool {
    &&& c.operation_result_type_suffix matches None
    &&& c.variables_type_suffix matches None
    &&& c.capitalize_operation_names matches None
    &&& c.query_variable_suffix matches None
    &&& c.mutation_variable_suffix matches None
    &&& c.subscription_variable_suffix matches None
}

/// What `GenerateConfig::default` returns.
pub open spec fn generate_config_is_default(c: GenerateConfig) -> bool {
    &&& c.mode == GenerateMode::WithLoaderTS5_0
    &&& c.schema_output matches None
    &&& c.schema_module_specifier matches None
    &&& c.scalar_types@.len() == 0
    &&& c.default_export_for_operation == true
    &&& name_config_is_default(c.name)
    &&& c.emit_schema_runtime == false
}

impl Default for GenerateMode {
    /// The default mode of generation.
    fn default() -> (r: GenerateMode)
        ensures
            r == GenerateMode::WithLoaderTS5_0,
    {
        GenerateMode::WithLoaderTS5_0
    }
}

impl Default for GenerateNameConfig {
    fn default() -> (r: GenerateNameConfig)
        ensures
            name_config_is_default(r),
    {
        GenerateNameConfig {
            operation_result_type_suffix: None,
            variables_type_suffix: None,
            capitalize_operation_names: None,
            query_variable_suffix: None,
            mutation_variable_suffix: None,
            subscription_variable_suffix: None,
        }
    }
}

impl Default for GenerateConfig {
    fn default() -> (r: GenerateConfig)
        ensures
            generate_config_is_default(r),
    {
        GenerateConfig {
            mode: GenerateMode::WithLoaderTS5_0,
            schema_output: None,
            schema_module_specifier: None,
            scalar_types: Vec::new(),
            default_export_for_operation: true,
            name: GenerateNameConfig::default(),
            emit_schema_runtime: false,
        }
    }
}

impl Default for Config {
    fn default() -> (r: Config)
        ensures
            r.schema@.len() == 0,
            r.operations@.len() == 0,
            generate_config_is_default(r.generate),
    {
        Config { schema: Vec::new(), operations: Vec::new(), generate: GenerateConfig::default() }
    }
}

impl GenerateMode {
    /// Parses a mode name. Exactly the three documented spellings are
    /// accepted; anything else is an error.
    pub fn from_str(value: &str) -> (r: Result<GenerateMode, FromStrError>)
        ensures
            value@ == "with-loader-ts-5.0"@ ==> r == Ok::<GenerateMode, FromStrError>(
                GenerateMode::WithLoaderTS5_0,
            ),
            value@ == "with-loader-ts-4.0"@ ==> r == Ok::<GenerateMode, FromStrError>(
                GenerateMode::WithLoaderTS4_0,
            ),
            value@ == "standalone-ts-4.0"@ ==> r == Ok::<GenerateMode, FromStrError>(
                GenerateMode::StandaloneTS4_0,
            ),
            value@ != "with-loader-ts-5.0"@ && value@ != "with-loader-ts-4.0"@ && value@
                != "standalone-ts-4.0"@ ==> r == Err::<GenerateMode, FromStrError>(FromStrError),
    {
        proof {
            reveal_strlit("with-loader-ts-5.0");
            reveal_strlit("with-loader-ts-4.0");
            reveal_strlit("standalone-ts-4.0");
            assert("with-loader-ts-5.0"@[15] != "with-loader-ts-4.0"@[15]);
            assert("with-loader-ts-5.0"@.len() != "standalone-ts-4.0"@.len());
            assert("with-loader-ts-4.0"@.len() != "standalone-ts-4.0"@.len());
        }
        if str_eq(value, "with-loader-ts-5.0") {
            Ok(GenerateMode::WithLoaderTS5_0)
        } else if str_eq(value, "with-loader-ts-4.0") {
            Ok(GenerateMode::WithLoaderTS4_0)
        } else if str_eq(value, "standalone-ts-4.0") {
            Ok(GenerateMode::StandaloneTS4_0)
        } else {
            Err(FromStrError)
        }
    }
}

} // verus!
