//! The typed configuration model, and its mapping from a structured value.
//! Known keys are read by shape; unknown keys are ignored.
use crate::enums::{
    known_jsx, known_lib, known_module, known_module_resolution, known_target, upper_of, Jsx, Lib,
    Module, ModuleResolutionMode, Target,
};
use crate::error::ConfigError;
use crate::fields::{
    bool_field, bool_shape, get, mappings_field, mappings_shape, string_field,
    string_list_field, string_list_shape, string_shape, u32_field, u32_shape, view_opt_mappings,
    view_opt_string, view_opt_strings,
};
use crate::json::{lemma_lookup_insert_other, lookup, view_entries, Json, JsonValue};
use vstd::prelude::*;

verus! {

/// An optional JSX mode: `None` is a shape error or an unknown mode.
pub open spec fn jsx_shape(j: Option<Json>) -> Option<Option<Jsx>> {
    match string_shape(j) {
        Some(Some(s)) => match known_jsx(upper_of(s)) {
            Some(x) => Some(Some(x)),
            None => None,
        },
        Some(None) => Some(None),
        None => None,
    }
}

/// An optional module resolution mode, matched exactly.
pub open spec fn module_resolution_shape(j: Option<Json>) -> Option<Option<ModuleResolutionMode>> {
    match string_shape(j) {
        Some(Some(s)) => match known_module_resolution(s) {
            Some(x) => Some(Some(x)),
            None => None,
        },
        Some(None) => Some(None),
        None => None,
    }
}

/// `t` is what the text `s` names as a target.
pub open spec fn is_target_for(t: Target, s: Seq<char>) -> bool {
    match known_target(upper_of(s)) {
        Some(k) => t == k,
        None => t matches Target::Other(o) && o@ == upper_of(s),
    }
}

/// `t` is what the text `s` names as a module system.
pub open spec fn is_module_for(t: Module, s: Seq<char>) -> bool {
    match known_module(upper_of(s)) {
        Some(k) => t == k,
        None => t matches Module::Other(o) && o@ == upper_of(s),
    }
}

/// `t` is what the text `s` names as a library.
pub open spec fn is_lib_for(t: Lib, s: Seq<char>) -> bool {
    match known_lib(upper_of(s)) {
        Some(k) => t == k,
        None => t matches Lib::Other(o) && o@ == upper_of(s),
    }
}

pub open spec fn target_agrees(r: Option<Target>, j: Option<Json>) -> bool {
    match string_shape(j) {
        Some(Some(s)) => r matches Some(t) && is_target_for(t, s),
        Some(None) => r is None,
        None => false,
    }
}

pub open spec fn module_agrees(r: Option<Module>, j: Option<Json>) -> bool {
    match string_shape(j) {
        Some(Some(s)) => r matches Some(t) && is_module_for(t, s),
        Some(None) => r is None,
        None => false,
    }
}

pub open spec fn libs_agree(r: Option<Vec<Lib>>, j: Option<Json>) -> bool {
    match string_list_shape(j) {
        Some(Some(ss)) => r matches Some(v) && v@.len() == ss.len() && forall|i: int|
            0 <= i < ss.len() ==> is_lib_for(#[trigger] v@[i], ss[i]),
        Some(None) => r is None,
        None => false,
    }
}

fn schema_error(k: &str) -> (e: ConfigError)
    ensures
        e is SchemaError,
{
    ConfigError::SchemaError(String::from_str(k))
}

fn jsx_field(es: &Vec<(String, JsonValue)>, k: &str) -> (r: Result<Option<Jsx>, ConfigError>)
    ensures
        match jsx_shape(lookup(view_entries(es@), k@)) {
            Some(x) => r == Ok::<Option<Jsx>, ConfigError>(x),
            None => r matches Err(ConfigError::SchemaError(_)),
        },
{
    match string_field(es, k) {
        Ok(Some(s)) => match Jsx::parse(s.as_str()) {
            Some(x) => Ok(Some(x)),
            None => Err(schema_error(k)),
        },
        Ok(None) => Ok(None),
        Err(e) => Err(e),
    }
}

fn module_resolution_field(es: &Vec<(String, JsonValue)>, k: &str) -> (r: Result<
    Option<ModuleResolutionMode>,
    ConfigError,
>)
    ensures
        match module_resolution_shape(lookup(view_entries(es@), k@)) {
            Some(x) => r == Ok::<Option<ModuleResolutionMode>, ConfigError>(x),
            None => r matches Err(ConfigError::SchemaError(_)),
        },
{
    match string_field(es, k) {
        Ok(Some(s)) => match ModuleResolutionMode::parse(s.as_str()) {
            Some(x) => Ok(Some(x)),
            None => Err(schema_error(k)),
        },
        Ok(None) => Ok(None),
        Err(e) => Err(e),
    }
}

fn target_field(es: &Vec<(String, JsonValue)>, k: &str) -> (r: Result<Option<Target>, ConfigError>)
    ensures
        match string_shape(lookup(view_entries(es@), k@)) {
            Some(_) => r matches Ok(o) && target_agrees(o, lookup(view_entries(es@), k@)),
            None => r matches Err(ConfigError::SchemaError(_)),
        },
{
    match string_field(es, k) {
        Ok(Some(s)) => Ok(Some(Target::parse(s.as_str()))),
        Ok(None) => Ok(None),
        Err(e) => Err(e),
    }
}

fn module_field(es: &Vec<(String, JsonValue)>, k: &str) -> (r: Result<Option<Module>, ConfigError>)
    ensures
        match string_shape(lookup(view_entries(es@), k@)) {
            Some(_) => r matches Ok(o) && module_agrees(o, lookup(view_entries(es@), k@)),
            None => r matches Err(ConfigError::SchemaError(_)),
        },
{
    match string_field(es, k) {
        Ok(Some(s)) => Ok(Some(Module::parse(s.as_str()))),
        Ok(None) => Ok(None),
        Err(e) => Err(e),
    }
}

fn lib_field(es: &Vec<(String, JsonValue)>, k: &str) -> (r: Result<Option<Vec<Lib>>, ConfigError>)
    ensures
        match string_list_shape(lookup(view_entries(es@), k@)) {
            Some(_) => r matches Ok(o) && libs_agree(o, lookup(view_entries(es@), k@)),
            None => r matches Err(ConfigError::SchemaError(_)),
        },
{
    match string_list_field(es, k) {
        Ok(Some(names)) => {
            let mut out: Vec<Lib> = Vec::new();
            let mut i: usize = 0;
            while i < names.len()
                invariant
                    i <= names.len(),
                    out@.len() == i,
                    forall|j: int| 0 <= j < i ==> is_lib_for(#[trigger] out@[j], names@[j]@),
                decreases names.len() - i,
            {
                out.push(Lib::parse(names[i].as_str()));
                i = i + 1;
            }
            Ok(Some(out))
        },
        Ok(None) => Ok(None),
        Err(e) => Err(e),
    }
}

/// These options make up the bulk of TypeScript's configuration and it covers how the language should work.
/// `charset`, `diagnostics` and `out` are deprecated, and still read.
#[derive(Debug, Clone)]
pub struct CompilerOptions {
    pub allow_js: Option<bool>,
    pub check_js: Option<bool>,
    pub composite: Option<bool>,
    pub declaration: Option<bool>,
    pub declaration_map: Option<bool>,
    pub downlevel_iteration: Option<bool>,
    pub import_helpers: Option<bool>,
    pub incremental: Option<bool>,
    pub isolated_modules: Option<bool>,
    pub jsx: Option<Jsx>,
    pub lib: Option<Vec<Lib>>,
    pub module: Option<Module>,
    pub no_emit: Option<bool>,
    pub out_dir: Option<String>,
    pub out_file: Option<String>,
    pub remove_comments: Option<bool>,
    pub root_dir: Option<String>,
    pub source_map: Option<bool>,
    pub target: Option<Target>,
    pub ts_build_info_file: Option<String>,
    pub always_strict: Option<bool>,
    pub no_implicit_any: Option<bool>,
    pub no_implicit_this: Option<bool>,
    pub strict: Option<bool>,
    pub strict_bind_call_apply: Option<bool>,
    pub strict_function_types: Option<bool>,
    pub strict_null_checks: Option<bool>,
    pub strict_property_initialization: Option<bool>,
    pub allow_synthetic_default_imports: Option<bool>,
    pub allow_umd_global_access: Option<bool>,
    pub base_url: Option<String>,
    pub es_module_interop: Option<bool>,
    pub module_resolution: Option<ModuleResolutionMode>,
    pub paths: Option<Vec<(String, Vec<String>)>>,
    pub preserve_symlinks: Option<bool>,
    pub root_dirs: Option<Vec<String>>,
    pub type_roots: Option<Vec<String>>,
    pub types: Option<Vec<String>>,
    pub inline_source_map: Option<bool>,
    pub inline_sources: Option<bool>,
    pub map_root: Option<String>,
    pub source_root: Option<String>,
    pub no_fallthrough_cases_in_switch: Option<bool>,
    pub no_implicit_returns: Option<bool>,
    pub no_property_access_from_index_signature: Option<bool>,
    pub no_unchecked_indexed_access: Option<bool>,
    pub no_unused_locals: Option<bool>,
    pub emit_decorator_metadata: Option<bool>,
    pub experimental_decorators: Option<bool>,
    pub allow_unreachable_code: Option<bool>,
    pub allow_unused_labels: Option<bool>,
    pub assume_changes_only_affect_direct_dependencies: Option<bool>,
    pub charset: Option<String>,
    pub declaration_dir: Option<String>,
    pub diagnostics: Option<bool>,
    pub disable_referenced_project_load: Option<bool>,
    pub disable_size_limit: Option<bool>,
    pub disable_solution_searching: Option<bool>,
    pub disable_source_of_project_reference_redirect: Option<bool>,
    pub emit_bom: Option<bool>,
    pub emit_declaration_only: Option<bool>,
    pub explain_files: Option<bool>,
    pub extended_diagnostics: Option<bool>,
    pub force_consistent_casing_in_file_names: Option<bool>,
    pub generate_cpu_profile: Option<bool>,
    pub imports_not_used_as_values: Option<String>,
    pub jsx_factory: Option<String>,
    pub jsx_fragment_factory: Option<String>,
    pub jsx_import_source: Option<String>,
    pub keyof_strings_only: Option<bool>,
    pub list_emitted_files: Option<bool>,
    pub list_files: Option<bool>,
    pub max_node_module_js_depth: Option<u32>,
    pub no_emit_helpers: Option<bool>,
    pub no_emit_on_error: Option<bool>,
    pub no_error_truncation: Option<bool>,
    pub no_implicit_use_strict: Option<bool>,
    pub no_lib: Option<bool>,
    pub no_resolve: Option<bool>,
    pub no_strict_generic_checks: Option<bool>,
    pub out: Option<String>,
    pub preserve_const_enums: Option<bool>,
    pub react_namespace: Option<String>,
    pub resolve_json_module: Option<bool>,
    pub skip_default_lib_check: Option<bool>,
    pub skip_lib_check: Option<bool>,
    pub strip_internal: Option<bool>,
    pub suppress_excess_property_errors: Option<bool>,
    pub suppress_implicit_any_index_errors: Option<bool>,
    pub trace_resolution: Option<bool>,
    pub use_define_for_class_fields: Option<bool>,
    pub preserve_watch_output: Option<bool>,
    pub pretty: Option<bool>,
    pub fallback_polling: Option<String>,
    pub watch_directory: Option<String>,
    pub watch_file: Option<String>,
}

/// Every known option of the object `m` has a value of its shape.
pub open spec fn compiler_options_fit(m: Seq<(Seq<char>, Json)>) -> bool {
    &&& bool_shape(lookup(m, "allowJs"@)) is Some
    &&& bool_shape(lookup(m, "checkJs"@)) is Some
    &&& bool_shape(lookup(m, "composite"@)) is Some
    &&& bool_shape(lookup(m, "declaration"@)) is Some
    &&& bool_shape(lookup(m, "declarationMap"@)) is Some
    &&& bool_shape(lookup(m, "downlevelIteration"@)) is Some
    &&& bool_shape(lookup(m, "importHelpers"@)) is Some
    &&& bool_shape(lookup(m, "incremental"@)) is Some
    &&& bool_shape(lookup(m, "isolatedModules"@)) is Some
    &&& jsx_shape(lookup(m, "jsx"@)) is Some
    &&& string_list_shape(lookup(m, "lib"@)) is Some
    &&& string_shape(lookup(m, "module"@)) is Some
    &&& bool_shape(lookup(m, "noEmit"@)) is Some
    &&& string_shape(lookup(m, "outDir"@)) is Some
    &&& string_shape(lookup(m, "outFile"@)) is Some
    &&& bool_shape(lookup(m, "removeComments"@)) is Some
    &&& string_shape(lookup(m, "rootDir"@)) is Some
    &&& bool_shape(lookup(m, "sourceMap"@)) is Some
    &&& string_shape(lookup(m, "target"@)) is Some
    &&& string_shape(lookup(m, "tsBuildInfoFile"@)) is Some
    &&& bool_shape(lookup(m, "alwaysStrict"@)) is Some
    &&& bool_shape(lookup(m, "noImplicitAny"@)) is Some
    &&& bool_shape(lookup(m, "noImplicitThis"@)) is Some
    &&& bool_shape(lookup(m, "strict"@)) is Some
    &&& bool_shape(lookup(m, "strictBindCallApply"@)) is Some
    &&& bool_shape(lookup(m, "strictFunctionTypes"@)) is Some
    &&& bool_shape(lookup(m, "strictNullChecks"@)) is Some
    &&& bool_shape(lookup(m, "strictPropertyInitialization"@)) is Some
    &&& bool_shape(lookup(m, "allowSyntheticDefaultImports"@)) is Some
    &&& bool_shape(lookup(m, "allowUmdGlobalAccess"@)) is Some
    &&& string_shape(lookup(m, "baseUrl"@)) is Some
    &&& bool_shape(lookup(m, "esModuleInterop"@)) is Some
    &&& module_resolution_shape(lookup(m, "moduleResolution"@)) is Some
    &&& mappings_shape(lookup(m, "paths"@)) is Some
    &&& bool_shape(lookup(m, "preserveSymlinks"@)) is Some
    &&& string_list_shape(lookup(m, "rootDirs"@)) is Some
    &&& string_list_shape(lookup(m, "typeRoots"@)) is Some
    &&& string_list_shape(lookup(m, "types"@)) is Some
    &&& bool_shape(lookup(m, "inlineSourceMap"@)) is Some
    &&& bool_shape(lookup(m, "inlineSources"@)) is Some
    &&& string_shape(lookup(m, "mapRoot"@)) is Some
    &&& string_shape(lookup(m, "sourceRoot"@)) is Some
    &&& bool_shape(lookup(m, "noFallthroughCasesInSwitch"@)) is Some
    &&& bool_shape(lookup(m, "noImplicitReturns"@)) is Some
    &&& bool_shape(lookup(m, "noPropertyAccessFromIndexSignature"@)) is Some
    &&& bool_shape(lookup(m, "noUncheckedIndexedAccess"@)) is Some
    &&& bool_shape(lookup(m, "noUnusedLocals"@)) is Some
    &&& bool_shape(lookup(m, "emitDecoratorMetadata"@)) is Some
    &&& bool_shape(lookup(m, "experimentalDecorators"@)) is Some
    &&& bool_shape(lookup(m, "allowUnreachableCode"@)) is Some
    &&& bool_shape(lookup(m, "allowUnusedLabels"@)) is Some
    &&& bool_shape(lookup(m, "assumeChangesOnlyAffectDirectDependencies"@)) is Some
    &&& string_shape(lookup(m, "charset"@)) is Some
    &&& string_shape(lookup(m, "declarationDir"@)) is Some
    &&& bool_shape(lookup(m, "diagnostics"@)) is Some
    &&& bool_shape(lookup(m, "disableReferencedProjectLoad"@)) is Some
    &&& bool_shape(lookup(m, "disableSizeLimit"@)) is Some
    &&& bool_shape(lookup(m, "disableSolutionSearching"@)) is Some
    &&& bool_shape(lookup(m, "disableSourceOfProjectReferenceRedirect"@)) is Some
    &&& bool_shape(lookup(m, "emitBOM"@)) is Some
    &&& bool_shape(lookup(m, "emitDeclarationOnly"@)) is Some
    &&& bool_shape(lookup(m, "explainFiles"@)) is Some
    &&& bool_shape(lookup(m, "extendedDiagnostics"@)) is Some
    &&& bool_shape(lookup(m, "forceConsistentCasingInFileNames"@)) is Some
    &&& bool_shape(lookup(m, "generateCpuProfile"@)) is Some
    &&& string_shape(lookup(m, "importsNotUsedAsValues"@)) is Some
    &&& string_shape(lookup(m, "jsxFactory"@)) is Some
    &&& string_shape(lookup(m, "jsxFragmentFactory"@)) is Some
    &&& string_shape(lookup(m, "jsxImportSource"@)) is Some
    &&& bool_shape(lookup(m, "keyofStringsOnly"@)) is Some
    &&& bool_shape(lookup(m, "listEmittedFiles"@)) is Some
    &&& bool_shape(lookup(m, "listFiles"@)) is Some
    &&& u32_shape(lookup(m, "maxNodeModuleJsDepth"@)) is Some
    &&& bool_shape(lookup(m, "noEmitHelpers"@)) is Some
    &&& bool_shape(lookup(m, "noEmitOnError"@)) is Some
    &&& bool_shape(lookup(m, "noErrorTruncation"@)) is Some
    &&& bool_shape(lookup(m, "noImplicitUseStrict"@)) is Some
    &&& bool_shape(lookup(m, "noLib"@)) is Some
    &&& bool_shape(lookup(m, "noResolve"@)) is Some
    &&& bool_shape(lookup(m, "noStrictGenericChecks"@)) is Some
    &&& string_shape(lookup(m, "out"@)) is Some
    &&& bool_shape(lookup(m, "preserveConstEnums"@)) is Some
    &&& string_shape(lookup(m, "reactNamespace"@)) is Some
    &&& bool_shape(lookup(m, "resolveJsonModule"@)) is Some
    &&& bool_shape(lookup(m, "skipDefaultLibCheck"@)) is Some
    &&& bool_shape(lookup(m, "skipLibCheck"@)) is Some
    &&& bool_shape(lookup(m, "stripInternal"@)) is Some
    &&& bool_shape(lookup(m, "suppressExcessPropertyErrors"@)) is Some
    &&& bool_shape(lookup(m, "suppressImplicitAnyIndexErrors"@)) is Some
    &&& bool_shape(lookup(m, "traceResolution"@)) is Some
    &&& bool_shape(lookup(m, "useDefineForClassFields"@)) is Some
    &&& bool_shape(lookup(m, "preserveWatchOutput"@)) is Some
    &&& bool_shape(lookup(m, "pretty"@)) is Some
    &&& string_shape(lookup(m, "fallbackPolling"@)) is Some
    &&& string_shape(lookup(m, "watchDirectory"@)) is Some
    &&& string_shape(lookup(m, "watchFile"@)) is Some
}

/// Each field of `c` holds what the object `m` gives for its key.
pub open spec fn compiler_options_agree(c: CompilerOptions, m: Seq<(Seq<char>, Json)>) -> bool {
    &&& Some(c.allow_js) == bool_shape(lookup(m, "allowJs"@))
    &&& Some(c.check_js) == bool_shape(lookup(m, "checkJs"@))
    &&& Some(c.composite) == bool_shape(lookup(m, "composite"@))
    &&& Some(c.declaration) == bool_shape(lookup(m, "declaration"@))
    &&& Some(c.declaration_map) == bool_shape(lookup(m, "declarationMap"@))
    &&& Some(c.downlevel_iteration) == bool_shape(lookup(m, "downlevelIteration"@))
    &&& Some(c.import_helpers) == bool_shape(lookup(m, "importHelpers"@))
    &&& Some(c.incremental) == bool_shape(lookup(m, "incremental"@))
    &&& Some(c.isolated_modules) == bool_shape(lookup(m, "isolatedModules"@))
    &&& Some(c.jsx) == jsx_shape(lookup(m, "jsx"@))
    &&& libs_agree(c.lib, lookup(m, "lib"@))
    &&& module_agrees(c.module, lookup(m, "module"@))
    &&& Some(c.no_emit) == bool_shape(lookup(m, "noEmit"@))
    &&& Some(view_opt_string(c.out_dir)) == string_shape(lookup(m, "outDir"@))
    &&& Some(view_opt_string(c.out_file)) == string_shape(lookup(m, "outFile"@))
    &&& Some(c.remove_comments) == bool_shape(lookup(m, "removeComments"@))
    &&& Some(view_opt_string(c.root_dir)) == string_shape(lookup(m, "rootDir"@))
    &&& Some(c.source_map) == bool_shape(lookup(m, "sourceMap"@))
    &&& target_agrees(c.target, lookup(m, "target"@))
    &&& Some(view_opt_string(c.ts_build_info_file)) == string_shape(lookup(m, "tsBuildInfoFile"@))
    &&& Some(c.always_strict) == bool_shape(lookup(m, "alwaysStrict"@))
    &&& Some(c.no_implicit_any) == bool_shape(lookup(m, "noImplicitAny"@))
    &&& Some(c.no_implicit_this) == bool_shape(lookup(m, "noImplicitThis"@))
    &&& Some(c.strict) == bool_shape(lookup(m, "strict"@))
    &&& Some(c.strict_bind_call_apply) == bool_shape(lookup(m, "strictBindCallApply"@))
    &&& Some(c.strict_function_types) == bool_shape(lookup(m, "strictFunctionTypes"@))
    &&& Some(c.strict_null_checks) == bool_shape(lookup(m, "strictNullChecks"@))
    &&& Some(c.strict_property_initialization) == bool_shape(lookup(m, "strictPropertyInitialization"@))
    &&& Some(c.allow_synthetic_default_imports) == bool_shape(lookup(m, "allowSyntheticDefaultImports"@))
    &&& Some(c.allow_umd_global_access) == bool_shape(lookup(m, "allowUmdGlobalAccess"@))
    &&& Some(view_opt_string(c.base_url)) == string_shape(lookup(m, "baseUrl"@))
    &&& Some(c.es_module_interop) == bool_shape(lookup(m, "esModuleInterop"@))
    &&& Some(c.module_resolution) == module_resolution_shape(lookup(m, "moduleResolution"@))
    &&& Some(view_opt_mappings(c.paths)) == mappings_shape(lookup(m, "paths"@))
    &&& Some(c.preserve_symlinks) == bool_shape(lookup(m, "preserveSymlinks"@))
    &&& Some(view_opt_strings(c.root_dirs)) == string_list_shape(lookup(m, "rootDirs"@))
    &&& Some(view_opt_strings(c.type_roots)) == string_list_shape(lookup(m, "typeRoots"@))
    &&& Some(view_opt_strings(c.types)) == string_list_shape(lookup(m, "types"@))
    &&& Some(c.inline_source_map) == bool_shape(lookup(m, "inlineSourceMap"@))
    &&& Some(c.inline_sources) == bool_shape(lookup(m, "inlineSources"@))
    &&& Some(view_opt_string(c.map_root)) == string_shape(lookup(m, "mapRoot"@))
    &&& Some(view_opt_string(c.source_root)) == string_shape(lookup(m, "sourceRoot"@))
    &&& Some(c.no_fallthrough_cases_in_switch) == bool_shape(lookup(m, "noFallthroughCasesInSwitch"@))
    &&& Some(c.no_implicit_returns) == bool_shape(lookup(m, "noImplicitReturns"@))
    &&& Some(c.no_property_access_from_index_signature) == bool_shape(lookup(m, "noPropertyAccessFromIndexSignature"@))
    &&& Some(c.no_unchecked_indexed_access) == bool_shape(lookup(m, "noUncheckedIndexedAccess"@))
    &&& Some(c.no_unused_locals) == bool_shape(lookup(m, "noUnusedLocals"@))
    &&& Some(c.emit_decorator_metadata) == bool_shape(lookup(m, "emitDecoratorMetadata"@))
    &&& Some(c.experimental_decorators) == bool_shape(lookup(m, "experimentalDecorators"@))
    &&& Some(c.allow_unreachable_code) == bool_shape(lookup(m, "allowUnreachableCode"@))
    &&& Some(c.allow_unused_labels) == bool_shape(lookup(m, "allowUnusedLabels"@))
    &&& Some(c.assume_changes_only_affect_direct_dependencies) == bool_shape(lookup(m, "assumeChangesOnlyAffectDirectDependencies"@))
    &&& Some(view_opt_string(c.charset)) == string_shape(lookup(m, "charset"@))
    &&& Some(view_opt_string(c.declaration_dir)) == string_shape(lookup(m, "declarationDir"@))
    &&& Some(c.diagnostics) == bool_shape(lookup(m, "diagnostics"@))
    &&& Some(c.disable_referenced_project_load) == bool_shape(lookup(m, "disableReferencedProjectLoad"@))
    &&& Some(c.disable_size_limit) == bool_shape(lookup(m, "disableSizeLimit"@))
    &&& Some(c.disable_solution_searching) == bool_shape(lookup(m, "disableSolutionSearching"@))
    &&& Some(c.disable_source_of_project_reference_redirect) == bool_shape(lookup(m, "disableSourceOfProjectReferenceRedirect"@))
    &&& Some(c.emit_bom) == bool_shape(lookup(m, "emitBOM"@))
    &&& Some(c.emit_declaration_only) == bool_shape(lookup(m, "emitDeclarationOnly"@))
    &&& Some(c.explain_files) == bool_shape(lookup(m, "explainFiles"@))
    &&& Some(c.extended_diagnostics) == bool_shape(lookup(m, "extendedDiagnostics"@))
    &&& Some(c.force_consistent_casing_in_file_names) == bool_shape(lookup(m, "forceConsistentCasingInFileNames"@))
    &&& Some(c.generate_cpu_profile) == bool_shape(lookup(m, "generateCpuProfile"@))
    &&& Some(view_opt_string(c.imports_not_used_as_values)) == string_shape(lookup(m, "importsNotUsedAsValues"@))
    &&& Some(view_opt_string(c.jsx_factory)) == string_shape(lookup(m, "jsxFactory"@))
    &&& Some(view_opt_string(c.jsx_fragment_factory)) == string_shape(lookup(m, "jsxFragmentFactory"@))
    &&& Some(view_opt_string(c.jsx_import_source)) == string_shape(lookup(m, "jsxImportSource"@))
    &&& Some(c.keyof_strings_only) == bool_shape(lookup(m, "keyofStringsOnly"@))
    &&& Some(c.list_emitted_files) == bool_shape(lookup(m, "listEmittedFiles"@))
    &&& Some(c.list_files) == bool_shape(lookup(m, "listFiles"@))
    &&& Some(c.max_node_module_js_depth) == u32_shape(lookup(m, "maxNodeModuleJsDepth"@))
    &&& Some(c.no_emit_helpers) == bool_shape(lookup(m, "noEmitHelpers"@))
    &&& Some(c.no_emit_on_error) == bool_shape(lookup(m, "noEmitOnError"@))
    &&& Some(c.no_error_truncation) == bool_shape(lookup(m, "noErrorTruncation"@))
    &&& Some(c.no_implicit_use_strict) == bool_shape(lookup(m, "noImplicitUseStrict"@))
    &&& Some(c.no_lib) == bool_shape(lookup(m, "noLib"@))
    &&& Some(c.no_resolve) == bool_shape(lookup(m, "noResolve"@))
    &&& Some(c.no_strict_generic_checks) == bool_shape(lookup(m, "noStrictGenericChecks"@))
    &&& Some(view_opt_string(c.out)) == string_shape(lookup(m, "out"@))
    &&& Some(c.preserve_const_enums) == bool_shape(lookup(m, "preserveConstEnums"@))
    &&& Some(view_opt_string(c.react_namespace)) == string_shape(lookup(m, "reactNamespace"@))
    &&& Some(c.resolve_json_module) == bool_shape(lookup(m, "resolveJsonModule"@))
    &&& Some(c.skip_default_lib_check) == bool_shape(lookup(m, "skipDefaultLibCheck"@))
    &&& Some(c.skip_lib_check) == bool_shape(lookup(m, "skipLibCheck"@))
    &&& Some(c.strip_internal) == bool_shape(lookup(m, "stripInternal"@))
    &&& Some(c.suppress_excess_property_errors) == bool_shape(lookup(m, "suppressExcessPropertyErrors"@))
    &&& Some(c.suppress_implicit_any_index_errors) == bool_shape(lookup(m, "suppressImplicitAnyIndexErrors"@))
    &&& Some(c.trace_resolution) == bool_shape(lookup(m, "traceResolution"@))
    &&& Some(c.use_define_for_class_fields) == bool_shape(lookup(m, "useDefineForClassFields"@))
    &&& Some(c.preserve_watch_output) == bool_shape(lookup(m, "preserveWatchOutput"@))
    &&& Some(c.pretty) == bool_shape(lookup(m, "pretty"@))
    &&& Some(view_opt_string(c.fallback_polling)) == string_shape(lookup(m, "fallbackPolling"@))
    &&& Some(view_opt_string(c.watch_directory)) == string_shape(lookup(m, "watchDirectory"@))
    &&& Some(view_opt_string(c.watch_file)) == string_shape(lookup(m, "watchFile"@))
}

impl CompilerOptions {
    /// Reads the options from the entries of their object. Unknown keys are
    /// ignored; a known key whose value has the wrong shape is an error.
    #[verifier::rlimit(100)]
    pub fn from_entries(es: &Vec<(String, JsonValue)>) -> (r: Result<CompilerOptions, ConfigError>)
        ensures
            r is Ok <==> compiler_options_fit(view_entries(es@)),
            match r {
                Ok(c) => compiler_options_agree(c, view_entries(es@)),
                Err(e) => e is SchemaError,
            },
    {
        let allow_js = match bool_field(es, "allowJs") {
            Ok(v) => v,
            Err(e) => return Err(e),
        };
        let check_js = match bool_field(es, "checkJs") {
            Ok(v) => v,
            Err(e) => return Err(e),
        };
        let composite = match bool_field(es, "composite") {
            Ok(v) => v,
            Err(e) => return Err(e),
        };
        let declaration = match bool_field(es, "declaration") {
            Ok(v) => v,
            Err(e) => return Err(e),
        };
        let declaration_map = match bool_field(es, "declarationMap") {
            Ok(v) => v,
            Err(e) => return Err(e),
        };
        let downlevel_iteration = match bool_field(es, "downlevelIteration") {
            Ok(v) => v,
            Err(e) => return Err(e),
        };
        let import_helpers = match bool_field(es, "importHelpers") {
            Ok(v) => v,
            Err(e) => return Err(e),
        };
        let incremental = match bool_field(es, "incremental") {
            Ok(v) => v,
            Err(e) => return Err(e),
        };
        let isolated_modules = match bool_field(es, "isolatedModules") {
            Ok(v) => v,
            Err(e) => return Err(e),
        };
        let jsx = match jsx_field(es, "jsx") {
            Ok(v) => v,
            Err(e) => return Err(e),
        };
        let lib = match lib_field(es, "lib") {
            Ok(v) => v,
            Err(e) => return Err(e),
        };
        let module = match module_field(es, "module") {
            Ok(v) => v,
            Err(e) => return Err(e),
        };
        let no_emit = match bool_field(es, "noEmit") {
            Ok(v) => v,
            Err(e) => return Err(e),
        };
        let out_dir = match string_field(es, "outDir") {
            Ok(v) => v,
            Err(e) => return Err(e),
        };
        let out_file = match string_field(es, "outFile") {
            Ok(v) => v,
            Err(e) => return Err(e),
        };
        let remove_comments = match bool_field(es, "removeComments") {
            Ok(v) => v,
            Err(e) => return Err(e),
        };
        let root_dir = match string_field(es, "rootDir") {
            Ok(v) => v,
            Err(e) => return Err(e),
        };
        let source_map = match bool_field(es, "sourceMap") {
            Ok(v) => v,
            Err(e) => return Err(e),
        };
        let target = match target_field(es, "target") {
            Ok(v) => v,
            Err(e) => return Err(e),
        };
        let ts_build_info_file = match string_field(es, "tsBuildInfoFile") {
            Ok(v) => v,
            Err(e) => return Err(e),
        };
        let always_strict = match bool_field(es, "alwaysStrict") {
            Ok(v) => v,
            Err(e) => return Err(e),
        };
        let no_implicit_any = match bool_field(es, "noImplicitAny") {
            Ok(v) => v,
            Err(e) => return Err(e),
        };
        let no_implicit_this = match bool_field(es, "noImplicitThis") {
            Ok(v) => v,
            Err(e) => return Err(e),
        };
        let strict = match bool_field(es, "strict") {
            Ok(v) => v,
            Err(e) => return Err(e),
        };
        let strict_bind_call_apply = match bool_field(es, "strictBindCallApply") {
            Ok(v) => v,
            Err(e) => return Err(e),
        };
        let strict_function_types = match bool_field(es, "strictFunctionTypes") {
            Ok(v) => v,
            Err(e) => return Err(e),
        };
        let strict_null_checks = match bool_field(es, "strictNullChecks") {
            Ok(v) => v,
            Err(e) => return Err(e),
        };
        let strict_property_initialization = match bool_field(es, "strictPropertyInitialization") {
            Ok(v) => v,
            Err(e) => return Err(e),
        };
        let allow_synthetic_default_imports = match bool_field(es, "allowSyntheticDefaultImports") {
            Ok(v) => v,
            Err(e) => return Err(e),
        };
        let allow_umd_global_access = match bool_field(es, "allowUmdGlobalAccess") {
            Ok(v) => v,
            Err(e) => return Err(e),
        };
        let base_url = match string_field(es, "baseUrl") {
            Ok(v) => v,
            Err(e) => return Err(e),
        };
        let es_module_interop = match bool_field(es, "esModuleInterop") {
            Ok(v) => v,
            Err(e) => return Err(e),
        };
        let module_resolution = match module_resolution_field(es, "moduleResolution") {
            Ok(v) => v,
            Err(e) => return Err(e),
        };
        let paths = match mappings_field(es, "paths") {
            Ok(v) => v,
            Err(e) => return Err(e),
        };
        let preserve_symlinks = match bool_field(es, "preserveSymlinks") {
            Ok(v) => v,
            Err(e) => return Err(e),
        };
        let root_dirs = match string_list_field(es, "rootDirs") {
            Ok(v) => v,
            Err(e) => return Err(e),
        };
        let type_roots = match string_list_field(es, "typeRoots") {
            Ok(v) => v,
            Err(e) => return Err(e),
        };
        let types = match string_list_field(es, "types") {
            Ok(v) => v,
            Err(e) => return Err(e),
        };
        let inline_source_map = match bool_field(es, "inlineSourceMap") {
            Ok(v) => v,
            Err(e) => return Err(e),
        };
        let inline_sources = match bool_field(es, "inlineSources") {
            Ok(v) => v,
            Err(e) => return Err(e),
        };
        let map_root = match string_field(es, "mapRoot") {
            Ok(v) => v,
            Err(e) => return Err(e),
        };
        let source_root = match string_field(es, "sourceRoot") {
            Ok(v) => v,
            Err(e) => return Err(e),
        };
        let no_fallthrough_cases_in_switch = match bool_field(es, "noFallthroughCasesInSwitch") {
            Ok(v) => v,
            Err(e) => return Err(e),
        };
        let no_implicit_returns = match bool_field(es, "noImplicitReturns") {
            Ok(v) => v,
            Err(e) => return Err(e),
        };
        let no_property_access_from_index_signature = match bool_field(es, "noPropertyAccessFromIndexSignature") {
            Ok(v) => v,
            Err(e) => return Err(e),
        };
        let no_unchecked_indexed_access = match bool_field(es, "noUncheckedIndexedAccess") {
            Ok(v) => v,
            Err(e) => return Err(e),
        };
        let no_unused_locals = match bool_field(es, "noUnusedLocals") {
            Ok(v) => v,
            Err(e) => return Err(e),
        };
        let emit_decorator_metadata = match bool_field(es, "emitDecoratorMetadata") {
            Ok(v) => v,
            Err(e) => return Err(e),
        };
        let experimental_decorators = match bool_field(es, "experimentalDecorators") {
            Ok(v) => v,
            Err(e) => return Err(e),
        };
        let allow_unreachable_code = match bool_field(es, "allowUnreachableCode") {
            Ok(v) => v,
            Err(e) => return Err(e),
        };
        let allow_unused_labels = match bool_field(es, "allowUnusedLabels") {
            Ok(v) => v,
            Err(e) => return Err(e),
        };
        let assume_changes_only_affect_direct_dependencies = match bool_field(es, "assumeChangesOnlyAffectDirectDependencies") {
            Ok(v) => v,
            Err(e) => return Err(e),
        };
        let charset = match string_field(es, "charset") {
            Ok(v) => v,
            Err(e) => return Err(e),
        };
        let declaration_dir = match string_field(es, "declarationDir") {
            Ok(v) => v,
            Err(e) => return Err(e),
        };
        let diagnostics = match bool_field(es, "diagnostics") {
            Ok(v) => v,
            Err(e) => return Err(e),
        };
        let disable_referenced_project_load = match bool_field(es, "disableReferencedProjectLoad") {
            Ok(v) => v,
            Err(e) => return Err(e),
        };
        let disable_size_limit = match bool_field(es, "disableSizeLimit") {
            Ok(v) => v,
            Err(e) => return Err(e),
        };
        let disable_solution_searching = match bool_field(es, "disableSolutionSearching") {
            Ok(v) => v,
            Err(e) => return Err(e),
        };
        let disable_source_of_project_reference_redirect = match bool_field(es, "disableSourceOfProjectReferenceRedirect") {
            Ok(v) => v,
            Err(e) => return Err(e),
        };
        let emit_bom = match bool_field(es, "emitBOM") {
            Ok(v) => v,
            Err(e) => return Err(e),
        };
        let emit_declaration_only = match bool_field(es, "emitDeclarationOnly") {
            Ok(v) => v,
            Err(e) => return Err(e),
        };
        let explain_files = match bool_field(es, "explainFiles") {
            Ok(v) => v,
            Err(e) => return Err(e),
        };
        let extended_diagnostics = match bool_field(es, "extendedDiagnostics") {
            Ok(v) => v,
            Err(e) => return Err(e),
        };
        let force_consistent_casing_in_file_names = match bool_field(es, "forceConsistentCasingInFileNames") {
            Ok(v) => v,
            Err(e) => return Err(e),
        };
        let generate_cpu_profile = match bool_field(es, "generateCpuProfile") {
            Ok(v) => v,
            Err(e) => return Err(e),
        };
        let imports_not_used_as_values = match string_field(es, "importsNotUsedAsValues") {
            Ok(v) => v,
            Err(e) => return Err(e),
        };
        let jsx_factory = match string_field(es, "jsxFactory") {
            Ok(v) => v,
            Err(e) => return Err(e),
        };
        let jsx_fragment_factory = match string_field(es, "jsxFragmentFactory") {
            Ok(v) => v,
            Err(e) => return Err(e),
        };
        let jsx_import_source = match string_field(es, "jsxImportSource") {
            Ok(v) => v,
            Err(e) => return Err(e),
        };
        let keyof_strings_only = match bool_field(es, "keyofStringsOnly") {
            Ok(v) => v,
            Err(e) => return Err(e),
        };
        let list_emitted_files = match bool_field(es, "listEmittedFiles") {
            Ok(v) => v,
            Err(e) => return Err(e),
        };
        let list_files = match bool_field(es, "listFiles") {
            Ok(v) => v,
            Err(e) => return Err(e),
        };
        let max_node_module_js_depth = match u32_field(es, "maxNodeModuleJsDepth") {
            Ok(v) => v,
            Err(e) => return Err(e),
        };
        let no_emit_helpers = match bool_field(es, "noEmitHelpers") {
            Ok(v) => v,
            Err(e) => return Err(e),
        };
        let no_emit_on_error = match bool_field(es, "noEmitOnError") {
            Ok(v) => v,
            Err(e) => return Err(e),
        };
        let no_error_truncation = match bool_field(es, "noErrorTruncation") {
            Ok(v) => v,
            Err(e) => return Err(e),
        };
        let no_implicit_use_strict = match bool_field(es, "noImplicitUseStrict") {
            Ok(v) => v,
            Err(e) => return Err(e),
        };
        let no_lib = match bool_field(es, "noLib") {
            Ok(v) => v,
            Err(e) => return Err(e),
        };
        let no_resolve = match bool_field(es, "noResolve") {
            Ok(v) => v,
            Err(e) => return Err(e),
        };
        let no_strict_generic_checks = match bool_field(es, "noStrictGenericChecks") {
            Ok(v) => v,
            Err(e) => return Err(e),
        };
        let out = match string_field(es, "out") {
            Ok(v) => v,
            Err(e) => return Err(e),
        };
        let preserve_const_enums = match bool_field(es, "preserveConstEnums") {
            Ok(v) => v,
            Err(e) => return Err(e),
        };
        let react_namespace = match string_field(es, "reactNamespace") {
            Ok(v) => v,
            Err(e) => return Err(e),
        };
        let resolve_json_module = match bool_field(es, "resolveJsonModule") {
            Ok(v) => v,
            Err(e) => return Err(e),
        };
        let skip_default_lib_check = match bool_field(es, "skipDefaultLibCheck") {
            Ok(v) => v,
            Err(e) => return Err(e),
        };
        let skip_lib_check = match bool_field(es, "skipLibCheck") {
            Ok(v) => v,
            Err(e) => return Err(e),
        };
        let strip_internal = match bool_field(es, "stripInternal") {
            Ok(v) => v,
            Err(e) => return Err(e),
        };
        let suppress_excess_property_errors = match bool_field(es, "suppressExcessPropertyErrors") {
            Ok(v) => v,
            Err(e) => return Err(e),
        };
        let suppress_implicit_any_index_errors = match bool_field(es, "suppressImplicitAnyIndexErrors") {
            Ok(v) => v,
            Err(e) => return Err(e),
        };
        let trace_resolution = match bool_field(es, "traceResolution") {
            Ok(v) => v,
            Err(e) => return Err(e),
        };
        let use_define_for_class_fields = match bool_field(es, "useDefineForClassFields") {
            Ok(v) => v,
            Err(e) => return Err(e),
        };
        let preserve_watch_output = match bool_field(es, "preserveWatchOutput") {
            Ok(v) => v,
            Err(e) => return Err(e),
        };
        let pretty = match bool_field(es, "pretty") {
            Ok(v) => v,
            Err(e) => return Err(e),
        };
        let fallback_polling = match string_field(es, "fallbackPolling") {
            Ok(v) => v,
            Err(e) => return Err(e),
        };
        let watch_directory = match string_field(es, "watchDirectory") {
            Ok(v) => v,
            Err(e) => return Err(e),
        };
        let watch_file = match string_field(es, "watchFile") {
            Ok(v) => v,
            Err(e) => return Err(e),
        };
        Ok(CompilerOptions {
            allow_js,
            check_js,
            composite,
            declaration,
            declaration_map,
            downlevel_iteration,
            import_helpers,
            incremental,
            isolated_modules,
            jsx,
            lib,
            module,
            no_emit,
            out_dir,
            out_file,
            remove_comments,
            root_dir,
            source_map,
            target,
            ts_build_info_file,
            always_strict,
            no_implicit_any,
            no_implicit_this,
            strict,
            strict_bind_call_apply,
            strict_function_types,
            strict_null_checks,
            strict_property_initialization,
            allow_synthetic_default_imports,
            allow_umd_global_access,
            base_url,
            es_module_interop,
            module_resolution,
            paths,
            preserve_symlinks,
            root_dirs,
            type_roots,
            types,
            inline_source_map,
            inline_sources,
            map_root,
            source_root,
            no_fallthrough_cases_in_switch,
            no_implicit_returns,
            no_property_access_from_index_signature,
            no_unchecked_indexed_access,
            no_unused_locals,
            emit_decorator_metadata,
            experimental_decorators,
            allow_unreachable_code,
            allow_unused_labels,
            assume_changes_only_affect_direct_dependencies,
            charset,
            declaration_dir,
            diagnostics,
            disable_referenced_project_load,
            disable_size_limit,
            disable_solution_searching,
            disable_source_of_project_reference_redirect,
            emit_bom,
            emit_declaration_only,
            explain_files,
            extended_diagnostics,
            force_consistent_casing_in_file_names,
            generate_cpu_profile,
            imports_not_used_as_values,
            jsx_factory,
            jsx_fragment_factory,
            jsx_import_source,
            keyof_strings_only,
            list_emitted_files,
            list_files,
            max_node_module_js_depth,
            no_emit_helpers,
            no_emit_on_error,
            no_error_truncation,
            no_implicit_use_strict,
            no_lib,
            no_resolve,
            no_strict_generic_checks,
            out,
            preserve_const_enums,
            react_namespace,
            resolve_json_module,
            skip_default_lib_check,
            skip_lib_check,
            strip_internal,
            suppress_excess_property_errors,
            suppress_implicit_any_index_errors,
            trace_resolution,
            use_define_for_class_fields,
            preserve_watch_output,
            pretty,
            fallback_polling,
            watch_directory,
            watch_file,
        })
    }
}

/// One project reference.
#[derive(Debug, Clone)]
pub struct Reference {
    pub path: String,
    pub prepend: Option<bool>,
}

/// The `references` field: a flag, or a list of project references.
#[derive(Debug, Clone)]
pub enum References {
    Bool(bool),
    References(Vec<Reference>),
}

/// The `typeAcquisition` field: a flag, or its settings.
#[derive(Debug, Clone)]
pub enum TypeAcquisition {
    Bool(bool),
    Object {
        enable: bool,
        includes: Option<Vec<String>>,
        exclude: Option<Vec<String>>,
        disable_filename_based_type_acquisition: Option<bool>,
    },
}

/// A project configuration document. Every field is optional.
#[derive(Debug, Clone)]
pub struct TsConfig {
    pub exclude: Option<Vec<String>>,
    pub extends: Option<String>,
    pub files: Option<Vec<String>>,
    /// The `include` key: patterns of files that belong to the project.
    pub includes: Option<Vec<String>>,
    pub references: Option<References>,
    pub type_acquisition: Option<TypeAcquisition>,
    pub compiler_options: Option<CompilerOptions>,
}

/// A reference object: a required string `path` and an optional `prepend`.
pub open spec fn reference_shape(j: Json) -> Option<(Seq<char>, Option<bool>)> {
    match j {
        Json::Object(m) => match (lookup(m, "path"@), bool_shape(lookup(m, "prepend"@))) {
            (Some(Json::Str(p)), Some(pp)) => Some((p, pp)),
            _ => None,
        },
        _ => None,
    }
}

/// The references of `items`, or `None` where one has the wrong shape.
pub open spec fn references_of(items: Seq<Json>) -> Option<Seq<(Seq<char>, Option<bool>)>>
    decreases items.len(),
{
    if items.len() == 0 {
        Some(Seq::empty())
    } else {
        match (references_of(items.drop_last()), reference_shape(items.last())) {
            (Some(init), Some(x)) => Some(init.push(x)),
            _ => None,
        }
    }
}

pub open spec fn view_reference(r: Reference) -> (Seq<char>, Option<bool>) {
    (r.path@, r.prepend)
}

pub open spec fn references_fit(j: Option<Json>) -> bool {
    match j {
        None | Some(Json::Null) | Some(Json::Bool(_)) => true,
        Some(Json::Array(items)) => references_of(items) is Some,
        _ => false,
    }
}

pub open spec fn references_agree(r: Option<References>, j: Option<Json>) -> bool {
    match j {
        None | Some(Json::Null) => r is None,
        Some(Json::Bool(b)) => r == Some(References::Bool(b)),
        Some(Json::Array(items)) => r matches Some(References::References(v)) && references_of(
            items,
        ) == Some(v@.map_values(|x: Reference| view_reference(x))),
        _ => false,
    }
}

pub open spec fn type_acquisition_fit(j: Option<Json>) -> bool {
    match j {
        None | Some(Json::Null) | Some(Json::Bool(_)) => true,
        Some(Json::Object(m)) => {
            &&& lookup(m, "enable"@) matches Some(Json::Bool(_))
            &&& string_list_shape(lookup(m, "include"@)) is Some
            &&& string_list_shape(lookup(m, "exclude"@)) is Some
            &&& bool_shape(lookup(m, "disableFilenameBasedTypeAcquisition"@)) is Some
        },
        _ => false,
    }
}

pub open spec fn type_acquisition_agree(r: Option<TypeAcquisition>, j: Option<Json>) -> bool {
    match j {
        None | Some(Json::Null) => r is None,
        Some(Json::Bool(b)) => r == Some(TypeAcquisition::Bool(b)),
        Some(Json::Object(m)) => match r {
            Some(
                TypeAcquisition::Object {
                    enable,
                    includes,
                    exclude,
                    disable_filename_based_type_acquisition,
                },
            ) => {
                &&& lookup(m, "enable"@) == Some(Json::Bool(enable))
                &&& string_list_shape(lookup(m, "include"@)) == Some(view_opt_strings(includes))
                &&& string_list_shape(lookup(m, "exclude"@)) == Some(view_opt_strings(exclude))
                &&& bool_shape(lookup(m, "disableFilenameBasedTypeAcquisition"@)) == Some(
                    disable_filename_based_type_acquisition,
                )
            },
            _ => false,
        },
        _ => false,
    }
}

pub open spec fn compiler_options_entry_fit(j: Option<Json>) -> bool {
    match j {
        None | Some(Json::Null) => true,
        Some(Json::Object(m)) => compiler_options_fit(m),
        _ => false,
    }
}

pub open spec fn compiler_options_entry_agree(r: Option<CompilerOptions>, j: Option<Json>) -> bool {
    match j {
        None | Some(Json::Null) => r is None,
        Some(Json::Object(m)) => r matches Some(c) && compiler_options_agree(c, m),
        _ => false,
    }
}

/// The value `j` can be read as a configuration document: it is an object
/// and each known key holds a value of its shape.
pub open spec fn ts_config_fit(j: Json) -> bool {
    match j {
        Json::Object(m) => {
            &&& string_list_shape(lookup(m, "exclude"@)) is Some
            &&& string_shape(lookup(m, "extends"@)) is Some
            &&& string_list_shape(lookup(m, "files"@)) is Some
            &&& string_list_shape(lookup(m, "include"@)) is Some
            &&& references_fit(lookup(m, "references"@))
            &&& type_acquisition_fit(lookup(m, "typeAcquisition"@))
            &&& compiler_options_entry_fit(lookup(m, "compilerOptions"@))
        },
        _ => false,
    }
}

/// Each field of `c` holds what the object `j` gives for its key.
pub open spec fn ts_config_agree(c: TsConfig, j: Json) -> bool {
    match j {
        Json::Object(m) => {
            &&& string_list_shape(lookup(m, "exclude"@)) == Some(view_opt_strings(c.exclude))
            &&& string_shape(lookup(m, "extends"@)) == Some(view_opt_string(c.extends))
            &&& string_list_shape(lookup(m, "files"@)) == Some(view_opt_strings(c.files))
            &&& string_list_shape(lookup(m, "include"@)) == Some(view_opt_strings(c.includes))
            &&& references_agree(c.references, lookup(m, "references"@))
            &&& type_acquisition_agree(c.type_acquisition, lookup(m, "typeAcquisition"@))
            &&& compiler_options_entry_agree(c.compiler_options, lookup(m, "compilerOptions"@))
        },
        _ => false,
    }
}

impl Reference {
    /// Reads one project reference.
    pub fn from_json(v: &JsonValue) -> (r: Option<Reference>)
        ensures
            match reference_shape(v@) {
                Some(x) => r matches Some(y) && view_reference(y) == x,
                None => r is None,
            },
    {
        match v {
            JsonValue::Object(es) => {
                let path = match get(es, "path") {
                    Some(JsonValue::String(p)) => p.clone(),
                    _ => return None,
                };
                match bool_field(es, "prepend") {
                    Ok(prepend) => Some(Reference { path, prepend }),
                    Err(_) => None,
                }
            },
            _ => None,
        }
    }
}

/// Where a prefix holds a malformed reference, so does the whole list.
proof fn lemma_references_of_prefix(m: Seq<Json>, n: int)
    requires
        0 <= n <= m.len(),
        references_of(m.subrange(0, n)) is None,
    ensures
        references_of(m) is None,
    decreases m.len() - n,
{
    if n < m.len() {
        assert(m.subrange(0, n + 1).drop_last() == m.subrange(0, n));
        lemma_references_of_prefix(m, n + 1);
    } else {
        assert(m.subrange(0, n) == m);
    }
}

impl References {
    /// Reads the `references` field: a flag first, else a list of references.
    pub fn from_json(v: &JsonValue) -> (r: Result<References, ConfigError>)
        ensures
            references_fit(Some(v@)) && !(v@ is Null) ==> (r matches Ok(x) && references_agree(
                Some(x),
                Some(v@),
            )),
            !references_fit(Some(v@)) ==> r matches Err(ConfigError::SchemaError(_)),
    {
        match v {
            JsonValue::Bool(b) => Ok(References::Bool(*b)),
            JsonValue::Array(items) => {
                let ghost m = items@.map_values(|x: JsonValue| x@);
                proof {
                    crate::fields::lemma_items_map(items@);
                }
                let mut out: Vec<Reference> = Vec::new();
                let mut i: usize = 0;
                while i < items.len()
                    invariant
                        i <= items.len(),
                        m == items@.map_values(|x: JsonValue| x@),
                        v@ == Json::Array(m),
                        references_of(m.subrange(0, i as int)) == Some(
                            out@.map_values(|x: Reference| view_reference(x)),
                        ),
                    decreases items.len() - i,
                {
                    assert(m.subrange(0, i as int + 1).drop_last() == m.subrange(0, i as int));
                    assert(m.subrange(0, i as int + 1).last() == items@[i as int]@);
                    match Reference::from_json(&items[i]) {
                        Some(x) => {
                            let ghost before = out@;
                            out.push(x);
                            assert(out@.map_values(|x: Reference| view_reference(x)) =~= before.map_values(
                                |x: Reference| view_reference(x),
                            ).push(view_reference(x)));
                        },
                        None => {
                            proof {
                                lemma_references_of_prefix(m, i as int + 1);
                            }
                            return Err(schema_error("references"));
                        },
                    }
                    i = i + 1;
                }
                assert(m.subrange(0, i as int) == m);
                Ok(References::References(out))
            },
            _ => Err(schema_error("references")),
        }
    }
}

impl TypeAcquisition {
    /// Reads the `typeAcquisition` field: a flag first, else its settings.
    pub fn from_json(v: &JsonValue) -> (r: Result<TypeAcquisition, ConfigError>)
        ensures
            type_acquisition_fit(Some(v@)) && !(v@ is Null) ==> (r matches Ok(x)
                && type_acquisition_agree(Some(x), Some(v@))),
            !type_acquisition_fit(Some(v@)) ==> r matches Err(ConfigError::SchemaError(_)),
    {
        match v {
            JsonValue::Bool(b) => Ok(TypeAcquisition::Bool(*b)),
            JsonValue::Object(es) => {
                let enable = match get(es, "enable") {
                    Some(JsonValue::Bool(b)) => *b,
                    _ => return Err(schema_error("enable")),
                };
                let includes = match string_list_field(es, "include") {
                    Ok(x) => x,
                    Err(e) => return Err(e),
                };
                let exclude = match string_list_field(es, "exclude") {
                    Ok(x) => x,
                    Err(e) => return Err(e),
                };
                let disable_filename_based_type_acquisition = match bool_field(
                    es,
                    "disableFilenameBasedTypeAcquisition",
                ) {
                    Ok(x) => x,
                    Err(e) => return Err(e),
                };
                Ok(
                    TypeAcquisition::Object {
                        enable,
                        includes,
                        exclude,
                        disable_filename_based_type_acquisition,
                    },
                )
            },
            _ => Err(schema_error("typeAcquisition")),
        }
    }
}

impl TsConfig {
    /// Maps a structured value to the typed configuration. Unknown keys are
    /// ignored; it fails with a schema error exactly where the value is not
    /// an object or a known key holds a value of the wrong shape.
    pub fn from_json(v: &JsonValue) -> (r: Result<TsConfig, ConfigError>)
        ensures
            r is Ok <==> ts_config_fit(v@),
            match r {
                Ok(c) => ts_config_agree(c, v@),
                Err(e) => e is SchemaError,
            },
    {
        let es = match v {
            JsonValue::Object(es) => es,
            _ => return Err(schema_error("configuration")),
        };
        let exclude = match string_list_field(es, "exclude") {
            Ok(x) => x,
            Err(e) => return Err(e),
        };
        let extends = match string_field(es, "extends") {
            Ok(x) => x,
            Err(e) => return Err(e),
        };
        let files = match string_list_field(es, "files") {
            Ok(x) => x,
            Err(e) => return Err(e),
        };
        let includes = match string_list_field(es, "include") {
            Ok(x) => x,
            Err(e) => return Err(e),
        };
        let references = match get(es, "references") {
            None | Some(JsonValue::Null) => None,
            Some(x) => match References::from_json(x) {
                Ok(y) => Some(y),
                Err(e) => return Err(e),
            },
        };
        let type_acquisition = match get(es, "typeAcquisition") {
            None | Some(JsonValue::Null) => None,
            Some(x) => match TypeAcquisition::from_json(x) {
                Ok(y) => Some(y),
                Err(e) => return Err(e),
            },
        };
        let compiler_options = match get(es, "compilerOptions") {
            None | Some(JsonValue::Null) => None,
            Some(JsonValue::Object(co)) => match CompilerOptions::from_entries(co) {
                Ok(y) => Some(y),
                Err(e) => return Err(e),
            },
            Some(_) => return Err(schema_error("compilerOptions")),
        };
        Ok(
            TsConfig {
                exclude,
                extends,
                files,
                includes,
                references,
                type_acquisition,
                compiler_options,
            },
        )
    }
}

/// The keys that the document level reads.
pub open spec fn is_document_key(k: Seq<char>) -> bool {
    k == "exclude"@
        || k == "extends"@
        || k == "files"@
        || k == "include"@
        || k == "references"@
        || k == "typeAcquisition"@
        || k == "compilerOptions"@
}

/// The keys that the compiler options read.
pub open spec fn is_compiler_option_key(k: Seq<char>) -> bool {
    k == "allowJs"@
        || k == "checkJs"@
        || k == "composite"@
        || k == "declaration"@
        || k == "declarationMap"@
        || k == "downlevelIteration"@
        || k == "importHelpers"@
        || k == "incremental"@
        || k == "isolatedModules"@
        || k == "jsx"@
        || k == "lib"@
        || k == "module"@
        || k == "noEmit"@
        || k == "outDir"@
        || k == "outFile"@
        || k == "removeComments"@
        || k == "rootDir"@
        || k == "sourceMap"@
        || k == "target"@
        || k == "tsBuildInfoFile"@
        || k == "alwaysStrict"@
        || k == "noImplicitAny"@
        || k == "noImplicitThis"@
        || k == "strict"@
        || k == "strictBindCallApply"@
        || k == "strictFunctionTypes"@
        || k == "strictNullChecks"@
        || k == "strictPropertyInitialization"@
        || k == "allowSyntheticDefaultImports"@
        || k == "allowUmdGlobalAccess"@
        || k == "baseUrl"@
        || k == "esModuleInterop"@
        || k == "moduleResolution"@
        || k == "paths"@
        || k == "preserveSymlinks"@
        || k == "rootDirs"@
        || k == "typeRoots"@
        || k == "types"@
        || k == "inlineSourceMap"@
        || k == "inlineSources"@
        || k == "mapRoot"@
        || k == "sourceRoot"@
        || k == "noFallthroughCasesInSwitch"@
        || k == "noImplicitReturns"@
        || k == "noPropertyAccessFromIndexSignature"@
        || k == "noUncheckedIndexedAccess"@
        || k == "noUnusedLocals"@
        || k == "emitDecoratorMetadata"@
        || k == "experimentalDecorators"@
        || k == "allowUnreachableCode"@
        || k == "allowUnusedLabels"@
        || k == "assumeChangesOnlyAffectDirectDependencies"@
        || k == "charset"@
        || k == "declarationDir"@
        || k == "diagnostics"@
        || k == "disableReferencedProjectLoad"@
        || k == "disableSizeLimit"@
        || k == "disableSolutionSearching"@
        || k == "disableSourceOfProjectReferenceRedirect"@
        || k == "emitBOM"@
        || k == "emitDeclarationOnly"@
        || k == "explainFiles"@
        || k == "extendedDiagnostics"@
        || k == "forceConsistentCasingInFileNames"@
        || k == "generateCpuProfile"@
        || k == "importsNotUsedAsValues"@
        || k == "jsxFactory"@
        || k == "jsxFragmentFactory"@
        || k == "jsxImportSource"@
        || k == "keyofStringsOnly"@
        || k == "listEmittedFiles"@
        || k == "listFiles"@
        || k == "maxNodeModuleJsDepth"@
        || k == "noEmitHelpers"@
        || k == "noEmitOnError"@
        || k == "noErrorTruncation"@
        || k == "noImplicitUseStrict"@
        || k == "noLib"@
        || k == "noResolve"@
        || k == "noStrictGenericChecks"@
        || k == "out"@
        || k == "preserveConstEnums"@
        || k == "reactNamespace"@
        || k == "resolveJsonModule"@
        || k == "skipDefaultLibCheck"@
        || k == "skipLibCheck"@
        || k == "stripInternal"@
        || k == "suppressExcessPropertyErrors"@
        || k == "suppressImplicitAnyIndexErrors"@
        || k == "traceResolution"@
        || k == "useDefineForClassFields"@
        || k == "preserveWatchOutput"@
        || k == "pretty"@
        || k == "fallbackPolling"@
        || k == "watchDirectory"@
        || k == "watchFile"@
}

/// Adding an entry, at any position, under a key that the document level
/// does not read changes neither whether the document maps nor what it
/// maps to.
pub proof fn lemma_unknown_key_ignored(m: Seq<(Seq<char>, Json)>, i: int, e: (Seq<char>, Json))
    requires
        0 <= i <= m.len(),
        !is_document_key(e.0),
    ensures
        ts_config_fit(Json::Object(m.insert(i, e))) == ts_config_fit(Json::Object(m)),
        forall|c: TsConfig|
            #[trigger] ts_config_agree(c, Json::Object(m.insert(i, e))) == ts_config_agree(
                c,
                Json::Object(m),
            ),
{
    assert forall|key: Seq<char>| key != e.0 implies #[trigger] lookup(m.insert(i, e), key)
        == lookup(m, key) by {
        lemma_lookup_insert_other(m, i, e, key);
    }
}

/// Adding an entry, at any position, under a key that the compiler
/// options do not read changes neither whether they map nor what they map
/// to.
pub proof fn lemma_unknown_option_ignored(m: Seq<(Seq<char>, Json)>, i: int, e: (Seq<char>, Json))
    requires
        0 <= i <= m.len(),
        !is_compiler_option_key(e.0),
    ensures
        compiler_options_fit(m.insert(i, e)) == compiler_options_fit(m),
        forall|c: CompilerOptions|
            #[trigger] compiler_options_agree(c, m.insert(i, e)) == compiler_options_agree(c, m),
{
    assert forall|key: Seq<char>| key != e.0 implies #[trigger] lookup(m.insert(i, e), key)
        == lookup(m, key) by {
        lemma_lookup_insert_other(m, i, e, key);
    }
}

} // verus!
