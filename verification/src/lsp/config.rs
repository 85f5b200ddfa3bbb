//! Client-facing settings of the language service. The client sends them as
//! JSON; deserializing is the application's job, the defaults and the derived
//! switches are stated here.

use vstd::prelude::*;

verus! {

/// What the connected editor client is capable of.
#[derive(Debug, Clone, Default)]
pub struct ClientCapabilities {
    pub code_action_disabled_support: bool,
    pub line_folding_only: bool,
    pub snippet_support: bool,
    pub status_notification: bool,
    /// The client provides the testing API and wants notifications about
    /// tests discovered in modules.
    pub testing_api: bool,
    pub workspace_configuration: bool,
    pub workspace_did_change_watched_files: bool,
}

/// Which code lenses the workspace shows.
#[derive(Debug, Clone, PartialEq, Eq)]
pub struct CodeLensSettings {
    /// Provide implementation code lenses.
    pub implementations: bool,
    /// Provide reference code lenses.
    pub references: bool,
    /// Provide reference code lenses on all functions; effective only
    /// together with `references`.
    pub references_all_functions: bool,
    /// Provide test code lenses on test declarations.
    pub test: bool,
}

impl Default for CodeLensSettings {
    /// Only test code lenses are on by default.
    fn default() -> (r: Self)
        ensures
            !r.implementations,
            !r.references,
            !r.references_all_functions,
            r.test,
    {
        Self { implementations: false, references: false, references_all_functions: false, test: true }
    }
}

/// Code-lens settings applied to a single document.
#[derive(Debug, Clone, PartialEq, Eq)]
pub struct CodeLensSpecifierSettings {
    /// Provide test code lenses on test declarations.
    pub test: bool,
}

impl Default for CodeLensSpecifierSettings {
    fn default() -> (r: Self)
        ensures
            r.test,
    {
        Self { test: true }
    }
}

/// Completion behaviour of the workspace.
#[derive(Debug, Clone, PartialEq, Eq)]
pub struct CompletionSettings {
    pub complete_function_calls: bool,
    pub names: bool,
    pub paths: bool,
    pub auto_imports: bool,
    pub imports: ImportCompletionSettings,
}

impl Default for CompletionSettings {
    fn default() -> (r: Self)
        ensures
            !r.complete_function_calls,
            r.names,
            r.paths,
            r.auto_imports,
            r.imports.auto_discover,
    {
        Self {
            complete_function_calls: false,
            names: true,
            paths: true,
            auto_imports: true,
            imports: ImportCompletionSettings::default(),
        }
    }
}

/// Which inlay hints the workspace shows.
#[derive(Debug, Clone, PartialEq, Eq)]
pub struct InlayHintsSettings {
    pub parameter_names: InlayHintsParamNamesOptions,
    pub parameter_types: InlayHintsParamTypesOptions,
    pub variable_types: InlayHintsVarTypesOptions,
    pub property_declaration_types: InlayHintsPropDeclTypesOptions,
    pub function_like_return_types: InlayHintsFuncLikeReturnTypesOptions,
    pub enum_member_values: InlayHintsEnumMemberValuesOptions,
}

/// Inlay hints for parameter names.
#[derive(Debug, Clone, PartialEq, Eq)]
pub struct InlayHintsParamNamesOptions {
    pub enabled: InlayHintsParamNamesEnabled,
    pub suppress_when_argument_matches_name: bool,
}

impl Default for InlayHintsSettings {
    /// Every hint off, with the nested defaults.
    fn default() -> (r: Self)
        ensures
            r.parameter_names.enabled is Disabled,
            r.parameter_names.suppress_when_argument_matches_name,
            !r.parameter_types.enabled,
            !r.variable_types.enabled,
            r.variable_types.suppress_when_type_matches_name,
            !r.property_declaration_types.enabled,
            !r.function_like_return_types.enabled,
            !r.enum_member_values.enabled,
    {
        InlayHintsSettings {
            parameter_names: InlayHintsParamNamesOptions {
                enabled: InlayHintsParamNamesEnabled::Disabled,
                suppress_when_argument_matches_name: true,
            },
            parameter_types: InlayHintsParamTypesOptions { enabled: false },
            variable_types: InlayHintsVarTypesOptions {
                enabled: false,
                suppress_when_type_matches_name: true,
            },
            property_declaration_types: InlayHintsPropDeclTypesOptions { enabled: false },
            function_like_return_types: InlayHintsFuncLikeReturnTypesOptions { enabled: false },
            enum_member_values: InlayHintsEnumMemberValuesOptions { enabled: false },
        }
    }
}

impl Default for InlayHintsParamNamesOptions {
    fn default() -> (r: Self)
        ensures
            r.enabled is Disabled,
            r.suppress_when_argument_matches_name,
    {
        Self {
            enabled: InlayHintsParamNamesEnabled::Disabled,
            suppress_when_argument_matches_name: true,
        }
    }
}

/// For which arguments parameter-name hints appear.
#[derive(Debug, Clone, PartialEq, Eq, Structural)]
pub enum InlayHintsParamNamesEnabled {
    Disabled,
    Literals,
    All,
}

impl Default for InlayHintsParamNamesEnabled {
    fn default() -> (r: Self)
        ensures
            r is Disabled,
    {
        Self::Disabled
    }
}

/// Inlay hints for parameter types.
#[derive(Debug, Clone, Default, PartialEq, Eq)]
pub struct InlayHintsParamTypesOptions {
    pub enabled: bool,
}

/// Inlay hints for variable types.
#[derive(Debug, Clone, PartialEq, Eq)]
pub struct InlayHintsVarTypesOptions {
    pub enabled: bool,
    pub suppress_when_type_matches_name: bool,
}

impl Default for InlayHintsVarTypesOptions {
    fn default() -> (r: Self)
        ensures
            !r.enabled,
            r.suppress_when_type_matches_name,
    {
        Self { enabled: false, suppress_when_type_matches_name: true }
    }
}

/// Inlay hints for property declaration types.
#[derive(Debug, Clone, Default, PartialEq, Eq)]
pub struct InlayHintsPropDeclTypesOptions {
    pub enabled: bool,
}

/// Inlay hints for function-like return types.
#[derive(Debug, Clone, Default, PartialEq, Eq)]
pub struct InlayHintsFuncLikeReturnTypesOptions {
    pub enabled: bool,
}

/// Inlay hints for enum member values.
#[derive(Debug, Clone, Default, PartialEq, Eq)]
pub struct InlayHintsEnumMemberValuesOptions {
    pub enabled: bool,
}

/// Import-suggestion behaviour.
#[derive(Debug, Clone, PartialEq, Eq)]
pub struct ImportCompletionSettings {
    /// Whether origins not explicitly configured are probed for import
    /// suggestions.
    pub auto_discover: bool,
    /// Origins with an explicit import-suggestion switch.
    pub hosts: Vec<(String, bool)>,
}

impl Default for ImportCompletionSettings {
    fn default() -> (r: Self)
        ensures
            r.auto_discover,
            r.hosts@.len() == 0,
    {
        Self { auto_discover: true, hosts: Vec::new() }
    }
}

/// Settings applied to one document.
#[derive(Debug, Default, Clone, PartialEq, Eq)]
pub struct SpecifierSettings {
    /// Whether the language service is enabled for this document.
    pub enable: bool,
    /// Paths, under the workspace folder, that the service is enabled for.
    pub enable_paths: Vec<String>,
    /// Code-lens settings for the document.
    pub code_lens: CodeLensSpecifierSettings,
}

/// Test-running behaviour of the workspace.
#[derive(Debug, Clone, PartialEq, Eq)]
pub struct TestingSettings {
    /// Arguments used when running workspace tests.
    pub args: Vec<String>,
    /// Whether the testing API is used when the client supports it.
    pub enable: bool,
}

impl Default for TestingSettings {
    fn default() -> (r: Self)
        ensures
            r.args@.len() == 2,
            r.args@[0]@ == "--allow-all"@,
            r.args@[1]@ == "--no-check"@,
            r.enable,
    {
        let args: Vec<String> = vec![
            String::from_str("--allow-all"),
            String::from_str("--no-check"),
        ];
        Self { args, enable: true }
    }
}

/// Settings applied to a whole workspace.
#[derive(Debug, Clone, PartialEq, Eq)]
pub struct WorkspaceSettings {
    /// Whether the language service is enabled for the workspace.
    pub enable: bool,
    /// Paths, under the root, that the service is enabled for.
    pub enable_paths: Vec<String>,
    /// Cache directory used by the language service.
    pub cache: Option<String>,
    /// Overrides of the default certificate stores.
    pub certificate_stores: Option<Vec<String>>,
    /// Path of the configuration file applied to the workspace.
    pub config: Option<String>,
    /// Path of the import map applied to the workspace.
    pub import_map: Option<String>,
    /// Code-lens settings.
    pub code_lens: CodeLensSettings,
    /// Inlay-hint settings.
    pub inlay_hints: InlayHintsSettings,
    /// Whether internal debug logging is on.
    pub internal_debug: bool,
    /// Whether linting is on.
    pub lint: bool,
    /// How many files the service may preload.
    pub document_preload_limit: usize,
    /// Completion settings.
    pub suggest: CompletionSettings,
    /// Testing settings.
    pub testing: TestingSettings,
    /// Certificate file used when fetching remote resources.
    pub tls_certificate: Option<String>,
    /// Hosts whose certificate errors are unsafely ignored.
    pub unsafely_ignore_certificate_errors: Option<Vec<String>>,
    /// Whether code is validated against the unstable APIs.
    pub unstable: bool,
}

impl Default for WorkspaceSettings {
    /// Disabled everywhere, linting on, a preload limit of a thousand files,
    /// and the defaults of every nested setting.
    fn default() -> (r: Self)
        ensures
            !r.enable,
            r.enable_paths@.len() == 0,
            r.cache is None,
            r.certificate_stores is None,
            r.config is None,
            r.import_map is None,
            !r.internal_debug,
            r.lint,
            r.document_preload_limit == 1000,
            r.tls_certificate is None,
            r.unsafely_ignore_certificate_errors is None,
            !r.unstable,
            !r.code_lens.implementations,
            !r.code_lens.references,
            r.code_lens.test,
            r.inlay_hints.parameter_names.enabled is Disabled,
            !r.inlay_hints.parameter_types.enabled,
            !r.inlay_hints.variable_types.enabled,
            !r.inlay_hints.property_declaration_types.enabled,
            !r.inlay_hints.function_like_return_types.enabled,
            !r.inlay_hints.enum_member_values.enabled,
    {
        WorkspaceSettings {
            enable: false,
            enable_paths: Vec::new(),
            cache: None,
            certificate_stores: None,
            config: None,
            import_map: None,
            code_lens: CodeLensSettings::default(),
            inlay_hints: InlayHintsSettings::default(),
            internal_debug: false,
            lint: true,
            document_preload_limit: 1000,
            suggest: CompletionSettings::default(),
            testing: TestingSettings::default(),
            tls_certificate: None,
            unsafely_ignore_certificate_errors: None,
            unstable: false,
        }
    }
}

impl WorkspaceSettings {
    /// Whether any code lens is enabled at all, for short-circuiting when
    /// none is.
    pub fn enabled_code_lens(&self) -> (r: bool)
        ensures
            r == (self.code_lens.implementations || self.code_lens.references),
    {
        self.code_lens.implementations || self.code_lens.references
    }

    /// Whether any inlay hint is enabled at all, for short-circuiting when
    /// none is.
    pub fn enabled_inlay_hints(&self) -> (r: bool)
        ensures
            r == (!(self.inlay_hints.parameter_names.enabled is Disabled)
                || self.inlay_hints.parameter_types.enabled
                || self.inlay_hints.variable_types.enabled
                || self.inlay_hints.property_declaration_types.enabled
                || self.inlay_hints.function_like_return_types.enabled
                || self.inlay_hints.enum_member_values.enabled),
    {
        !(matches!(self.inlay_hints.parameter_names.enabled, InlayHintsParamNamesEnabled::Disabled))
            || self.inlay_hints.parameter_types.enabled || self.inlay_hints.variable_types.enabled
            || self.inlay_hints.property_declaration_types.enabled
            || self.inlay_hints.function_like_return_types.enabled
            || self.inlay_hints.enum_member_values.enabled
    }
}

} // verus!
