//! Configuration-file data: the file sets, lint, format, test and bench
//! sections, and the compiler-option shapes read out of a configuration file.
//! Reading and deserializing the file is the application's job; the choices
//! between flat and nested (deprecated) sections, and the merging of file
//! sets, are made here. Paths are held as plain strings.

use vstd::prelude::*;

verus! {

/// The JSX import source configuration resolved from compiler options.
#[derive(Hash)]
pub struct JsxImportSourceConfig {
    pub default_specifier: Option<String>,
    pub module: String,
}

/// The transpile options that are significant out of a user-provided
/// tsconfig, deserialized out of the final config for a transpile.
#[derive(Debug)]
pub struct EmitConfigOptions {
    pub check_js: bool,
    pub emit_decorator_metadata: bool,
    pub imports_not_used_as_values: String,
    pub inline_source_map: bool,
    pub inline_sources: bool,
    pub source_map: bool,
    pub jsx: String,
    pub jsx_factory: String,
    pub jsx_fragment_factory: String,
    pub jsx_import_source: Option<String>,
}

/// The compiler options that can impact what modules are part of a module
/// graph.
#[derive(Debug)]
pub struct CompilerOptions {
    pub jsx: Option<String>,
    pub jsx_import_source: Option<String>,
    pub types: Option<Vec<String>>,
}

/// Which lint rules run: by tag, with explicit inclusions and exclusions.
#[derive(Clone, Debug, Default, PartialEq)]
pub struct LintRulesConfig {
    pub tags: Option<Vec<String>>,
    pub includes: Option<Vec<String>>,
    pub exclude: Option<Vec<String>>,
}

/// A file set as written in the configuration file, before resolution against
/// the file's directory.
#[derive(Clone, Debug, Default, PartialEq)]
pub struct SerializedFilesConfig {
    pub includes: Vec<String>,
    pub exclude: Vec<String>,
}

impl SerializedFilesConfig {
    /// Whether the set names nothing at all.
    pub fn is_empty(&self) -> (r: bool)
        ensures
            r == (self.includes@.len() == 0 && self.exclude@.len() == 0),
    {
        self.includes.len() == 0 && self.exclude.len() == 0
    }
}

/// A resolved file set: what is taken in and what is excluded.
#[derive(Clone, Debug, Default, Eq, PartialEq)]
pub struct FilesConfig {
    pub includes: Vec<String>,
    pub exclude: Vec<String>,
}

impl FilesConfig {
    /// Both sets joined, `self` first.
    fn extend(self, rhs: FilesConfig) -> (r: FilesConfig)
        ensures
            r.includes@ == self.includes@ + rhs.includes@,
            r.exclude@ == self.exclude@ + rhs.exclude@,
    {
        let mut includes = self.includes;
        let mut rhs_include = rhs.includes;
        includes.append(&mut rhs_include);
        let mut exclude = self.exclude;
        let mut rhs_exclude = rhs.exclude;
        exclude.append(&mut rhs_exclude);
        FilesConfig { includes, exclude }
    }
}

/// Choose between the flat file set and the nested, deprecated one: the flat
/// set wins whenever it names anything; the deprecated one is taken only in
/// its place; with both empty, the empty set results.
pub fn choose_files(files: SerializedFilesConfig, deprecated_files: SerializedFilesConfig) -> (r:
    SerializedFilesConfig)
    ensures
        files.includes@.len() + files.exclude@.len() > 0 ==> r == files,
        files.includes@.len() + files.exclude@.len() == 0 && deprecated_files.includes@.len()
            + deprecated_files.exclude@.len() > 0 ==> r == deprecated_files,
        files.includes@.len() + files.exclude@.len() == 0 && deprecated_files.includes@.len()
            + deprecated_files.exclude@.len() == 0 ==> r.includes@.len() == 0 && r.exclude@.len()
            == 0,
{
    if !files.is_empty() {
        files
    } else if !deprecated_files.is_empty() {
        deprecated_files
    } else {
        SerializedFilesConfig { includes: Vec::new(), exclude: Vec::new() }
    }
}

/// The lint section: rules, files, and the optional report format.
#[derive(Clone, Debug, Default, PartialEq)]
pub struct LintConfig {
    pub rules: LintRulesConfig,
    pub files: FilesConfig,
    pub report: Option<String>,
}

impl LintConfig {
    /// The same configuration with `files` appended to its file set.
    pub fn with_files(self, files: FilesConfig) -> (r: LintConfig)
        ensures
            r.files.includes@ == self.files.includes@ + files.includes@,
            r.files.exclude@ == self.files.exclude@ + files.exclude@,
            r.rules == self.rules,
            r.report == self.report,
    {
        let LintConfig { rules, files: own_files, report } = self;
        LintConfig { rules, files: own_files.extend(files), report }
    }
}

/// How prose in markdown is wrapped when formatting.
#[derive(Clone, Copy, Debug, PartialEq, Eq, Structural)]
pub enum ProseWrap {
    Always,
    Never,
    Preserve,
}

/// The formatting options of the fmt section; an unset option keeps its
/// default.
#[derive(Clone, Debug, Default, PartialEq)]
pub struct FmtOptionsConfig {
    pub use_tabs: Option<bool>,
    pub line_width: Option<u32>,
    pub indent_width: Option<u8>,
    pub single_quote: Option<bool>,
    pub prose_wrap: Option<ProseWrap>,
    pub semi_colons: Option<bool>,
}

impl FmtOptionsConfig {
    /// Whether every option is unset.
    pub fn is_empty(&self) -> (r: bool)
        ensures
            r == (self.use_tabs is None && self.line_width is None && self.indent_width is None
                && self.single_quote is None && self.prose_wrap is None && self.semi_colons
                is None),
    {
        self.use_tabs.is_none() && self.line_width.is_none() && self.indent_width.is_none()
            && self.single_quote.is_none() && self.prose_wrap.is_none()
            && self.semi_colons.is_none()
    }
}

/// Whether every option of `c` is unset.
pub open spec fn fmt_options_empty(c: FmtOptionsConfig) -> bool {
    c.use_tabs is None && c.line_width is None && c.indent_width is None && c.single_quote is None
        && c.prose_wrap is None && c.semi_colons is None
}

/// Choose between the flat formatting options and the nested, deprecated
/// ones: the flat options win whenever any of them is set; the deprecated
/// ones are taken only in their place; with both empty, everything stays
/// unset.
pub fn choose_fmt_options(options: FmtOptionsConfig, deprecated_options: FmtOptionsConfig) -> (r:
    FmtOptionsConfig)
    ensures
        !fmt_options_empty(options) ==> r == options,
        fmt_options_empty(options) && !fmt_options_empty(deprecated_options) ==> r
            == deprecated_options,
        fmt_options_empty(options) && fmt_options_empty(deprecated_options) ==> fmt_options_empty(
            r,
        ),
{
    if !options.is_empty() {
        options
    } else if !deprecated_options.is_empty() {
        deprecated_options
    } else {
        FmtOptionsConfig {
            use_tabs: None,
            line_width: None,
            indent_width: None,
            single_quote: None,
            prose_wrap: None,
            semi_colons: None,
        }
    }
}

/// The fmt section: formatting options and the files they apply to.
#[derive(Clone, Debug, Default, PartialEq)]
pub struct FmtConfig {
    pub options: FmtOptionsConfig,
    pub files: FilesConfig,
}

impl FmtConfig {
    /// The same configuration with `files` appended to its file set.
    pub fn with_files(self, files: FilesConfig) -> (r: FmtConfig)
        ensures
            r.files.includes@ == self.files.includes@ + files.includes@,
            r.files.exclude@ == self.files.exclude@ + files.exclude@,
            r.options == self.options,
    {
        let FmtConfig { options, files: own_files } = self;
        FmtConfig { options, files: own_files.extend(files) }
    }
}

/// The test section: the files tests are collected from.
#[derive(Clone, Debug, Default, PartialEq)]
pub struct TestConfig {
    pub files: FilesConfig,
}

impl TestConfig {
    /// The same configuration with `files` appended to its file set.
    pub fn with_files(self, files: FilesConfig) -> (r: TestConfig)
        ensures
            r.files.includes@ == self.files.includes@ + files.includes@,
            r.files.exclude@ == self.files.exclude@ + files.exclude@,
    {
        let TestConfig { files: own_files } = self;
        TestConfig { files: own_files.extend(files) }
    }
}

/// The bench section: the files benchmarks are collected from.
#[derive(Clone, Debug, Default, PartialEq)]
pub struct BenchConfig {
    pub files: FilesConfig,
}

impl BenchConfig {
    /// The same configuration with `files` appended to its file set.
    pub fn with_files(self, files: FilesConfig) -> (r: BenchConfig)
        ensures
            r.files.includes@ == self.files.includes@ + files.includes@,
            r.files.exclude@ == self.files.exclude@ + files.exclude@,
    {
        let BenchConfig { files: own_files } = self;
        BenchConfig { files: own_files.extend(files) }
    }
}

/// The lock section: a switch, or the path of the lockfile to use.
#[derive(Clone, Debug, PartialEq)]
pub enum LockConfig {
    Bool(bool),
    PathBuf(String),
}

/// The base library set that type checking runs against.
#[derive(Debug, Clone, Copy, Eq, Hash, PartialEq, Structural)]
pub enum TsTypeLib {
    DenoWindow,
    DenoWorker,
    UnstableDenoWindow,
    UnstableDenoWorker,
}

impl Default for TsTypeLib {
    fn default() -> (r: Self)
        ensures
            r is DenoWindow,
    {
        Self::DenoWindow
    }
}

/// The base tsc configuration to return: for bundling, for type checking
/// against a library set, or for emitting single modules.
pub enum TsConfigType {
    /// A configuration for bundling, independent of type checking.
    Bundle,
    /// A configuration for type checking, independent of bundling or
    /// emitting.
    Check { lib: TsTypeLib },
    /// A configuration for emitting single module files.
    Emit,
}

} // verus!
