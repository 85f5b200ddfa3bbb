//! The flag sets of the command layer's subcommands. Paths are held as plain
//! strings; parsing the command line into these values is the application's
//! job.

use vstd::prelude::*;

verus! {

/// Files a subcommand operates on: what to take in and what to ignore.
#[derive(Clone, Debug, Default, Eq, PartialEq)]
pub struct FileFlags {
    pub ignore: Vec<String>,
    pub includes: Vec<String>,
}

#[derive(Clone, Debug, Default, Eq, PartialEq)]
pub struct BenchFlags {
    pub files: FileFlags,
    pub filter: Option<String>,
    pub json: bool,
    pub no_run: bool,
}

#[derive(Clone, Debug, Eq, PartialEq)]
pub struct BundleFlags {
    pub source_file: String,
    pub out_file: Option<String>,
}

#[derive(Clone, Debug, Eq, PartialEq)]
pub struct CacheFlags {
    pub files: Vec<String>,
}

#[derive(Clone, Debug, Eq, PartialEq)]
pub struct CheckFlags {
    pub files: Vec<String>,
}

#[derive(Clone, Debug, Eq, PartialEq)]
pub struct CompileFlags {
    pub source_file: String,
    pub output: Option<String>,
    pub args: Vec<String>,
    pub target: Option<String>,
    pub includes: Vec<String>,
}

#[derive(Clone, Debug, Eq, PartialEq)]
pub struct CompletionsFlags {
    pub buf: Vec<u8>,
}

#[derive(Clone, Debug, Eq, PartialEq)]
pub struct CoverageFlags {
    pub files: FileFlags,
    pub output: Option<String>,
    pub includes: Vec<String>,
    pub exclude: Vec<String>,
    pub lcov: bool,
}

/// Where the doc subcommand reads from: the built-in documentation or a
/// source path.
#[derive(Clone, Debug, Eq, PartialEq)]
pub enum DocSourceFileFlag {
    Builtin,
    Path(String),
}

impl Default for DocSourceFileFlag {
    /// The built-in documentation.
    fn default() -> (r: Self)
        ensures
            r is Builtin,
    {
        Self::Builtin
    }
}

#[derive(Clone, Debug, Eq, PartialEq)]
pub struct DocFlags {
    pub private: bool,
    pub json: bool,
    pub source_file: DocSourceFileFlag,
    pub filter: Option<String>,
}

#[derive(Clone, Debug, Eq, PartialEq)]
pub struct EvalFlags {
    pub print: bool,
    pub code: String,
}

#[derive(Clone, Debug, Eq, PartialEq)]
pub struct FmtFlags {
    pub check: bool,
    pub files: FileFlags,
    pub use_tabs: Option<bool>,
    /// Maximum line width; zero is not a meaningful value.
    pub line_width: Option<u32>,
    /// Indentation width; zero is not a meaningful value.
    pub indent_width: Option<u8>,
    pub single_quote: Option<bool>,
    pub prose_wrap: Option<String>,
    pub no_semicolons: Option<bool>,
}

#[derive(Clone, Debug, Eq, PartialEq)]
pub struct InitFlags {
    pub dir: Option<String>,
}

#[derive(Clone, Debug, Eq, PartialEq)]
pub struct InfoFlags {
    pub json: bool,
    pub file: Option<String>,
}

#[derive(Clone, Debug, Eq, PartialEq)]
pub struct InstallFlags {
    pub module_url: String,
    pub args: Vec<String>,
    pub name: Option<String>,
    pub root: Option<String>,
    pub force: bool,
}

#[derive(Clone, Debug, Eq, PartialEq)]
pub struct UninstallFlags {
    pub name: String,
    pub root: Option<String>,
}

#[derive(Clone, Debug, Eq, PartialEq)]
pub struct LintFlags {
    pub files: FileFlags,
    pub rules: bool,
    pub maybe_rules_tags: Option<Vec<String>>,
    pub maybe_rules_include: Option<Vec<String>>,
    pub maybe_rules_exclude: Option<Vec<String>>,
    pub json: bool,
    pub compact: bool,
}

#[derive(Clone, Debug, Eq, PartialEq)]
pub struct ReplFlags {
    pub eval_files: Option<Vec<String>>,
    pub eval: Option<String>,
    pub is_default_command: bool,
}

#[derive(Clone, Debug, Eq, PartialEq)]
pub struct RunFlags {
    pub script: String,
}

impl RunFlags {
    /// Whether the script is read from standard input, requested by the
    /// conventional `-` in place of a script name.
    pub fn is_stdin(&self) -> (r: bool)
        ensures
            r == (self.script@ == "-"@),
    {
        let dash = String::from_str("-");
        self.script == dash
    }
}

#[derive(Clone, Debug, Eq, PartialEq)]
pub struct TaskFlags {
    pub cwd: Option<String>,
    pub task: Option<String>,
}

#[derive(Clone, Debug, Default, Eq, PartialEq)]
pub struct TestFlags {
    pub doc: bool,
    pub no_run: bool,
    /// Stop after this many failures; zero is not a meaningful value.
    pub fail_fast: Option<usize>,
    pub files: FileFlags,
    pub allow_none: bool,
    pub filter: Option<String>,
    pub shuffle: Option<u64>,
    /// Number of parallel jobs; zero is not a meaningful value.
    pub concurrent_jobs: Option<usize>,
    pub trace_ops: bool,
}

#[derive(Clone, Debug, Eq, PartialEq)]
pub struct UpgradeFlags {
    pub dry_run: bool,
    pub force: bool,
    pub canary: bool,
    pub version: Option<String>,
    pub output: Option<String>,
}

#[derive(Clone, Debug, Eq, PartialEq)]
pub struct VendorFlags {
    pub specifiers: Vec<String>,
    pub output_path: Option<String>,
    pub force: bool,
}

/// The subcommand selected on the command line, with its flags.
#[derive(Clone, Debug, Eq, PartialEq)]
pub enum DenoSubcommand {
    Bench(BenchFlags),
    Bundle(BundleFlags),
    Cache(CacheFlags),
    Check(CheckFlags),
    Compile(CompileFlags),
    Completions(CompletionsFlags),
    Coverage(CoverageFlags),
    Doc(DocFlags),
    Eval(EvalFlags),
    Fmt(FmtFlags),
    Init(InitFlags),
    Info(InfoFlags),
    Install(InstallFlags),
    Uninstall(UninstallFlags),
    Lsp,
    Lint(LintFlags),
    Repl(ReplFlags),
    Run(RunFlags),
    Task(TaskFlags),
    Test(TestFlags),
    Types,
    Upgrade(UpgradeFlags),
    Vendor(VendorFlags),
}

impl Default for DenoSubcommand {
    /// With no subcommand given, an interactive read-eval-print loop is run.
    fn default() -> (r: DenoSubcommand)
        ensures
            r matches DenoSubcommand::Repl(f) && f.eval_files is None && f.eval is None
                && f.is_default_command,
    {
        DenoSubcommand::Repl(
            ReplFlags { eval_files: None, eval: None, is_default_command: true },
        )
    }
}

/// How much of the module graph is type-checked.
#[derive(Debug, Clone, Copy, Eq, PartialEq, Structural)]
pub enum TypeCheckMode {
    /// Type-check all modules.
    All,
    /// Skip type-checking of all modules; the default for running scripts.
    NoCheck,
    /// Only type-check local modules; the default for testing.
    Local,
}

impl Default for TypeCheckMode {
    fn default() -> (r: Self)
        ensures
            r is NoCheck,
    {
        Self::NoCheck
    }
}

/// Where the configuration file comes from.
#[derive(Clone, Debug, Eq, PartialEq)]
pub enum ConfigFlag {
    /// Look for a configuration file near the entry point.
    Discover,
    /// Use the named file.
    Path(String),
    /// Use no configuration file.
    Disabled,
}

impl Default for ConfigFlag {
    fn default() -> (r: Self)
        ensures
            r is Discover,
    {
        Self::Discover
    }
}

/// A certificate authority, by file path or by its raw bytes.
#[derive(Clone, Debug, Eq, PartialEq)]
pub enum CaData {
    /// The string is a file path.
    File(String),
    /// The bytes themselves, used for standalone binaries.
    Bytes(Vec<u8>),
}

/// The parts, joined by `d`: empty for no parts, and one copy of `d` between
/// each adjacent pair.
pub open spec fn join_with(parts: Seq<Seq<char>>, d: Seq<char>) -> Seq<char>
    decreases parts.len(),
{
    if parts.len() == 0 {
        Seq::<char>::empty()
    } else if parts.len() == 1 {
        parts.last()
    } else {
        join_with(parts.drop_last(), d) + d + parts.last()
    }
}

/// Join an allowlist of paths into one delimiter-separated argument value.
pub fn join_paths(allowlist: &Vec<String>, d: &str) -> (r: String)
    ensures
        r@ == join_with(allowlist@.map_values(|s: String| s@), d@),
{
    let ghost parts = allowlist@.map_values(|s: String| s@);
    let mut r = String::new();
    let n = allowlist.len();
    let mut i: usize = 0;
    while i < n
        invariant
            n == allowlist@.len(),
            i <= n,
            parts == allowlist@.map_values(|s: String| s@),
            r@ == join_with(parts.take(i as int), d@),
        decreases n - i,
    {
        if i > 0 {
            r.append(d);
        }
        r.append(allowlist[i].as_str());
        proof {
            assert(parts.take(i + 1 as int).drop_last() =~= parts.take(i as int));
            assert(parts.take(i + 1 as int).last() == parts[i as int]);
        }
        i = i + 1;
    }
    proof {
        assert(parts.take(n as int) =~= parts);
    }
    r
}

} // verus!
