//! Document bookkeeping of the language service: the language a document is
//! tagged with and what follows from it.

use vstd::prelude::*;

verus! {

/// The language a document is tagged with by the client.
#[derive(Debug, Clone, Copy, PartialEq, Eq, Structural)]
pub enum LanguageId {
    JavaScript,
    Jsx,
    TypeScript,
    Tsx,
    Json,
    JsonC,
    Markdown,
    Unknown,
}

impl LanguageId {
    /// The file extension conventionally carrying the language; an unknown
    /// language has none.
    pub fn as_extension(&self) -> (r: Option<&'static str>)
        ensures
            match *self {
                LanguageId::JavaScript => r matches Some(e) && e@ == "js"@,
                LanguageId::Jsx => r matches Some(e) && e@ == "jsx"@,
                LanguageId::TypeScript => r matches Some(e) && e@ == "ts"@,
                LanguageId::Tsx => r matches Some(e) && e@ == "tsx"@,
                LanguageId::Json => r matches Some(e) && e@ == "json"@,
                LanguageId::JsonC => r matches Some(e) && e@ == "jsonc"@,
                LanguageId::Markdown => r matches Some(e) && e@ == "md"@,
                LanguageId::Unknown => r is None,
            },
    {
        match self {
            LanguageId::JavaScript => Some("js"),
            LanguageId::Jsx => Some("jsx"),
            LanguageId::TypeScript => Some("ts"),
            LanguageId::Tsx => Some("tsx"),
            LanguageId::Json => Some("json"),
            LanguageId::JsonC => Some("jsonc"),
            LanguageId::Markdown => Some("md"),
            LanguageId::Unknown => None,
        }
    }

    /// The content-type header sent for documents of this language; only the
    /// four script languages carry one.
    pub fn as_headers(&self) -> (r: Option<Vec<(String, String)>>)
        ensures
            match *self {
                LanguageId::JavaScript => r matches Some(h) && h@.len() == 1 && h@[0].0@
                    == "content-type"@ && h@[0].1@ == "application/javascript"@,
                LanguageId::Jsx => r matches Some(h) && h@.len() == 1 && h@[0].0@
                    == "content-type"@ && h@[0].1@ == "text/jsx"@,
                LanguageId::TypeScript => r matches Some(h) && h@.len() == 1 && h@[0].0@
                    == "content-type"@ && h@[0].1@ == "application/typescript"@,
                LanguageId::Tsx => r matches Some(h) && h@.len() == 1 && h@[0].0@
                    == "content-type"@ && h@[0].1@ == "text/tsx"@,
                _ => r is None,
            },
    {
        match self {
            LanguageId::JavaScript => Some(
                vec![(String::from_str("content-type"), String::from_str("application/javascript"))],
            ),
            LanguageId::Jsx => Some(
                vec![(String::from_str("content-type"), String::from_str("text/jsx"))],
            ),
            LanguageId::TypeScript => Some(
                vec![(String::from_str("content-type"), String::from_str("application/typescript"))],
            ),
            LanguageId::Tsx => Some(
                vec![(String::from_str("content-type"), String::from_str("text/tsx"))],
            ),
            _ => None,
        }
    }

    /// Whether diagnostics are produced for documents of this language.
    pub fn is_diagnosable(&self) -> (r: bool)
        ensures
            r == (*self is JavaScript || *self is Jsx || *self is TypeScript || *self is Tsx),
    {
        matches!(
            self,
            LanguageId::JavaScript | LanguageId::Jsx | LanguageId::TypeScript | LanguageId::Tsx
        )
    }
}

/// Which documents a listing includes.
#[derive(Debug, Clone, Copy)]
pub enum DocumentsFilter {
    /// All documents, diagnosable or not, open or from the file system.
    All,
    /// All diagnosable documents, open or from the file system.
    AllDiagnosable,
    /// Only the diagnosable documents that are open.
    OpenDiagnosable,
}

/// Up to which line an incremental text index stays valid.
#[derive(Debug, PartialEq, Eq, Structural, Clone, Copy)]
pub enum IndexValid {
    /// The whole index is valid.
    All,
    /// Lines strictly below `UpTo` are valid.
    UpTo(u32),
}

impl IndexValid {
    /// Whether the index is still valid at `line`.
    pub fn covers(&self, line: u32) -> (r: bool)
        ensures
            r == match *self {
                IndexValid::UpTo(to) => to > line,
                IndexValid::All => true,
            },
    {
        match *self {
            IndexValid::UpTo(to) => to > line,
            IndexValid::All => true,
        }
    }
}

} // verus!
