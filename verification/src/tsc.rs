//! Values exchanged with the type-checker isolate.

use vstd::prelude::*;

verus! {

/// Statistics from a type-check of a module graph, as named counters.
#[derive(Clone, Debug, Default, Eq, PartialEq)]
pub struct Stats(pub Vec<(String, u32)>);

/// One static asset held by the type-checker isolate.
#[derive(Debug)]
pub struct AssetText {
    pub specifier: String,
    pub text: String,
}

/// A batch of module specifiers to resolve against one base.
#[derive(Debug)]
pub struct ResolveArgs {
    /// The base specifier the supplied specifiers are resolved against.
    pub base: String,
    /// The specifiers to resolve.
    pub specifiers: Vec<String>,
}

} // verus!
