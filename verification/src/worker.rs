//! Hooks of the main worker factory.

use vstd::prelude::*;

verus! {

/// Asks whether any module of the graph is a node built-in specifier, so the
/// node runtime is initialized only when needed.
pub trait HasNodeSpecifierChecker {
    fn has_node_specifier(&self) -> bool;
}

} // verus!
