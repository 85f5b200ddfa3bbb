//! Diagnostic publication bookkeeping of the language service.

use vstd::prelude::*;

verus! {

/// Counts published diagnostic batches, so that a test client can
/// synchronize on batch indices. Counting is optional: a counter constructed
/// as disabled counts nothing and reports nothing.
#[derive(Debug, Clone)]
pub struct DiagnosticBatchCounter(Option<usize>);

impl DiagnosticBatchCounter {
    /// The count so far, when counting is enabled.
    pub closed spec fn spec_count(self) -> Option<usize> {
        self.0
    }

    /// A counter that counts from zero when `enabled`, and never otherwise.
    pub fn new(enabled: bool) -> (c: DiagnosticBatchCounter)
        ensures
            enabled ==> c.spec_count() == Some(0usize),
            !enabled ==> c.spec_count() is None,
    {
        if enabled {
            DiagnosticBatchCounter(Some(0))
        } else {
            DiagnosticBatchCounter(None)
        }
    }

    /// Count one batch and report the new count; a disabled counter stays
    /// disabled and reports nothing.
    pub fn inc(&mut self) -> (r: Option<usize>)
        requires
            old(self).spec_count() matches Some(c) ==> c < usize::MAX,
        ensures
            old(self).spec_count() is None ==> r is None && final(self).spec_count() is None,
            old(self).spec_count() matches Some(c) ==> r == Some((c + 1) as usize) && final(self).spec_count() == Some((c + 1) as usize),
    {
        match self.0 {
            None => None,
            Some(c) => {
                let next = c + 1;
                self.0 = Some(next);
                Some(next)
            },
        }
    }

    /// The current count; nothing when counting is disabled.
    pub fn get(&self) -> (r: Option<usize>)
        ensures
            r == self.spec_count(),
    {
        self.0
    }
}

} // verus!
