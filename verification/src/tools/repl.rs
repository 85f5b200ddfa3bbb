//! Read-eval-print loop: evaluation outcomes and import collection.

use vstd::prelude::*;

verus! {

/// What one evaluated line produced: a rendered value, or a rendered error.
pub enum EvaluationOutput {
    Value(String),
    Error(String),
}

/// Fold an evaluation result into output for the user: a value passes
/// through, an error is rendered with an `error:` prefix.
pub fn result_to_evaluation_output(r: Result<EvaluationOutput, String>) -> (out: EvaluationOutput)
    ensures
        r matches Ok(v) ==> out == v,
        r matches Err(e) ==> out matches EvaluationOutput::Error(msg) && msg@ == "error: "@ + e@,
{
    match r {
        Ok(value) => value,
        Err(err) => {
            let mut msg = String::from_str("error: ");
            msg.append(err.as_str());
            EvaluationOutput::Error(msg)
        },
    }
}

/// Collects the import specifiers found while walking a module's syntax tree,
/// so that bare npm specifiers can be analysed.
pub struct ImportCollector {
    pub imports: Vec<String>,
}

impl ImportCollector {
    /// A collector with nothing collected yet.
    pub fn new() -> (c: ImportCollector)
        ensures
            c.imports@.len() == 0,
    {
        ImportCollector { imports: Vec::new() }
    }
}

} // verus!
