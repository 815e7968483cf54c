//! Stage-tagged failures of the command pipeline.
use vstd::prelude::*;

verus! {

/// The pipeline stage at which a command failed.
#[derive(Clone, Copy, Debug, PartialEq, Eq, Structural)]
pub enum Stage {
    /// Resolving the logic module by its qualified name.
    Import,
    /// Finding the executor class on the module.
    Lookup,
    /// Constructing the executor.
    Instantiate,
    /// Calling the executor's `execute` method.
    Invoke,
    /// Encoding the returned value as JSON text.
    Serialize,
}

/// The caller-facing headline of each failure class.
pub open spec fn stage_headline(stage: Stage) -> Seq<char> {
    match stage {
        Stage::Import => "Failed to import executor"@,
        Stage::Lookup => "Failed to get Executor class"@,
        Stage::Instantiate => "Failed to create executor"@,
        Stage::Invoke => "Python execution error"@,
        Stage::Serialize => "JSON conversion error"@,
    }
}

/// Returns the headline of a failure class.
pub fn headline(stage: Stage) -> (r: &'static str)
    ensures
        r@ == stage_headline(stage),
{
    match stage {
        Stage::Import => "Failed to import executor",
        Stage::Lookup => "Failed to get Executor class",
        Stage::Instantiate => "Failed to create executor",
        Stage::Invoke => "Python execution error",
        Stage::Serialize => "JSON conversion error",
    }
}

/// A failed command: the stage that failed and the engine's message.
#[derive(Clone, Debug)]
pub struct ErrorDetail {
    pub stage: Stage,
    pub message: String,
}

/// The single text a caller receives for a failure.
pub open spec fn error_text(stage: Stage, message: Seq<char>) -> Seq<char> {
    stage_headline(stage) + ": "@ + message
}

impl ErrorDetail {
    pub fn new(stage: Stage, message: String) -> (r: ErrorDetail)
        ensures
            r.stage == stage,
            r.message@ == message@,
    {
        ErrorDetail { stage, message }
    }

    /// The text handed back to the host: the stage's headline, then the message.
    pub fn describe(&self) -> (r: String)
        ensures
            r@ == error_text(self.stage, self.message@),
    {
        let mut r = String::from_str(headline(self.stage));
        r.append(": ");
        r.append(self.message.as_str());
        r
    }
}

} // verus!
