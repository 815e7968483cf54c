//! The command pipeline: which engine stage runs next, and how its outcome
//! becomes the command's result.
//!
//! The host performs each stage against the engine and hands its outcome to
//! [`Pipeline::advance`]: `Ok` with the encoded text for the last stage (any
//! text for the others), `Err` with the engine's message.
use vstd::prelude::*;
use crate::error::{ErrorDetail, Stage, error_text};
use crate::protocol::{CommandRequest, canonical_params, params_text};

verus! {

/// The stage that follows a successful one; `None` after the last.
pub open spec fn stage_after(s: Stage) -> Option<Stage> {
    match s {
        Stage::Import => Some(Stage::Lookup),
        Stage::Lookup => Some(Stage::Instantiate),
        Stage::Instantiate => Some(Stage::Invoke),
        Stage::Invoke => Some(Stage::Serialize),
        Stage::Serialize => None,
    }
}

/// What a run returns from stage `from` on, given the outcome of each stage in
/// turn: the first failure with its stage, or the text of the last stage.
/// `None` while outcomes are still missing.
pub open spec fn pipeline_result(
    from: Stage,
    outcomes: Seq<Result<Seq<char>, Seq<char>>>,
) -> Option<Result<Seq<char>, (Stage, Seq<char>)>>
    decreases outcomes.len(),
{
    if outcomes.len() == 0 {
        None
    } else {
        match outcomes[0] {
            Err(m) => Some(Err((from, m))),
            Ok(t) => match stage_after(from) {
                None => Some(Ok(t)),
                Some(n) => pipeline_result(n, outcomes.drop_first()),
            },
        }
    }
}

/// What the host does next.
#[derive(Debug)]
pub enum Next {
    /// Perform this stage against the engine and report its outcome.
    Run(Stage),
    /// The command is over: the engine's JSON text, or the failure.
    Finished(Result<String, ErrorDetail>),
}

/// One command on its way through the engine.
pub struct Pipeline {
    command: String,
    params_json: String,
    stage: Stage,
    finished: bool,
}

pub struct PipelineView {
    pub command: Seq<char>,
    pub params_json: Seq<char>,
    pub stage: Stage,
    pub finished: bool,
}

impl View for Pipeline {
    type V = PipelineView;

    closed spec fn view(&self) -> PipelineView {
        PipelineView {
            command: self.command@,
            params_json: self.params_json@,
            stage: self.stage,
            finished: self.finished,
        }
    }
}

impl Pipeline {
    /// Starts a command at the import stage, with its parameters in canonical
    /// JSON text.
    pub fn start(request: &CommandRequest) -> (p: Pipeline)
        ensures
            p@.command == request@.command,
            p@.params_json == params_text(request@.params),
            p@.stage == Stage::Import,
            !p@.finished,
    {
        Pipeline {
            command: request.command.clone(),
            params_json: canonical_params(&request.params),
            stage: Stage::Import,
            finished: false,
        }
    }

    /// The command name handed to the executor.
    pub fn command(&self) -> (r: &str)
        ensures
            r@ == self@.command,
    {
        self.command.as_str()
    }

    /// The parameter text handed to the executor.
    pub fn params_json(&self) -> (r: &str)
        ensures
            r@ == self@.params_json,
    {
        self.params_json.as_str()
    }

    /// The stage the host is to perform.
    pub fn stage(&self) -> (r: Stage)
        ensures
            r == self@.stage,
    {
        self.stage
    }

    pub fn is_finished(&self) -> (r: bool)
        ensures
            r == self@.finished,
    {
        self.finished
    }

    /// Takes the outcome of the current stage. A failure ends the command with
    /// that stage's error; a success moves to the next stage, and after the
    /// last one ends the command with the encoded text, unchanged.
    pub fn advance(&mut self, outcome: Result<String, String>) -> (next: Next)
        requires
            !old(self)@.finished,
        ensures
            final(self)@.command == old(self)@.command,
            final(self)@.params_json == old(self)@.params_json,
            match outcome {
                Err(m) => (next matches Next::Finished(Err(e)) && e.stage == old(self)@.stage
                    && e.message@ == m@ && final(self)@.finished
                    && final(self)@.stage == old(self)@.stage),
                Ok(t) => match stage_after(old(self)@.stage) {
                    None => (next matches Next::Finished(Ok(r)) && r@ == t@
                        && final(self)@.finished && final(self)@.stage == old(self)@.stage),
                    Some(n) => !final(self)@.finished && final(self)@.stage == n
                        && next == Next::Run(n),
                },
            },
    {
        match outcome {
            Err(m) => {
                self.finished = true;
                Next::Finished(Err(ErrorDetail::new(self.stage, m)))
            },
            Ok(t) => {
                let following = match self.stage {
                    Stage::Import => Some(Stage::Lookup),
                    Stage::Lookup => Some(Stage::Instantiate),
                    Stage::Instantiate => Some(Stage::Invoke),
                    Stage::Invoke => Some(Stage::Serialize),
                    Stage::Serialize => None,
                };
                match following {
                    None => {
                        self.finished = true;
                        Next::Finished(Ok(t))
                    },
                    Some(n) => {
                        self.stage = n;
                        Next::Run(n)
                    },
                }
            },
        }
    }
}

/// The result as the host reports it: the JSON text, or the failure's text.
pub fn host_result(r: Result<String, ErrorDetail>) -> (h: Result<String, String>)
    ensures
        match r {
            Ok(t) => h matches Ok(x) && x@ == t@,
            Err(e) => h matches Err(x) && x@ == error_text(e.stage, e.message@),
        },
{
    match r {
        Ok(t) => Ok(t),
        Err(e) => Err(e.describe()),
    }
}

/// When the logic module cannot be imported, the command fails at the import
/// stage with the engine's message, whatever the command and its parameters.
pub proof fn lemma_absent_module_fails_at_import(outcomes: Seq<Result<Seq<char>, Seq<char>>>)
    requires
        outcomes.len() >= 1,
        outcomes[0] is Err,
    ensures
        pipeline_result(Stage::Import, outcomes) == Some(
            Err::<Seq<char>, (Stage, Seq<char>)>((Stage::Import, outcomes[0]->Err_0)),
        ),
{
}

/// A command is all or nothing: it succeeds exactly when all five stages
/// succeed, and then returns the encoder's text unchanged.
pub proof fn lemma_success_needs_every_stage(
    outcomes: Seq<Result<Seq<char>, Seq<char>>>,
    text: Seq<char>,
)
    ensures
        pipeline_result(Stage::Import, outcomes) == Some(Ok::<Seq<char>, (Stage, Seq<char>)>(text))
            <==> (outcomes.len() >= 5 && (forall|i: int| 0 <= i < 5 ==> #[trigger] outcomes[i] is Ok)
            && outcomes[4] == Ok::<Seq<char>, Seq<char>>(text)),
{
    let o1 = outcomes.drop_first();
    let o2 = o1.drop_first();
    let o3 = o2.drop_first();
    let o4 = o3.drop_first();
    if outcomes.len() >= 5 {
        assert(o1[0] == outcomes[1]);
        assert(o2[0] == outcomes[2]);
        assert(o3[0] == outcomes[3]);
        assert(o4[0] == outcomes[4]);
    }
    reveal_with_fuel(pipeline_result, 6);
}

} // verus!
