//! One-time start of the engine: which effects each `initialize` call has.
//!
//! Only the first call starts the engine, puts the assets directory first on
//! its module search path and evicts the cached logic module and its package.
//! Later calls have no effect: a rebuilt logic module is picked up on the next
//! start of the process, not on a repeated `initialize`.
use vstd::prelude::*;

verus! {

/// The qualified name of the engine-side logic module.
pub const LOGIC_MODULE: &'static str = "agent_runtime.executor";

/// The package that holds the logic module.
pub const LOGIC_PACKAGE: &'static str = "agent_runtime";

/// The executor class that the logic module provides.
pub const EXECUTOR_CLASS: &'static str = "Executor";

/// The executor's one generic method.
pub const EXECUTE_METHOD: &'static str = "execute";

/// An effect that the host carries out on the engine.
#[derive(Clone, Debug)]
pub enum InitAction {
    /// Start the engine; a failure here is fatal to the process.
    StartEngine,
    /// Put this directory first on the engine's module search path.
    PrependSearchPath(String),
    /// Drop this module from the engine's module cache.
    Evict(String),
}

pub enum InitStep {
    StartEngine,
    PrependSearchPath(Seq<char>),
    Evict(Seq<char>),
}

impl View for InitAction {
    type V = InitStep;

    open spec fn view(&self) -> InitStep {
        match self {
            InitAction::StartEngine => InitStep::StartEngine,
            InitAction::PrependSearchPath(d) => InitStep::PrependSearchPath(d@),
            InitAction::Evict(m) => InitStep::Evict(m@),
        }
    }
}

/// The effects of the first call.
pub open spec fn first_init_steps(assets_dir: Seq<char>) -> Seq<InitStep> {
    seq![
        InitStep::StartEngine,
        InitStep::PrependSearchPath(assets_dir),
        InitStep::Evict(LOGIC_MODULE@),
        InitStep::Evict(LOGIC_PACKAGE@),
    ]
}

/// The effects of one call, given whether the engine is already ready.
pub open spec fn init_steps(ready: bool, assets_dir: Seq<char>) -> Seq<InitStep> {
    if ready {
        Seq::empty()
    } else {
        first_init_steps(assets_dir)
    }
}

/// The effects of a series of calls, one assets directory per call.
pub open spec fn init_run(ready: bool, dirs: Seq<Seq<char>>) -> Seq<InitStep>
    decreases dirs.len(),
{
    if dirs.len() == 0 {
        Seq::empty()
    } else {
        init_steps(ready, dirs[0]) + init_run(true, dirs.drop_first())
    }
}

/// How many of `steps` evict the module `name`.
pub open spec fn evictions_of(steps: Seq<InitStep>, name: Seq<char>) -> nat
    decreases steps.len(),
{
    if steps.len() == 0 {
        0
    } else {
        evictions_of(steps.drop_last(), name) + if steps.last() == InitStep::Evict(name) {
            1nat
        } else {
            0nat
        }
    }
}

/// Whether the engine has been started.
pub struct Lifecycle {
    ready: bool,
}

impl View for Lifecycle {
    type V = bool;

    closed spec fn view(&self) -> bool {
        self.ready
    }
}

impl Lifecycle {
    pub fn new() -> (r: Lifecycle)
        ensures
            !r@,
    {
        Lifecycle { ready: false }
    }

    pub fn is_ready(&self) -> (r: bool)
        ensures
            r == self@,
    {
        self.ready
    }

    /// Returns the effects the host is to carry out, in order; afterwards the
    /// engine counts as ready.
    pub fn initialize(&mut self, assets_dir: &str) -> (actions: Vec<InitAction>)
        ensures
            final(self)@,
            actions@.map_values(|a: InitAction| a@) == init_steps(old(self)@, assets_dir@),
            actions@.len() == init_steps(old(self)@, assets_dir@).len(),
            forall|i: int|
                0 <= i < actions@.len() ==> #[trigger] actions@[i]@ == init_steps(
                    old(self)@,
                    assets_dir@,
                )[i],
    {
        let mut actions: Vec<InitAction> = Vec::new();
        if !self.ready {
            actions.push(InitAction::StartEngine);
            actions.push(InitAction::PrependSearchPath(String::from_str(assets_dir)));
            actions.push(InitAction::Evict(String::from_str(LOGIC_MODULE)));
            actions.push(InitAction::Evict(String::from_str(LOGIC_PACKAGE)));
            self.ready = true;
        }
        let ghost steps = init_steps(old(self)@, assets_dir@);
        assert(actions@.map_values(|a: InitAction| a@) =~= steps);
        assert(actions@.map_values(|a: InitAction| a@).len() == actions@.len());
        assert forall|i: int| 0 <= i < actions@.len() implies #[trigger] actions@[i]@ == steps[i] by {
            assert(actions@.map_values(|a: InitAction| a@)[i] == actions@[i]@);
        }
        actions
    }
}

/// However many callers initialize, the effects are those of the first call
/// alone: the logic module and its package are each evicted exactly once, and
/// the engine is started once.
pub proof fn lemma_initialize_effects_once(dirs: Seq<Seq<char>>)
    requires
        dirs.len() >= 1,
    ensures
        init_run(false, dirs) == first_init_steps(dirs[0]),
        evictions_of(init_run(false, dirs), LOGIC_MODULE@) == 1,
        evictions_of(init_run(false, dirs), LOGIC_PACKAGE@) == 1,
{
    lemma_ready_run_is_empty(dirs.drop_first());
    assert(init_run(false, dirs) =~= first_init_steps(dirs[0]));
    let s = first_init_steps(dirs[0]);
    assert(s.drop_last().drop_last().drop_last().drop_last() =~= Seq::<InitStep>::empty());
    assert(s.drop_last().drop_last().drop_last().last() == InitStep::StartEngine);
    assert(s.drop_last().drop_last().last() == InitStep::PrependSearchPath(dirs[0]));
    assert(s.drop_last().last() == InitStep::Evict(LOGIC_MODULE@));
    assert(s.last() == InitStep::Evict(LOGIC_PACKAGE@));
    reveal_strlit("agent_runtime.executor");
    reveal_strlit("agent_runtime");
    assert(LOGIC_MODULE@ != LOGIC_PACKAGE@) by {
        assert(LOGIC_MODULE@.len() != LOGIC_PACKAGE@.len());
    }
    reveal_with_fuel(evictions_of, 5);
}

proof fn lemma_ready_run_is_empty(dirs: Seq<Seq<char>>)
    ensures
        init_run(true, dirs) == Seq::<InitStep>::empty(),
    decreases dirs.len(),
{
    if dirs.len() > 0 {
        lemma_ready_run_is_empty(dirs.drop_first());
        assert(init_run(true, dirs) =~= Seq::<InitStep>::empty());
    }
}

} // verus!
