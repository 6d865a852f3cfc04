//! The decisions of the background initializer: open the pool, apply the
//! schema migrations when asked to, confirm with one liveness query, then
//! publish the outcome exactly once. The caller performs each action and
//! hands back how it went.

use vstd::prelude::*;

verus! {

/// Upper bound on the connections that the pool holds at once.
pub const MAX_CONNECTIONS: u32 = 20;
/// Connections opened eagerly: none, so that startup does not wait on them.
pub const MIN_CONNECTIONS: u32 = 0;
/// How long a checkout may wait for a free connection.
pub const ACQUIRE_TIMEOUT_SECS: u64 = 10;
/// How long an idle connection is kept before it is closed.
pub const IDLE_TIMEOUT_SECS: u64 = 600;

/// How the pool is opened.
#[derive(Clone, Copy, Debug, PartialEq, Eq, Structural)]
pub struct PoolSettings {
    pub max_connections: u32,
    pub min_connections: u32,
    pub acquire_timeout_secs: u64,
    pub idle_timeout_secs: u64,
}

impl PoolSettings {
    /// The settings with which the initializer opens the pool.
    pub fn standard() -> (r: PoolSettings)
        ensures
            r.max_connections == MAX_CONNECTIONS,
            r.min_connections == MIN_CONNECTIONS,
            r.acquire_timeout_secs == ACQUIRE_TIMEOUT_SECS,
            r.idle_timeout_secs == IDLE_TIMEOUT_SECS,
    {
        PoolSettings {
            max_connections: MAX_CONNECTIONS,
            min_connections: MIN_CONNECTIONS,
            acquire_timeout_secs: ACQUIRE_TIMEOUT_SECS,
            idle_timeout_secs: IDLE_TIMEOUT_SECS,
        }
    }
}

/// Where the initializer stands.
#[derive(Clone, Copy, Debug, PartialEq, Eq, Structural)]
pub enum InitStage {
    Connecting,
    Migrating,
    Probing,
    Finished,
}

/// How the last action went.
#[derive(Clone, Debug, PartialEq, Eq)]
pub enum StepResult {
    Succeeded,
    Failed(String),
}

/// What the caller is to do next.
#[derive(Clone, Debug, PartialEq, Eq)]
pub enum InitAction {
    /// Open the pool with these settings.
    OpenPool(PoolSettings),
    /// Apply the pending schema migrations against the pool.
    RunMigrations,
    /// Issue one trivial query against the pool.
    RunLivenessProbe,
    /// Publish the pool as ready.
    PublishReady,
    /// Publish the failure, with this message.
    PublishFailed(String),
    /// Nothing: the outcome has been published.
    Nothing,
}

impl InitAction {
    pub open spec fn is_publish(&self) -> bool {
        self is PublishReady || self is PublishFailed
    }
}

/// The action that belongs to a stage.
pub open spec fn stage_action(stage: InitStage) -> InitAction {
    match stage {
        InitStage::Connecting => InitAction::OpenPool(
            PoolSettings {
                max_connections: MAX_CONNECTIONS,
                min_connections: MIN_CONNECTIONS,
                acquire_timeout_secs: ACQUIRE_TIMEOUT_SECS,
                idle_timeout_secs: IDLE_TIMEOUT_SECS,
            },
        ),
        InitStage::Migrating => InitAction::RunMigrations,
        InitStage::Probing => InitAction::RunLivenessProbe,
        InitStage::Finished => InitAction::Nothing,
    }
}

/// The stage after the action of `stage` went as `result` says.
pub open spec fn next_stage(stage: InitStage, run_migrations: bool, result: StepResult) -> InitStage {
    match stage {
        InitStage::Finished => InitStage::Finished,
        _ => match result {
            StepResult::Failed(_) => InitStage::Finished,
            StepResult::Succeeded => match stage {
                InitStage::Connecting => if run_migrations {
                    InitStage::Migrating
                } else {
                    InitStage::Probing
                },
                InitStage::Migrating => InitStage::Probing,
                _ => InitStage::Finished,
            },
        },
    }
}

/// The action that follows: the next stage's work, or the publication of
/// the outcome when the stage just left was the last one or failed.
pub open spec fn next_action(stage: InitStage, run_migrations: bool, result: StepResult) -> InitAction {
    match stage {
        InitStage::Finished => InitAction::Nothing,
        _ => match result {
            StepResult::Failed(m) => InitAction::PublishFailed(m),
            StepResult::Succeeded => match stage {
                InitStage::Probing => InitAction::PublishReady,
                _ => stage_action(next_stage(stage, run_migrations, result)),
            },
        },
    }
}

/// The background initializer, as a state machine.
pub struct Initializer {
    run_migrations: bool,
    stage: InitStage,
}

impl Initializer {
    pub closed spec fn runs_migrations(&self) -> bool {
        self.run_migrations
    }

    pub closed spec fn stage(&self) -> InitStage {
        self.stage
    }

    /// An initializer that has not acted yet.
    pub fn new(run_migrations: bool) -> (r: Initializer)
        ensures
            r.stage() == InitStage::Connecting,
            r.runs_migrations() == run_migrations,
    {
        Initializer { run_migrations, stage: InitStage::Connecting }
    }

    /// The current stage.
    pub fn current_stage(&self) -> (r: InitStage)
        ensures
            r == self.stage(),
    {
        self.stage
    }

    /// Whether the outcome has been published.
    pub fn is_finished(&self) -> (r: bool)
        ensures
            r == (self.stage() == InitStage::Finished),
    {
        match self.stage {
            InitStage::Finished => true,
            _ => false,
        }
    }

    /// The action of the current stage; the first is to open the pool.
    pub fn action(&self) -> (r: InitAction)
        ensures
            r == stage_action(self.stage()),
    {
        match self.stage {
            InitStage::Connecting => InitAction::OpenPool(PoolSettings::standard()),
            InitStage::Migrating => InitAction::RunMigrations,
            InitStage::Probing => InitAction::RunLivenessProbe,
            InitStage::Finished => InitAction::Nothing,
        }
    }

    /// Takes how the current action went and returns the next one. Any
    /// failure ends the run with its message; there is no retry.
    pub fn advance(&mut self, result: StepResult) -> (r: InitAction)
        ensures
            final(self).runs_migrations() == old(self).runs_migrations(),
            final(self).stage() == next_stage(old(self).stage(), old(self).runs_migrations(), result),
            r == next_action(old(self).stage(), old(self).runs_migrations(), result),
    {
        match self.stage {
            InitStage::Finished => InitAction::Nothing,
            _ => match result {
                StepResult::Failed(m) => {
                    self.stage = InitStage::Finished;
                    InitAction::PublishFailed(m)
                },
                StepResult::Succeeded => {
                    match self.stage {
                        InitStage::Connecting => {
                            if self.run_migrations {
                                self.stage = InitStage::Migrating;
                            } else {
                                self.stage = InitStage::Probing;
                            }
                            self.action()
                        },
                        InitStage::Migrating => {
                            self.stage = InitStage::Probing;
                            self.action()
                        },
                        _ => {
                            self.stage = InitStage::Finished;
                            InitAction::PublishReady
                        },
                    }
                },
            },
        }
    }
}

/// The actions produced by feeding `results` to an initializer at `stage`.
pub open spec fn actions_of(stage: InitStage, run_migrations: bool, results: Seq<StepResult>) -> Seq<InitAction>
    decreases results.len(),
{
    if results.len() == 0 {
        Seq::empty()
    } else {
        seq![next_action(stage, run_migrations, results[0])] + actions_of(
            next_stage(stage, run_migrations, results[0]),
            run_migrations,
            results.drop_first(),
        )
    }
}

/// How many of `actions` publish an outcome.
pub open spec fn publish_count(actions: Seq<InitAction>) -> nat
    decreases actions.len(),
{
    if actions.len() == 0 {
        0
    } else {
        (if actions[0].is_publish() { 1nat } else { 0nat }) + publish_count(actions.drop_first())
    }
}

/// A finished initializer does nothing more, whatever it is told.
pub proof fn lemma_finished_is_silent(run_migrations: bool, results: Seq<StepResult>)
    ensures
        publish_count(actions_of(InitStage::Finished, run_migrations, results)) == 0,
    decreases results.len(),
{
    if results.len() > 0 {
        lemma_finished_is_silent(run_migrations, results.drop_first());
        let a = actions_of(InitStage::Finished, run_migrations, results);
        assert(a.drop_first() =~= actions_of(InitStage::Finished, run_migrations, results.drop_first()));
    }
}

/// The initializer runs once: whatever the steps report, it publishes an
/// outcome at most once, and after publishing it does nothing more.
pub proof fn lemma_publishes_at_most_once(stage: InitStage, run_migrations: bool, results: Seq<StepResult>)
    ensures
        publish_count(actions_of(stage, run_migrations, results)) <= 1,
    decreases results.len(),
{
    if results.len() > 0 {
        let a = actions_of(stage, run_migrations, results);
        let ns = next_stage(stage, run_migrations, results[0]);
        assert(a.drop_first() =~= actions_of(ns, run_migrations, results.drop_first()));
        if next_action(stage, run_migrations, results[0]).is_publish() {
            lemma_finished_is_silent(run_migrations, results.drop_first());
        } else {
            lemma_publishes_at_most_once(ns, run_migrations, results.drop_first());
        }
    }
}

/// When every step succeeds, the initializer opens the pool, applies the
/// migrations if it was asked to, issues the liveness query, and then
/// publishes the pool as ready.
pub proof fn lemma_successful_run(run_migrations: bool)
    ensures
        run_migrations ==> actions_of(
            InitStage::Connecting,
            run_migrations,
            seq![StepResult::Succeeded, StepResult::Succeeded, StepResult::Succeeded],
        ) =~= seq![InitAction::RunMigrations, InitAction::RunLivenessProbe, InitAction::PublishReady],
        !run_migrations ==> actions_of(
            InitStage::Connecting,
            run_migrations,
            seq![StepResult::Succeeded, StepResult::Succeeded],
        ) =~= seq![InitAction::RunLivenessProbe, InitAction::PublishReady],
{
    let ok = StepResult::Succeeded;
    let s3 = seq![ok, ok, ok];
    let s2 = seq![ok, ok];
    let s1 = seq![ok];
    assert(s3.drop_first() =~= s2);
    assert(s2.drop_first() =~= s1);
    assert(s1.drop_first() =~= Seq::<StepResult>::empty());
    reveal_with_fuel(actions_of, 4);
}

} // verus!
