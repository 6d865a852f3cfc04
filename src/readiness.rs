//! The readiness record: one slot that moves once from `Initializing`
//! to `Ready(pool)` or `Failed(message)` and then never changes again.

use vstd::prelude::*;

verus! {

/// What is known about the pool at one instant.
#[derive(Debug)]
pub enum Readiness<P> {
    Initializing,
    Ready(P),
    Failed(String),
}

/// The tri-state flag of a readiness record, without the pool or the message.
#[derive(Clone, Copy, Debug, PartialEq, Eq, Structural)]
pub enum ReadinessFlag {
    Initializing,
    Ready,
    Failed,
}

/// A write that the background initializer makes into the record.
pub enum Transition<P> {
    Succeed(P),
    Fail(String),
}

impl<P> Readiness<P> {
    pub open spec fn flag(&self) -> ReadinessFlag {
        match self {
            Readiness::Initializing => ReadinessFlag::Initializing,
            Readiness::Ready(_) => ReadinessFlag::Ready,
            Readiness::Failed(_) => ReadinessFlag::Failed,
        }
    }

    pub open spec fn is_terminal(&self) -> bool {
        !(self is Initializing)
    }
}

/// The effect of one write: only a record that is still initializing changes.
pub open spec fn apply<P>(s: Readiness<P>, t: Transition<P>) -> Readiness<P> {
    match s {
        Readiness::Initializing => match t {
            Transition::Succeed(p) => Readiness::Ready(p),
            Transition::Fail(m) => Readiness::Failed(m),
        },
        _ => s,
    }
}

/// The record after a sequence of writes, in order.
pub open spec fn run<P>(s: Readiness<P>, ts: Seq<Transition<P>>) -> Readiness<P>
    decreases ts.len(),
{
    if ts.len() == 0 {
        s
    } else {
        run(apply(s, ts[0]), ts.drop_first())
    }
}

/// The shared readiness record: whether initialization was started, and
/// where it stands.
pub struct ReadinessCell<P> {
    started: bool,
    state: Readiness<P>,
}

impl<P> ReadinessCell<P> {
    pub closed spec fn started(&self) -> bool {
        self.started
    }

    pub closed spec fn state(&self) -> Readiness<P> {
        self.state
    }

    /// A record that has left `Initializing` belongs to a started initialization.
    pub open spec fn wf(&self) -> bool {
        self.state().is_terminal() ==> self.started()
    }

    /// An empty record, made before any initialization starts.
    pub fn new() -> (r: Self)
        ensures
            r.wf(),
            !r.started(),
            r.state() is Initializing,
    {
        ReadinessCell { started: false, state: Readiness::Initializing }
    }

    /// Records that the background initializer has been launched.
    pub fn mark_started(&mut self)
        requires
            old(self).wf(),
        ensures
            final(self).wf(),
            final(self).started(),
            final(self).state() == old(self).state(),
    {
        self.started = true;
    }

    /// Publishes the pool. Only a record that is still initializing takes
    /// it; the result says whether this call made the transition.
    pub fn set_ready(&mut self, pool: P) -> (changed: bool)
        requires
            old(self).wf(),
        ensures
            final(self).wf(),
            changed == (old(self).state() is Initializing),
            final(self).state() == apply(old(self).state(), Transition::Succeed(pool)),
            final(self).started() == (old(self).started() || changed),
    {
        match self.state {
            Readiness::Initializing => {
                self.state = Readiness::Ready(pool);
                self.started = true;
                true
            },
            _ => false,
        }
    }

    /// Publishes an initialization failure. Only a record that is still
    /// initializing takes it; the result says whether this call made the
    /// transition.
    pub fn set_error(&mut self, message: String) -> (changed: bool)
        requires
            old(self).wf(),
        ensures
            final(self).wf(),
            changed == (old(self).state() is Initializing),
            final(self).state() == apply(old(self).state(), Transition::Fail(message)),
            final(self).started() == (old(self).started() || changed),
    {
        match self.state {
            Readiness::Initializing => {
                self.state = Readiness::Failed(message);
                self.started = true;
                true
            },
            _ => false,
        }
    }

    /// Whether initialization was started.
    pub fn is_started(&self) -> (r: bool)
        ensures
            r == self.started(),
    {
        self.started
    }

    /// The current tri-state flag.
    pub fn snapshot(&self) -> (f: ReadinessFlag)
        ensures
            f == self.state().flag(),
    {
        match self.state {
            Readiness::Initializing => ReadinessFlag::Initializing,
            Readiness::Ready(_) => ReadinessFlag::Ready,
            Readiness::Failed(_) => ReadinessFlag::Failed,
        }
    }

    /// Whether the pool is ready; a failure is not readiness.
    pub fn is_ready(&self) -> (r: bool)
        ensures
            r == (self.state() is Ready),
    {
        match self.state {
            Readiness::Ready(_) => true,
            _ => false,
        }
    }

    /// The pool, if it is ready.
    pub fn peek(&self) -> (r: Option<&P>)
        ensures
            match self.state() {
                Readiness::Ready(p) => r matches Some(q) && *q == p,
                _ => r is None,
            },
    {
        match &self.state {
            Readiness::Ready(p) => Some(p),
            _ => None,
        }
    }

    /// The recorded initialization failure, if there is one.
    pub fn get_error(&self) -> (r: Option<String>)
        ensures
            match self.state() {
                Readiness::Failed(m) => r == Some(m),
                _ => r is None,
            },
    {
        match &self.state {
            Readiness::Failed(m) => Some(m.clone()),
            _ => None,
        }
    }
}

/// A record that has left `Initializing` is not changed by any further writes.
pub proof fn lemma_terminal_is_fixed<P>(s: Readiness<P>, ts: Seq<Transition<P>>)
    requires
        s.is_terminal(),
    ensures
        run(s, ts) == s,
    decreases ts.len(),
{
    if ts.len() > 0 {
        lemma_terminal_is_fixed(apply(s, ts[0]), ts.drop_first());
    }
}

/// The record makes at most one transition: starting from `Initializing`,
/// after any nonempty prefix of any sequence of writes it holds exactly
/// what the first write put there, so it never goes from `Ready` to
/// `Failed`, from `Failed` to `Ready`, or from one pool to another.
pub proof fn lemma_single_transition<P>(ts: Seq<Transition<P>>)
    ensures
        run(Readiness::Initializing, ts.take(0)) == Readiness::<P>::Initializing,
        forall|i: int|
            1 <= i <= ts.len() ==> #[trigger] run(Readiness::Initializing, ts.take(i)) == apply(
                Readiness::Initializing,
                ts[0],
            ),
        forall|i: int|
            1 <= i <= ts.len() ==> #[trigger] run(Readiness::Initializing, ts.take(i)).is_terminal(),
{
    assert(ts.take(0).len() == 0);
    assert forall|i: int| 1 <= i <= ts.len() implies #[trigger] run(
        Readiness::Initializing,
        ts.take(i),
    ) == apply(Readiness::Initializing, ts[0]) by {
        let pre = ts.take(i);
        assert(pre[0] == ts[0]);
        lemma_terminal_is_fixed(apply(Readiness::Initializing, ts[0]), pre.drop_first());
    }
}

} // verus!
