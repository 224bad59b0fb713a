//! The supervisor's lifecycle: one start per run, at most one process handle,
//! and a stop that takes effect once however often it is asked for.
use vstd::prelude::*;

verus! {

/// Where the supervisor is in its lifecycle. `Stopped` is final.
#[derive(PartialEq, Eq, Structural, Clone, Copy, Debug)]
pub enum SupervisorState {
    NotStarted,
    Starting,
    Ready,
    Failed,
    Stopped,
}

/// An operation on the supervisor, as the laws below speak of them.
#[derive(PartialEq, Eq, Structural, Clone, Copy, Debug)]
pub enum Op {
    Begin,
    Attach,
    Finish(bool),
    Stop,
}

/// The supervisor as its laws see it: its state, whether it holds a live
/// process handle, and whether a handle was ever taken in.
pub type SupervisorView = (SupervisorState, bool, bool);

/// The supervisor before anything happened.
pub open spec fn initial() -> SupervisorView {
    (SupervisorState::NotStarted, false, false)
}

/// A live handle is one that was taken in, during or after a start that has
/// not been stopped.
pub open spec fn consistent(m: SupervisorView) -> bool {
    m.1 ==> (m.2 && (m.0 == SupervisorState::Starting || m.0 == SupervisorState::Ready || m.0
        == SupervisorState::Failed))
}

/// Whether `op` in `m` takes a handle in.
pub open spec fn takes_in(m: SupervisorView, op: Op) -> bool {
    op is Attach && m.0 == SupervisorState::Starting && !m.2
}

/// Whether `op` in `m` hands the live handle out to be terminated.
pub open spec fn releases(m: SupervisorView, op: Op) -> bool {
    op is Stop && m.1
}

/// The effect of one operation.
pub open spec fn apply(m: SupervisorView, op: Op) -> SupervisorView {
    match op {
        Op::Begin => if m.0 == SupervisorState::NotStarted {
            (SupervisorState::Starting, m.1, m.2)
        } else {
            m
        },
        Op::Attach => if takes_in(m, op) {
            (SupervisorState::Starting, true, true)
        } else {
            m
        },
        Op::Finish(ok) => if m.0 == SupervisorState::Starting {
            (
                if ok {
                    SupervisorState::Ready
                } else {
                    SupervisorState::Failed
                },
                m.1,
                m.2,
            )
        } else {
            m
        },
        Op::Stop => (SupervisorState::Stopped, false, m.2),
    }
}

/// The effect of a run of operations.
pub open spec fn run(m: SupervisorView, ops: Seq<Op>) -> SupervisorView
    decreases ops.len(),
{
    if ops.len() == 0 {
        m
    } else {
        run(apply(m, ops[0]), ops.skip(1))
    }
}

/// How many handles a run of operations takes in.
pub open spec fn taken_in(m: SupervisorView, ops: Seq<Op>) -> nat
    decreases ops.len(),
{
    if ops.len() == 0 {
        0
    } else {
        (if takes_in(m, ops[0]) {
            1nat
        } else {
            0nat
        }) + taken_in(apply(m, ops[0]), ops.skip(1))
    }
}

/// How many handles a run of operations hands out to be terminated.
pub open spec fn released(m: SupervisorView, ops: Seq<Op>) -> nat
    decreases ops.len(),
{
    if ops.len() == 0 {
        0
    } else {
        (if releases(m, ops[0]) {
            1nat
        } else {
            0nat
        }) + released(apply(m, ops[0]), ops.skip(1))
    }
}

/// `n` stops in a row.
pub open spec fn stops(n: nat) -> Seq<Op> {
    Seq::new(n, |i: int| Op::Stop)
}

/// Owns the backend's process handle for the application's lifetime.
pub struct Supervisor<H> {
    state: SupervisorState,
    child: Option<H>,
    spawned: bool,
}

impl<H> View for Supervisor<H> {
    type V = SupervisorView;

    closed spec fn view(&self) -> SupervisorView {
        (self.state, self.child is Some, self.spawned)
    }
}

impl<H> Supervisor<H> {
    /// The handle held, if any.
    pub closed spec fn handle(&self) -> Option<H> {
        self.child
    }

    /// The supervisor's invariant.
    pub open spec fn wf(&self) -> bool {
        consistent(self@)
    }

    /// A supervisor that has not started.
    pub fn new() -> (r: Supervisor<H>)
        ensures
            r@ == initial(),
            r.wf(),
    {
        Supervisor { state: SupervisorState::NotStarted, child: None, spawned: false }
    }

    /// Where the supervisor is in its lifecycle.
    pub fn state(&self) -> (r: SupervisorState)
        ensures
            r == self@.0,
    {
        self.state
    }

    /// Whether a live process handle is held.
    pub fn is_running(&self) -> (r: bool)
        ensures
            r == self@.1,
    {
        self.child.is_some()
    }

    /// Enters `Starting`; only a supervisor that has not started can.
    pub fn begin(&mut self) -> (r: bool)
        requires
            old(self).wf(),
        ensures
            final(self).wf(),
            final(self)@ == apply(old(self)@, Op::Begin),
            final(self).handle() == old(self).handle(),
            r == (old(self)@.0 == SupervisorState::NotStarted),
    {
        if self.state == SupervisorState::NotStarted {
            self.state = SupervisorState::Starting;
            true
        } else {
            false
        }
    }

    /// Takes in the handle of the process just spawned. Only one handle is
    /// ever taken in, and only while starting; any other is handed back, to be
    /// terminated by the caller.
    pub fn attach(&mut self, h: H) -> (r: Result<(), H>)
        requires
            old(self).wf(),
        ensures
            final(self).wf(),
            final(self)@ == apply(old(self)@, Op::Attach),
            r is Ok <==> takes_in(old(self)@, Op::Attach),
            r is Ok ==> final(self).handle() == Some(h),
            r matches Err(g) ==> g == h && final(self).handle() == old(self).handle(),
    {
        if self.state == SupervisorState::Starting && !self.spawned {
            self.child = Some(h);
            self.spawned = true;
            Ok(())
        } else {
            Err(h)
        }
    }

    /// Ends the start: `Ready` when the backend answered, `Failed` otherwise.
    pub fn finish(&mut self, healthy: bool)
        requires
            old(self).wf(),
        ensures
            final(self).wf(),
            final(self)@ == apply(old(self)@, Op::Finish(healthy)),
            final(self).handle() == old(self).handle(),
    {
        if self.state == SupervisorState::Starting {
            self.state = if healthy {
                SupervisorState::Ready
            } else {
                SupervisorState::Failed
            };
        }
    }

    /// Enters `Stopped` and hands out the live handle, if one is held, for the
    /// caller to terminate. Once stopped, a stop hands out nothing.
    pub fn stop(&mut self) -> (r: Option<H>)
        requires
            old(self).wf(),
        ensures
            final(self).wf(),
            final(self)@ == apply(old(self)@, Op::Stop),
            r == old(self).handle(),
            final(self).handle() is None,
    {
        self.state = SupervisorState::Stopped;
        self.child.take()
    }
}

proof fn lemma_apply_consistent(m: SupervisorView, op: Op)
    requires
        consistent(m),
    ensures
        consistent(apply(m, op)),
{
}

proof fn lemma_taken_in_bound(m: SupervisorView, ops: Seq<Op>)
    requires
        consistent(m),
    ensures
        taken_in(m, ops) <= if m.2 {
            0nat
        } else {
            1nat
        },
        run(m, ops).2 == (m.2 || taken_in(m, ops) == 1),
        consistent(run(m, ops)),
    decreases ops.len(),
{
    if ops.len() > 0 {
        lemma_apply_consistent(m, ops[0]);
        lemma_taken_in_bound(apply(m, ops[0]), ops.skip(1));
    }
}

/// Whatever operations happen, in whatever order, at most one process handle
/// is ever taken in, and a live handle is always that one.
pub proof fn lemma_single_handle(ops: Seq<Op>)
    ensures
        taken_in(initial(), ops) <= 1,
        run(initial(), ops).1 ==> run(initial(), ops).2,
{
    lemma_taken_in_bound(initial(), ops);
}

proof fn lemma_released_bound(m: SupervisorView, ops: Seq<Op>)
    requires
        consistent(m),
    ensures
        released(m, ops) <= if !m.2 || m.1 {
            1nat
        } else {
            0nat
        },
    decreases ops.len(),
{
    if ops.len() > 0 {
        lemma_apply_consistent(m, ops[0]);
        lemma_released_bound(apply(m, ops[0]), ops.skip(1));
    }
}

/// Whatever operations happen, from whatever callers and in whatever order,
/// the process is handed out for termination at most once.
pub proof fn lemma_terminated_at_most_once(ops: Seq<Op>)
    ensures
        released(initial(), ops) <= 1,
{
    lemma_released_bound(initial(), ops);
}

/// `Stopped` is final: once stopped, no run of operations leaves that state or
/// takes a handle in again, so a start still under way when a stop lands can
/// leave nothing running.
pub proof fn lemma_stopped_is_final(m: SupervisorView, ops: Seq<Op>)
    requires
        m.0 == SupervisorState::Stopped,
        !m.1,
    ensures
        run(m, ops).0 == SupervisorState::Stopped,
        !run(m, ops).1,
        taken_in(m, ops) == 0,
        released(m, ops) == 0,
    decreases ops.len(),
{
    if ops.len() > 0 {
        lemma_stopped_is_final(apply(m, ops[0]), ops.skip(1));
    }
}

/// Stopping `n >= 1` times in a row has the effect of stopping once, and
/// hands out the handle only if it was live before the first stop.
pub proof fn lemma_stop_idempotent(m: SupervisorView, n: nat)
    requires
        n >= 1,
    ensures
        run(m, stops(n)) == apply(m, Op::Stop),
        released(m, stops(n)) == if m.1 {
            1nat
        } else {
            0nat
        },
    decreases n,
{
    let s = stops(n);
    assert(s[0] == Op::Stop);
    assert(run(m, s) == run(apply(m, Op::Stop), s.skip(1)));
    assert(released(m, s) == (if releases(m, Op::Stop) {
        1nat
    } else {
        0nat
    }) + released(apply(m, Op::Stop), s.skip(1)));
    if n > 1 {
        assert(s.skip(1) =~= stops((n - 1) as nat));
        lemma_stop_idempotent(apply(m, Op::Stop), (n - 1) as nat);
        assert(apply(apply(m, Op::Stop), Op::Stop) == apply(m, Op::Stop));
    } else {
        assert(s.skip(1).len() == 0);
    }
}

} // verus!
