//! The background-task pump: runs the current state's pending work one
//! increment at a time until no work is left or its token expires.
use vstd::prelude::*;

verus! {

/// Why the pump stopped.
#[derive(Clone, Copy, PartialEq, Eq, Structural)]
pub enum PumpExit {
    /// The state had no pending work to start with.
    NoTask,
    /// The state reported no more pending work.
    Completed,
    /// The token expired: a newer key arrived.
    Expired,
}

/// Progress of one run of the pump.
#[derive(Clone, Copy, PartialEq, Eq, Structural)]
pub struct TaskPump {
    /// The busy indicator was shown, and must be cleared at the end.
    pub busy: bool,
    /// Why the pump stopped, or `None` while it runs.
    pub exit: Option<PumpExit>,
}

impl TaskPump {
    pub open spec fn begin_spec(has_task: bool) -> TaskPump {
        TaskPump {
            busy: has_task,
            exit: if has_task {
                None
            } else {
                Some(PumpExit::NoTask)
            },
        }
    }

    /// One round of a running pump, given whether the token was found
    /// expired and, if a unit of work was done, whether work remains.
    pub open spec fn round_spec(self, expired: bool, pending_after: bool) -> TaskPump {
        if self.exit is Some {
            self
        } else if expired {
            TaskPump { exit: Some(PumpExit::Expired), ..self }
        } else if !pending_after {
            TaskPump { exit: Some(PumpExit::Completed), ..self }
        } else {
            self
        }
    }

    /// Starts a run, given whether the state has pending work.
    pub fn begin(has_task: bool) -> (r: TaskPump)
        ensures
            r == TaskPump::begin_spec(has_task),
    {
        if has_task {
            TaskPump { busy: true, exit: None }
        } else {
            TaskPump { busy: false, exit: Some(PumpExit::NoTask) }
        }
    }

    pub fn is_running(&self) -> (r: bool)
        ensures
            r == (self.exit is None),
    {
        self.exit.is_none()
    }

    /// Records the token check of a round; returns whether one unit of
    /// work is to be done.
    pub fn check_expiry(&mut self, expired: bool) -> (work: bool)
        requires
            old(self).exit is None,
        ensures
            work == !expired,
            expired ==> *final(self) == old(self).round_spec(true, true),
            !expired ==> *final(self) == *old(self),
    {
        if expired {
            self.exit = Some(PumpExit::Expired);
            false
        } else {
            true
        }
    }

    /// Records whether work remains after one unit of work.
    pub fn after_work(&mut self, pending: bool)
        requires
            old(self).exit is None,
        ensures
            *final(self) == old(self).round_spec(false, pending),
    {
        if !pending {
            self.exit = Some(PumpExit::Completed);
        }
    }
}

/// The pump driven by the observations of successive rounds: at round `i`
/// the token is found expired iff `expired[i]`, and after a unit of work
/// the state reports pending work iff `pending[i]`. Gives the final pump
/// and the number of units of work done.
pub open spec fn drive(p: TaskPump, expired: Seq<bool>, pending: Seq<bool>) -> (TaskPump, nat)
    decreases expired.len(),
{
    if p.exit is Some || expired.len() == 0 || pending.len() == 0 {
        (p, 0)
    } else {
        let rest = drive(
            p.round_spec(expired[0], pending[0]),
            expired.drop_first(),
            pending.drop_first(),
        );
        (rest.0, rest.1 + if expired[0] {
            0nat
        } else {
            1nat
        })
    }
}

proof fn lemma_drive_completes(p: TaskPump, m: nat, expired: Seq<bool>, pending: Seq<bool>)
    requires
        p.exit is None,
        m >= 1,
        expired.len() >= m,
        pending.len() >= m,
        forall|i: int| 0 <= i < m ==> !expired[i],
        forall|i: int| 0 <= i < m - 1 ==> pending[i],
        !pending[m - 1],
    ensures
        drive(p, expired, pending) == (TaskPump { exit: Some(PumpExit::Completed), ..p }, m),
    decreases m,
{
    if m > 1 {
        let e2 = expired.drop_first();
        let a2 = pending.drop_first();
        assert(forall|i: int| 0 <= i < m - 1 ==> e2[i] == expired[i + 1]);
        assert(forall|i: int| 0 <= i < m - 2 ==> a2[i] == pending[i + 1]);
        lemma_drive_completes(p, (m - 1) as nat, e2, a2);
    } else {
        let q = p.round_spec(expired[0], pending[0]);
        assert(drive(q, expired.drop_first(), pending.drop_first()) == (q, 0nat));
    }
}

/// With no key arriving, a state that reports pending work for exactly
/// `n` units gets exactly `n` units of work, and the pump stops because
/// no work is left (or had none to start with). `answers[0]` is what the
/// state reports before the first unit, `answers[i]` what it reports after
/// the i-th.
pub proof fn lemma_pump_runs_every_task(answers: Seq<bool>, n: nat, expired: Seq<bool>)
    requires
        answers.len() == n + 1,
        forall|i: int| 0 <= i < n ==> answers[i],
        !answers[n as int],
        expired.len() >= n,
        forall|i: int| 0 <= i < n ==> !expired[i],
    ensures
        drive(TaskPump::begin_spec(answers[0]), expired, answers.drop_first()) == (TaskPump {
            busy: n > 0,
            exit: Some(
                if n == 0 {
                    PumpExit::NoTask
                } else {
                    PumpExit::Completed
                },
            ),
        }, n),
{
    if n > 0 {
        let a = answers.drop_first();
        assert(forall|i: int| 0 <= i < n ==> a[i] == answers[i + 1]);
        lemma_drive_completes(TaskPump::begin_spec(answers[0]), n, expired, a);
    }
}

/// A state with pending work whose token expires right after the first
/// unit of work gets exactly that one unit; the pump stops on expiry and
/// the busy indicator is cleared at the end.
pub proof fn lemma_pump_stops_on_expiry(expired: Seq<bool>, pending: Seq<bool>)
    requires
        expired.len() >= 2,
        !expired[0],
        expired[1],
        pending.len() >= 2,
        pending[0],
    ensures
        drive(TaskPump::begin_spec(true), expired, pending) == (TaskPump {
            busy: true,
            exit: Some(PumpExit::Expired),
        }, 1nat),
{
    let first = TaskPump::begin_spec(true).round_spec(expired[0], pending[0]);
    let e1 = expired.drop_first();
    let q1 = pending.drop_first();
    let second = first.round_spec(e1[0], q1[0]);
    assert(drive(second, e1.drop_first(), q1.drop_first()) == (second, 0nat));
    assert(drive(first, e1, q1) == (second, 0nat));
}

} // verus!
