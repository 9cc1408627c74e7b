//! Worker unit: one per target host, stepping through its assigned
//! credential pairs in input order.
//!
//! The unit is a state machine `Idle -> Running -> Done`.  Each call of
//! `next_attempt` hands out the next pair to try; the caller opens the
//! channel, runs the authentication attempt, records the outcome, paces,
//! and comes back for the next pair.  Outcomes never feed back into the
//! machine: a failure simply advances to the next pair, so a target that
//! never accepts a connection still sees every pair exactly once.

use vstd::prelude::*;
use crate::creds::Credential;
use crate::rng::sample_range_u64;

verus! {

/// Lower bound (inclusive) of the stealth pause between attempts, in ms.
pub const PACE_MIN_MS: u64 = 500;

/// Upper bound (exclusive) of the stealth pause between attempts, in ms.
pub const PACE_MAX_MS: u64 = 1500;

/// Where a worker unit stands in its life cycle.
#[derive(Clone, Copy, Debug, PartialEq, Eq, Structural)]
pub enum WorkerStatus {
    /// Created, no pair handed out yet.
    Idle,
    /// At least one pair handed out, more may remain.
    Running,
    /// Every assigned pair has been handed out.
    Done,
}

/// One worker unit: a target host, its assigned credential pairs, and how
/// far it has come.
pub struct Worker {
    pub host: String,
    pub creds: Vec<Credential>,
    pub next: usize,
    pub status: WorkerStatus,
}

impl Worker {
    /// The unit's invariant: the cursor stays within the list, a fresh unit
    /// stands at the start, and a finished one has exhausted the list.
    pub open spec fn wf(self) -> bool {
        &&& self.next <= self.creds.len()
        &&& (self.status is Idle ==> self.next == 0)
        &&& (self.status is Done ==> self.next == self.creds.len())
    }

    /// How many pairs are still to be handed out.
    pub open spec fn remaining(self) -> nat {
        (self.creds.len() - self.next) as nat
    }

    /// What one step does to the unit: advance past the next pair, or, with
    /// the list exhausted, settle in `Done`.
    pub open spec fn stepped(self) -> Worker {
        if self.next < self.creds.len() {
            Worker { next: (self.next + 1) as usize, status: WorkerStatus::Running, ..self }
        } else {
            Worker { status: WorkerStatus::Done, ..self }
        }
    }

    /// What one step hands out: the pair under the cursor, or nothing once
    /// the list is exhausted.
    pub open spec fn step_output(self) -> Option<Credential> {
        if self.next < self.creds.len() {
            Some(self.creds[self.next as int])
        } else {
            None
        }
    }

    /// A fresh unit for one target.
    pub fn new(host: String, creds: Vec<Credential>) -> (w: Worker)
        ensures
            w.wf(),
            w.host == host,
            w.creds == creds,
            w.next == 0,
            w.status is Idle,
    {
        Worker { host, creds, next: 0, status: WorkerStatus::Idle }
    }

    /// Hand out the next credential pair to attempt, exactly one per call
    /// and in input order; `None` once, and from then on always, when every
    /// assigned pair has been handed out.
    pub fn next_attempt(&mut self) -> (r: Option<Credential>)
        requires
            old(self).wf(),
        ensures
            final(self).wf(),
            *final(self) == old(self).stepped(),
            r matches Some(c) ==> c == old(self).step_output().unwrap(),
            r is Some <==> old(self).step_output() is Some,
            r is None <==> final(self).status is Done,
            old(self).remaining() > 0 ==> final(self).remaining() == old(self).remaining() - 1,
    {
        if self.next < self.creds.len() {
            let c = self.creds[self.next].duplicate();
            self.next = self.next + 1;
            self.status = WorkerStatus::Running;
            Some(c)
        } else {
            self.status = WorkerStatus::Done;
            None
        }
    }

    /// Whether the unit has reached `Done`.
    pub fn is_done(&self) -> (r: bool)
        ensures
            r == self.status is Done,
    {
        matches!(self.status, WorkerStatus::Done)
    }
}

/// The unit after `k` steps.
pub open spec fn run(w: Worker, k: nat) -> Worker
    decreases k,
{
    if k == 0 {
        w
    } else {
        run(w, (k - 1) as nat).stepped()
    }
}

/// Every pair handed out within the first `k` steps, in order.
pub open spec fn handed_out(w: Worker, k: nat) -> Seq<Credential>
    decreases k,
{
    if k == 0 {
        Seq::empty()
    } else {
        let prev = run(w, (k - 1) as nat);
        handed_out(w, (k - 1) as nat) + match prev.step_output() {
            Some(c) => seq![c],
            None => Seq::empty(),
        }
    }
}

/// Law: a fresh worker unit hands out each of its credential pairs exactly
/// once, in input order, and nothing else; after `creds.len()` steps the
/// list is exhausted and every later step hands out nothing and leaves the
/// unit `Done`.  The steps take no outcome as input, so this holds whatever
/// the attempts return — in particular for a target that never accepts.
pub proof fn lemma_worker_run(w: Worker, k: nat)
    requires
        w.wf(),
        w.next == 0,
    ensures
        run(w, k).wf(),
        run(w, k).creds == w.creds,
        run(w, k).host == w.host,
        run(w, k).next == if k <= w.creds.len() {
            k
        } else {
            w.creds@.len()
        },
        handed_out(w, k) == w.creds@.take(if k <= w.creds.len() {
            k as int
        } else {
            w.creds@.len() as int
        }),
        k > w.creds.len() ==> run(w, k).status is Done,
        k == w.creds.len() ==> handed_out(w, k) == w.creds@,
    decreases k,
{
    if k == 0 {
        assert(w.creds@.take(0) =~= Seq::<Credential>::empty());
    } else {
        lemma_worker_run(w, (k - 1) as nat);
        let prev = run(w, (k - 1) as nat);
        if prev.next < prev.creds.len() {
            assert(w.creds@.take(prev.next + 1) =~= w.creds@.take(prev.next as int).push(
                w.creds@[prev.next as int],
            ));
        } else {
            assert(handed_out(w, k) =~= handed_out(w, (k - 1) as nat));
        }
        if k == w.creds.len() {
            assert(w.creds@.take(w.creds@.len() as int) =~= w.creds@);
        }
    }
}

/// Draw the stealth pause before the next attempt: a fresh pseudo-random
/// duration in `[PACE_MIN_MS, PACE_MAX_MS)` milliseconds.
pub fn pacing_delay_ms() -> (d: u64)
    ensures
        PACE_MIN_MS <= d < PACE_MAX_MS,
{
    sample_range_u64(PACE_MIN_MS, PACE_MAX_MS)
}

} // verus!
