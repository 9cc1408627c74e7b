//! Scan coordination: the attempt budget of a run and the arithmetic of
//! merging per-worker results.
//!
//! The coordinator itself spawns one worker per target and joins them all;
//! spawning and joining are threading done by the surrounding binary.  What
//! is verified here is what the coordinator computes: the total number of
//! attempts a run makes, and that per-worker success counts add up with no
//! update lost.

use vstd::prelude::*;
use crate::creds::Credential;
use crate::worker::{handed_out, lemma_worker_run, Worker, WorkerStatus};

verus! {

/// Sum of the per-worker success counts.
pub open spec fn total_of(counts: Seq<nat>) -> nat
    decreases counts.len(),
{
    if counts.len() == 0 {
        0
    } else {
        total_of(counts.drop_last()) + counts.last()
    }
}

/// Law: merged worker results lose no update — `n` workers that each
/// record `m` successes tally to exactly `n * m`.
pub proof fn lemma_uniform_totals(counts: Seq<nat>, m: nat)
    requires
        forall|i: int| 0 <= i < counts.len() ==> counts[i] == m,
    ensures
        total_of(counts) == counts.len() * m,
    decreases counts.len(),
{
    if counts.len() > 0 {
        lemma_uniform_totals(counts.drop_last(), m);
        assert((counts.len() - 1) * m + m == counts.len() * m) by (nonlinear_arith);
    }
}

/// Law: a run makes exactly one attempt per (target, credential pair)
/// combination.  With one worker unit per target, each given the whole
/// working set, every unit hands out exactly the working set, in order; the
/// attempts across all targets therefore number
/// `targets.len() * creds.len()`, the budget that `total_attempts` computes.
pub proof fn lemma_one_attempt_per_combination(hosts: Seq<String>, creds: Vec<Credential>)
    ensures
        forall|t: int|
            0 <= t < hosts.len() ==> handed_out(
                (Worker { host: hosts[t], creds, next: 0, status: WorkerStatus::Idle }),
                creds@.len(),
            ) == creds@,
        total_of(Seq::new(hosts.len(), |t: int| creds@.len())) == hosts.len() * creds@.len(),
{
    assert forall|t: int| 0 <= t < hosts.len() implies handed_out(
        (Worker { host: hosts[t], creds, next: 0, status: WorkerStatus::Idle }),
        creds@.len(),
    ) == creds@ by {
        let w = Worker { host: hosts[t], creds, next: 0, status: WorkerStatus::Idle };
        lemma_worker_run(w, creds@.len());
    }
    lemma_uniform_totals(Seq::new(hosts.len(), |t: int| creds@.len()), creds@.len());
}

/// How many attempts a run makes: one per (target, credential pair)
/// combination; `None` when that product does not fit in a `usize`.
pub fn total_attempts(n_targets: usize, n_creds: usize) -> (r: Option<usize>)
    ensures
        r matches Some(t) ==> t == n_targets * n_creds,
        r is None <==> n_targets * n_creds > usize::MAX,
{
    n_targets.checked_mul(n_creds)
}

} // verus!
