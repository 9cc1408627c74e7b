//! Result aggregation: the shared success counter and the append-only
//! success records.
//!
//! Worker units share one `Tally` for a whole run (the surrounding binary
//! holds it behind a lock and appends each returned line to the log file
//! inside the same critical section).  Its invariant is the aggregation
//! law: the counter always equals the number of records written.

use vstd::prelude::*;
use vstd::string::StringExecFns;

verus! {

/// The persisted form of one success: `username:password@host`.
pub open spec fn success_line(user: Seq<char>, pass: Seq<char>, host: Seq<char>) -> Seq<char> {
    user + seq![':'] + pass + seq!['@'] + host
}

/// Render the success record of one winning triple.
pub fn render_success_line(user: &str, pass: &str, host: &str) -> (r: String)
    ensures
        r@ == success_line(user@, pass@, host@),
{
    let mut s = user.to_owned();
    s.append(":");
    s.append(pass);
    s.append("@");
    s.append(host);
    proof {
        reveal_strlit(":");
        reveal_strlit("@");
        assert(s@ =~= success_line(user@, pass@, host@));
    }
    s
}

/// The process-wide tally of successes: a counter and the success records,
/// mutated together.
pub struct Tally {
    pub count: u64,
    pub records: Vec<String>,
}

impl Tally {
    /// The aggregation invariant: the counter equals the number of records.
    pub open spec fn wf(self) -> bool {
        self.count == self.records.len()
    }

    /// An empty tally.
    pub fn new() -> (t: Tally)
        ensures
            t.wf(),
            t.count == 0,
            t.records@ == Seq::<String>::empty(),
    {
        Tally { count: 0, records: Vec::new() }
    }

    /// Record one success: exactly one counter increment and exactly one
    /// new record, appended after everything recorded before.  Returns the
    /// record's line for the caller to append to the log file.
    pub fn record_success(&mut self, user: &str, pass: &str, host: &str) -> (line: String)
        requires
            old(self).wf(),
            old(self).count < u64::MAX,
        ensures
            final(self).wf(),
            line@ == success_line(user@, pass@, host@),
            final(self).records@ == old(self).records@.push(line),
            final(self).count == old(self).count + 1,
    {
        let line = render_success_line(user, pass, host);
        self.records.push(line.clone());
        self.count = self.count + 1;
        line
    }
}

/// Law: at any point of a run — in particular at its end — the tally's
/// counter equals the number of success records written.
pub proof fn lemma_counter_matches_records(t: Tally)
    requires
        t.wf(),
    ensures
        t.count == t.records@.len(),
{
}

} // verus!
