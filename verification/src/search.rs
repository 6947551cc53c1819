//! Debounced search bookkeeping: keystrokes in, the latest results out.
//!
//! Every submit bumps a generation; results carrying an older generation
//! than the newest submit are stale and never surface, so the UI cannot
//! flash outdated rows. The worker thread that waits out the quiet window
//! and runs the query belongs to the shell; it asks
//! [`coalesce_queries`] which query a burst settles on and
//! [`superseding_query`] whether a newer one arrived mid-flight.

use vstd::prelude::*;
use crate::error::{Error, message_spec};
use crate::text::{chars_of, string_of};

verus! {

/// Keystroke quiet window before a query runs, in milliseconds.
pub const SEARCH_DEBOUNCE_MS: u64 = 150;

/// Debounced search state behind a poll interface; `R` is the result set.
pub struct SearchCore<R> {
    /// Index the worker searches.
    pub db_path: String,
    /// Quiet window in milliseconds.
    pub debounce_ms: u64,
    /// Generation of the newest submit.
    pub submitted: u64,
    /// Generation of the newest answered query.
    pub settled: u64,
    /// Results waiting to be taken.
    pub delivered: Option<R>,
    /// Last failure, if any.
    pub last_error: Option<String>,
}

/// Answered generations never run ahead of submitted ones.
pub open spec fn search_wf<R>(core: SearchCore<R>) -> bool {
    core.settled <= core.submitted
}

impl<R> SearchCore<R> {
    /// Search over an explicit index path: idle, nothing delivered.
    pub fn with_db_path(db_path: String) -> (core: Self)
        ensures
            search_wf(core),
            core.db_path == db_path,
            core.debounce_ms == SEARCH_DEBOUNCE_MS,
            core.submitted == 0,
            core.settled == 0,
            core.delivered is None,
            core.last_error is None,
    {
        SearchCore {
            db_path,
            debounce_ms: SEARCH_DEBOUNCE_MS,
            submitted: 0,
            settled: 0,
            delivered: None,
            last_error: None,
        }
    }

    /// Shorten the quiet window.
    pub fn set_debounce(&mut self, debounce_ms: u64)
        ensures
            final(self).debounce_ms == debounce_ms,
            final(self).submitted == old(self).submitted,
            final(self).settled == old(self).settled,
            final(self).delivered == old(self).delivered,
            final(self).last_error == old(self).last_error,
            final(self).db_path == old(self).db_path,
    {
        self.debounce_ms = debounce_ms;
    }

    /// Start a new query: it supersedes every older one and owns the error
    /// line. Returns the generation to send along with the query text.
    pub fn submit(&mut self) -> (generation: u64)
        requires
            search_wf(*old(self)),
            old(self).submitted < u64::MAX,
        ensures
            search_wf(*final(self)),
            generation == old(self).submitted + 1,
            final(self).submitted == generation,
            final(self).settled == old(self).settled,
            final(self).last_error is None,
            final(self).delivered == old(self).delivered,
            final(self).db_path == old(self).db_path,
    {
        self.submitted = self.submitted + 1;
        self.last_error = None;
        self.submitted
    }

    /// The worker could not be started: settle everything submitted (the UI
    /// never spins on a query nobody answers) and say why.
    pub fn worker_spawn_failed(&mut self, detail: String)
        requires
            search_wf(*old(self)),
        ensures
            search_wf(*final(self)),
            final(self).settled == final(self).submitted,
            final(self).submitted == old(self).submitted,
            final(self).last_error is Some,
            final(self).last_error->0@ == "cannot access `"@ + "<search thread>"@ + "`: "@ + detail@,
            final(self).delivered == old(self).delivered,
    {
        self.settled = self.submitted;
        let ghost d = detail@;
        let e = Error::Io { path: string_of(chars_of("<search thread>").as_slice()), detail };
        let text = e.message();
        assert(text@ == "cannot access `"@ + "<search thread>"@ + "`: "@ + d);
        self.last_error = Some(text);
    }

    /// The query could not be handed to the worker: settle it; keep an
    /// earlier failure, else say the worker is unavailable.
    pub fn submit_refused(&mut self)
        requires
            search_wf(*old(self)),
        ensures
            search_wf(*final(self)),
            final(self).settled == final(self).submitted,
            final(self).submitted == old(self).submitted,
            old(self).last_error is Some ==> final(self).last_error == old(self).last_error,
            old(self).last_error is None ==> final(self).last_error is Some
                && final(self).last_error->0@ == "search worker unavailable"@,
            final(self).delivered == old(self).delivered,
    {
        self.settled = self.submitted;
        if self.last_error.is_none() {
            self.last_error = Some(string_of(chars_of("search worker unavailable").as_slice()));
        }
    }

    /// Take one settled answer from the worker. An answer older than the
    /// newest submit is stale and dropped; otherwise it settles its
    /// generation and is delivered — the found results, or `cleared` with
    /// the failure on the error line. Returns whether it was delivered.
    pub fn receive(&mut self, generation: u64, outcome: Result<R, String>, cleared: R) -> (taken: bool)
        requires
            search_wf(*old(self)),
            generation <= old(self).submitted,
        ensures
            search_wf(*final(self)),
            taken == (generation >= old(self).submitted),
            final(self).submitted == old(self).submitted,
            !taken ==> final(self).settled == old(self).settled && final(self).delivered == old(
                self,
            ).delivered && final(self).last_error == old(self).last_error,
            taken ==> final(self).settled == generation && match outcome {
                Ok(found) => final(self).delivered == Some(found) && final(self).last_error is None,
                Err(m) => final(self).delivered == Some(cleared) && final(self).last_error == Some(
                    m,
                ),
            },
    {
        if generation < self.submitted {
            return false;
        }
        self.settled = generation;
        match outcome {
            Ok(found) => {
                self.delivered = Some(found);
                self.last_error = None;
            },
            Err(m) => {
                self.delivered = Some(cleared);
                self.last_error = Some(m);
            },
        }
        true
    }

    /// Drain the worker's answers, in arrival order. Answers older than the
    /// newest submit are stale and dropped, so outdated rows never surface;
    /// the newest fresh answer settles and is delivered (a failure delivers
    /// `cleared` and puts its text on the error line). Returns whether one
    /// was delivered.
    pub fn poll(&mut self, arrived: Vec<(u64, Result<R, String>)>, cleared: R) -> (taken: bool)
        requires
            search_wf(*old(self)),
            forall|i: int| 0 <= i < arrived@.len() ==> #[trigger] arrived@[i].0 <= old(self).submitted,
        ensures
            search_wf(*final(self)),
            final(self).submitted == old(self).submitted,
            taken == last_fresh(arrived@, old(self).submitted) is Some,
            match last_fresh(arrived@, old(self).submitted) {
                None => final(self).settled == old(self).settled && final(self).delivered == old(
                    self,
                ).delivered && final(self).last_error == old(self).last_error,
                Some(i) => {
                    &&& arrived@[i].0 == old(self).submitted
                    &&& final(self).settled == old(self).submitted
                    &&& match arrived@[i].1 {
                        Ok(found) => final(self).delivered == Some(found)
                            && final(self).last_error is None,
                        Err(m) => final(self).delivered == Some(cleared)
                            && final(self).last_error == Some(m),
                    }
                },
            },
    {
        let ghost all = arrived@;
        let mut rest = arrived;
        while rest.len() > 0
            invariant
                all == arrived@,
                search_wf(*self),
                *self == *old(self),
                rest@ == all.take(rest@.len() as int),
                rest@.len() <= all.len(),
                forall|i: int| 0 <= i < all.len() ==> #[trigger] all[i].0 <= old(self).submitted,
                forall|j: int| rest@.len() <= j < all.len() ==> #[trigger] all[j].0 < old(self).submitted,
                last_fresh(all, old(self).submitted) == last_fresh(rest@, old(self).submitted),
            decreases rest@.len(),
        {
            let ghost before = rest@;
            let (generation, outcome) = rest.pop().unwrap();
            assert(before == rest@.push((generation, outcome)));
            assert(rest@ =~= all.take(rest@.len() as int));
            if generation >= self.submitted {
                let ghost k = rest@.len() as int;
                let ghost got = (generation, outcome);
                proof {
                    assert(last_fresh(before, old(self).submitted) == Some(k));
                    assert(before[k] == all[k]);
                    assert(all[k] == got);
                }
                let taken = self.receive(generation, outcome, cleared);
                proof {
                    assert(last_fresh(all, old(self).submitted) == Some(k));
                }
                return taken;
            }
            proof {
                assert(before.drop_last() =~= rest@);
            }
        }
        false
    }

    /// Take the latest settled results exactly once.
    pub fn take_results(&mut self) -> (r: Option<R>)
        ensures
            r == old(self).delivered,
            final(self).delivered is None,
            final(self).submitted == old(self).submitted,
            final(self).settled == old(self).settled,
            final(self).last_error == old(self).last_error,
    {
        self.delivered.take()
    }

    /// Whether a submitted query is still waiting on the worker.
    pub fn is_searching(&self) -> (b: bool)
        ensures
            b == (self.settled < self.submitted),
    {
        self.settled < self.submitted
    }

    /// Last search failure, if any.
    pub fn error_text(&self) -> (m: Option<String>)
        ensures
            m == self.last_error,
    {
        match &self.last_error {
            Some(t) => Some(t.clone()),
            None => None,
        }
    }
}

/// Position of the last answer that is not older than `submitted`.
pub open spec fn last_fresh<R>(arrived: Seq<(u64, Result<R, String>)>, submitted: u64) -> Option<int>
    decreases arrived.len(),
{
    if arrived.len() == 0 {
        None
    } else if arrived.last().0 >= submitted {
        Some(arrived.len() - 1)
    } else {
        last_fresh(arrived.drop_last(), submitted)
    }
}

/// `last_fresh` names an answer of the newest generation, the last one.
pub proof fn lemma_last_fresh_is_newest<R>(arrived: Seq<(u64, Result<R, String>)>, submitted: u64)
    requires
        forall|i: int| 0 <= i < arrived.len() ==> #[trigger] arrived[i].0 <= submitted,
    ensures
        match last_fresh(arrived, submitted) {
            None => forall|i: int| 0 <= i < arrived.len() ==> #[trigger] arrived[i].0 < submitted,
            Some(k) => 0 <= k < arrived.len() && arrived[k].0 == submitted && forall|j: int|
                k < j < arrived.len() ==> #[trigger] arrived[j].0 < submitted,
        },
    decreases arrived.len(),
{
    if arrived.len() > 0 && arrived.last().0 < submitted {
        let p = arrived.drop_last();
        assert forall|i: int| 0 <= i < p.len() implies #[trigger] p[i].0 <= submitted by {
            assert(p[i] == arrived[i]);
        }
        lemma_last_fresh_is_newest(p, submitted);
        match last_fresh(p, submitted) {
            None => {
                assert forall|i: int| 0 <= i < arrived.len() implies #[trigger] arrived[i].0
                    < submitted by {
                    if i < p.len() {
                        assert(p[i] == arrived[i]);
                    }
                }
            },
            Some(k) => {
                assert(p[k] == arrived[k]);
                assert forall|j: int| k < j < arrived.len() implies #[trigger] arrived[j].0
                    < submitted by {
                    if j < p.len() {
                        assert(p[j] == arrived[j]);
                    }
                }
            },
        }
    }
}

/// Outcome of one quiet-window wait.
#[derive(Debug)]
pub enum Coalesced {
    /// Newest query after a full quiet window.
    Settled(u64, String),
    /// Handle dropped mid-window: answer the pending query, then shut down.
    Shutdown(u64, String),
}

/// The query a burst settles on: the newest of those that arrived within
/// the window, else the one the wait started with; `Shutdown` when the
/// handle went away instead of the window closing.
pub fn coalesce_queries(
    generation: u64,
    query: String,
    arrived: Vec<(u64, String)>,
    disconnected: bool,
) -> (c: Coalesced)
    ensures
        ({
            let (g, q) = if arrived@.len() > 0 {
                arrived@.last()
            } else {
                (generation, query)
            };
            if disconnected {
                c == Coalesced::Shutdown(g, q)
            } else {
                c == Coalesced::Settled(g, q)
            }
        }),
{
    let mut arrived = arrived;
    let (g, q) = match arrived.pop() {
        Some(newest) => newest,
        None => (generation, query),
    };
    if disconnected {
        Coalesced::Shutdown(g, q)
    } else {
        Coalesced::Settled(g, q)
    }
}

/// The newest query among those that landed while the current one ran;
/// `None` when none did (the current outcome stands).
pub fn superseding_query(arrived: Vec<(u64, String)>) -> (newest: Option<(u64, String)>)
    ensures
        newest == if arrived@.len() > 0 {
            Some(arrived@.last())
        } else {
            None
        },
{
    let mut arrived = arrived;
    arrived.pop()
}

} // verus!
