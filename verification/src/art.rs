//! Lazy artwork lookups behind a poll interface.
//!
//! A view asks for the art behind a row as that row comes into sight; a
//! worker resolves it; the UI thread only enqueues and drains. Requests
//! carry the caller's own token (an album or track id) and are
//! deduplicated: asking again while one is in flight, or after it has
//! answered, costs nothing. A definite "no art" answer is remembered just
//! like art, so a row that has none never asks again.
//!
//! The worker thread and its channels belong to the shell: it starts the
//! worker and sends when told, and hands the answers back on each poll.

use vstd::prelude::*;
use std::collections::{HashMap, HashSet};

verus! {

broadcast use vstd::std_specs::hash::group_hash_axioms;

/// A cached cover: the thumbnails the views draw.
#[derive(Clone, Debug, PartialEq, Eq)]
pub struct CachedArt {
    /// Path of the 256 px thumbnail in the artwork cache (grid cards).
    pub thumb256: String,
    /// Path of the 512 px thumbnail, the biggest the cache keeps (Now
    /// Playing and the media bus).
    pub thumb512: String,
}

/// An exact copy of an answer.
fn copy_art(a: &Option<CachedArt>) -> (c: Option<CachedArt>)
    ensures
        c == *a,
{
    match a {
        Some(found) => Some(
            CachedArt { thumb256: found.thumb256.clone(), thumb512: found.thumb512.clone() },
        ),
        None => None,
    }
}

/// What one art request asks of the shell.
#[derive(Clone, Copy, Debug, PartialEq, Eq, Structural)]
pub enum ArtRequest {
    /// Already answered or in flight: nothing to do.
    Ignore,
    /// Send the request to the worker, starting it first when asked to.
    Send { start_worker: bool },
}

/// Deduplicated artwork lookups.
pub struct ArtCore {
    /// Artwork cache root the worker resolves into.
    cache_dir: String,
    /// Answered tokens; `None` means "resolved to no art".
    resolved: HashMap<i64, Option<CachedArt>>,
    /// Tokens with a request in flight.
    asked: HashSet<i64>,
    /// Whether the worker runs.
    worker: bool,
}

impl ArtCore {
    /// The answers so far, by token.
    pub closed spec fn answers(&self) -> Map<i64, Option<CachedArt>> {
        self.resolved@
    }

    /// The tokens in flight.
    pub closed spec fn in_flight(&self) -> Set<i64> {
        self.asked@
    }

    /// The artwork cache root.
    pub closed spec fn cache_root(&self) -> String {
        self.cache_dir
    }

    /// Whether the worker runs.
    pub closed spec fn has_worker(&self) -> bool {
        self.worker
    }

    /// `token` was answered or is being looked up.
    pub open spec fn knows(&self, token: i64) -> bool {
        self.answers().contains_key(token) || self.in_flight().contains(token)
    }

    /// Resolver over an explicit cache root: nothing asked, nothing
    /// answered, no worker yet.
    pub fn with_cache_dir(cache_dir: String) -> (core: Self)
        ensures
            core.cache_root() == cache_dir,
            core.answers() == Map::<i64, Option<CachedArt>>::empty(),
            core.in_flight() == Set::<i64>::empty(),
            !core.has_worker(),
    {
        ArtCore { cache_dir, resolved: HashMap::new(), asked: HashSet::new(), worker: false }
    }

    /// Ask for the art behind `token`. Tokens already answered or in flight
    /// are ignored; otherwise the token goes in flight and the shell sends
    /// it, starting the worker on the first real request.
    pub fn request(&mut self, token: i64) -> (ask: ArtRequest)
        ensures
            old(self).knows(token) ==> ask == ArtRequest::Ignore && final(self).answers() == old(self).answers() && final(self).in_flight() == old(self).in_flight() && final(self).has_worker() == old(self).has_worker(),
            !old(self).knows(token) ==> ask == (ArtRequest::Send {
                start_worker: !old(self).has_worker(),
            }) && final(self).in_flight() == old(self).in_flight().insert(token) && final(self).answers() == old(self).answers() && final(self).has_worker(),
            final(self).knows(token),
            final(self).cache_root() == old(self).cache_root(),
    {
        if self.resolved.contains_key(&token) {
            return ArtRequest::Ignore;
        }
        if !self.asked.insert(token) {
            return ArtRequest::Ignore;
        }
        let start_worker = !self.worker;
        self.worker = true;
        ArtRequest::Send { start_worker }
    }

    /// The worker could not take `token` (it died): drop the worker so the
    /// next request starts a new one, and let `token` be asked again.
    pub fn send_failed(&mut self, token: i64)
        ensures
            !final(self).has_worker(),
            final(self).in_flight() == old(self).in_flight().remove(token),
            final(self).answers() == old(self).answers(),
            final(self).cache_root() == old(self).cache_root(),
    {
        self.worker = false;
        self.asked.remove(&token);
    }

    /// Drain finished lookups, given in arrival order: each token leaves
    /// the in-flight set and its answer (art or none) is remembered.
    /// Returns the tokens that just landed, empty on a quiet poll or when
    /// no worker runs.
    pub fn poll(&mut self, arrived: Vec<(i64, Option<CachedArt>)>) -> (settled: Vec<i64>)
        ensures
            !old(self).has_worker() ==> settled@.len() == 0 && final(self).answers() == old(self).answers() && final(self).in_flight() == old(self).in_flight(),
            old(self).has_worker() ==> settled@ == arrived@.map_values(
                |a: (i64, Option<CachedArt>)| a.0,
            ) && final(self).answers() == settle(old(self).answers(), arrived@) && final(self).in_flight() == old(self).in_flight().difference(tokens_of(arrived@)),
            forall|t: i64| old(self).knows(t) ==> #[trigger] final(self).knows(t),
            final(self).has_worker() == old(self).has_worker(),
            final(self).cache_root() == old(self).cache_root(),
    {
        let mut settled: Vec<i64> = Vec::new();
        if !self.worker {
            return settled;
        }
        let ghost start_answers = self.resolved@;
        let ghost start_asked = self.asked@;
        let mut i: usize = 0;
        while i < arrived.len()
            invariant
                i <= arrived@.len(),
                self.worker,
                self.cache_dir == old(self).cache_root(),
                start_answers == old(self).answers(),
                start_asked == old(self).in_flight(),
                settled@ == arrived@.take(i as int).map_values(|a: (i64, Option<CachedArt>)| a.0),
                self.resolved@ == settle(start_answers, arrived@.take(i as int)),
                self.asked@ == start_asked.difference(tokens_of(arrived@.take(i as int))),
                forall|t: i64|
                    #[trigger] old(self).knows(t) ==> self.resolved@.contains_key(t)
                        || self.asked@.contains(t),
            decreases arrived@.len() - i,
        {
            let token = arrived[i].0;
            let art = copy_art(&arrived[i].1);
            let ghost before = arrived@.take(i as int);
            assert(arrived@.take(i + 1) =~= before.push(arrived@[i as int]));
            assert(before.push(arrived@[i as int]).drop_last() =~= before);
            let ghost asked_before = self.asked@;
            let ghost resolved_before = self.resolved@;
            self.asked.remove(&token);
            assert(self.asked@ == asked_before.remove(token));
            self.resolved.insert(token, art);
            assert(self.resolved@ == resolved_before.insert(token, art));
            settled.push(token);
            assert(tokens_of(arrived@.take(i + 1)) =~= tokens_of(before).insert(token)) by {
                assert forall|t: i64| tokens_of(arrived@.take(i + 1)).contains(t) implies tokens_of(
                    before,
                ).insert(token).contains(t) by {
                    let k = choose|k: int|
                        0 <= k < arrived@.take(i + 1).len() && #[trigger] arrived@.take(
                            i + 1,
                        )[k].0 == t;
                    if k < i {
                        assert(before[k] == arrived@.take(i + 1)[k]);
                    }
                }
                assert forall|t: i64| tokens_of(before).insert(token).contains(t) implies tokens_of(
                    arrived@.take(i + 1),
                ).contains(t) by {
                    if t == token {
                        assert(arrived@.take(i + 1)[i as int].0 == t);
                    } else {
                        let k = choose|k: int| 0 <= k < before.len() && #[trigger] before[k].0 == t;
                        assert(arrived@.take(i + 1)[k] == before[k]);
                    }
                }
            }
            assert(settled@ =~= arrived@.take(i + 1).map_values(
                |a: (i64, Option<CachedArt>)| a.0,
            ));
            assert(self.asked@ =~= start_asked.difference(tokens_of(arrived@.take(i + 1))));
            i = i + 1;
        }
        assert(arrived@.take(arrived@.len() as int) =~= arrived@);
        settled
    }

    /// Cached artwork for `token`, once resolved and once it had any.
    pub fn art(&self, token: i64) -> (a: Option<CachedArt>)
        ensures
            a == if self.answers().contains_key(token) {
                self.answers()[token]
            } else {
                None
            },
    {
        match self.resolved.get(&token) {
            Some(found) => copy_art(found),
            None => None,
        }
    }

    /// The artwork cache root the worker resolves into.
    pub fn cache_dir(&self) -> (d: &String)
        ensures
            *d == self.cache_root(),
    {
        &self.cache_dir
    }

    /// Whether any lookup is still in flight.
    pub fn pending(&self) -> (b: bool)
        ensures
            b == !self.in_flight().is_empty(),
    {
        !self.asked.is_empty()
    }
}

/// The answers after remembering `arrived`, in order (a later answer for
/// the same token wins).
pub open spec fn settle(
    answers: Map<i64, Option<CachedArt>>,
    arrived: Seq<(i64, Option<CachedArt>)>,
) -> Map<i64, Option<CachedArt>>
    decreases arrived.len(),
{
    if arrived.len() == 0 {
        answers
    } else {
        settle(answers, arrived.drop_last()).insert(arrived.last().0, arrived.last().1)
    }
}

/// The tokens of some answers.
pub open spec fn tokens_of(arrived: Seq<(i64, Option<CachedArt>)>) -> Set<i64> {
    Set::new(|t: i64| exists|k: int| 0 <= k < arrived.len() && #[trigger] arrived[k].0 == t)
}

} // verus!
