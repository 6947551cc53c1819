//! Batch entry points of the queue (Play all, Play next, enqueue by ids,
//! album/artist/list enqueues), the settings a fresh engine starts from,
//! and what a queue row's roles read.

use vstd::prelude::*;
use crate::browse::RoleValue;
use crate::playback::{RepeatMode, ReplayGainMode};
use crate::queue_model::{
    EngineView, Gone, QueueItem, QueueModel, TrackLookup, count_field, gone_message, gone_text,
    lookup_message, rows_of,
};
use crate::rows::row_views;
use crate::text::{chars_of, string_of};

verus! {

/// The playable items among some lookups, in order.
pub open spec fn playable_items(lookups: Seq<TrackLookup>) -> Seq<QueueItem>
    decreases lookups.len(),
{
    if lookups.len() == 0 {
        Seq::empty()
    } else {
        let rest = playable_items(lookups.drop_last());
        match lookups.last() {
            TrackLookup::Playable(item) => rest.push(item),
            _ => rest,
        }
    }
}

/// The message of the last lookup that failed, if any did.
pub open spec fn last_failure(lookups: Seq<TrackLookup>) -> Option<Seq<char>>
    decreases lookups.len(),
{
    if lookups.len() == 0 {
        None
    } else {
        match lookup_message(lookups.last()) {
            Some(m) => Some(m),
            None => last_failure(lookups.drop_last()),
        }
    }
}

/// What a fresh engine is set up with from the settings (volume and the
/// equalizer bands aside, which the shell carries).
#[derive(Debug)]
pub struct EngineSetup {
    pub muted: bool,
    pub shuffle: bool,
    pub repeat: RepeatMode,
    pub replaygain: ReplayGainMode,
    pub crossfade_secs: u8,
    /// Output to select; `None` keeps the system default.
    pub output_device: Option<String>,
    pub eq_enabled: bool,
}

/// Role numbers of the queue rows.
pub const QUEUE_TITLE: i32 = 0;
pub const QUEUE_ARTIST: i32 = 1;
pub const QUEUE_ALBUM: i32 = 2;
pub const QUEUE_DURATION_MS: i32 = 3;
pub const QUEUE_IS_CURRENT: i32 = 4;
pub const QUEUE_TRACK_ID: i32 = 5;
pub const QUEUE_MISSING: i32 = 6;

impl QueueModel {
    /// The settings a fresh engine starts from: mute, shuffle, repeat,
    /// `ReplayGain`, crossfade, equalizer switch, and the stored output when
    /// one is stored.
    pub fn engine_setup(&self) -> (setup: EngineSetup)
        ensures
            setup.muted == self.settings.playback.muted,
            setup.shuffle == self.settings.playback.shuffle,
            setup.repeat == self.settings.playback.repeat_mode,
            setup.replaygain == self.settings.playback.replaygain,
            setup.crossfade_secs == self.settings.playback.crossfade_secs,
            setup.eq_enabled == self.settings.playback.eq_enabled,
            match setup.output_device {
                Some(d) => d == self.settings.playback.output_device
                    && self.settings.playback.output_device@.len() > 0,
                None => self.settings.playback.output_device@.len() == 0,
            },
    {
        let p = &self.settings.playback;
        EngineSetup {
            muted: p.muted,
            shuffle: p.shuffle,
            repeat: p.repeat_mode,
            replaygain: p.replaygain,
            crossfade_secs: p.crossfade_secs,
            output_device: if p.output_device.as_str().is_empty() {
                None
            } else {
                Some(p.output_device.clone())
            },
            eq_enabled: p.eq_enabled,
        }
    }

    /// Data for one queue row and role (title, artist, album, duration,
    /// now playing, track id, missing); invalid out of range or for an
    /// unknown role.
    pub fn row_data(&self, row: usize, repr: i32) -> (v: RoleValue)
        ensures
            v == if row < self.rows@.len() {
                let r = self.rows@[row as int];
                if repr == QUEUE_TITLE {
                    RoleValue::Text(r.title)
                } else if repr == QUEUE_ARTIST {
                    RoleValue::Text(r.artist)
                } else if repr == QUEUE_ALBUM {
                    RoleValue::Text(r.album)
                } else if repr == QUEUE_DURATION_MS {
                    RoleValue::Int(r.duration_ms)
                } else if repr == QUEUE_IS_CURRENT {
                    RoleValue::Flag(r.is_current)
                } else if repr == QUEUE_TRACK_ID {
                    RoleValue::Int(r.track_id)
                } else if repr == QUEUE_MISSING {
                    RoleValue::Flag(r.missing)
                } else {
                    RoleValue::Invalid
                }
            } else {
                RoleValue::Invalid
            },
    {
        if row >= self.rows.len() {
            return RoleValue::Invalid;
        }
        let r = &self.rows[row];
        if repr == QUEUE_TITLE {
            RoleValue::Text(r.title.clone())
        } else if repr == QUEUE_ARTIST {
            RoleValue::Text(r.artist.clone())
        } else if repr == QUEUE_ALBUM {
            RoleValue::Text(r.album.clone())
        } else if repr == QUEUE_DURATION_MS {
            RoleValue::Int(r.duration_ms)
        } else if repr == QUEUE_IS_CURRENT {
            RoleValue::Flag(r.is_current)
        } else if repr == QUEUE_TRACK_ID {
            RoleValue::Int(r.track_id)
        } else if repr == QUEUE_MISSING {
            RoleValue::Flag(r.missing)
        } else {
            RoleValue::Invalid
        }
    }

    /// Resolve a batch of looked-up tracks: the playable ones in list
    /// order; each one that cannot play leaves its reason on the error line
    /// (the last such reason stays).
    pub fn playable_from(&mut self, lookups: &Vec<TrackLookup>) -> (items: Vec<QueueItem>)
        ensures
            items@ == playable_items(lookups@),
            match last_failure(lookups@) {
                Some(m) => final(self).last_error is Some && final(self).last_error->0@ == m,
                None => final(self).last_error == old(self).last_error,
            },
            final(self).rows == old(self).rows,
            final(self).engine == old(self).engine,
            final(self).settings == old(self).settings,
    {
        let mut items: Vec<QueueItem> = Vec::new();
        let mut i: usize = 0;
        while i < lookups.len()
            invariant
                i <= lookups@.len(),
                items@ == playable_items(lookups@.take(i as int)),
                match last_failure(lookups@.take(i as int)) {
                    Some(m) => self.last_error is Some && self.last_error->0@ == m,
                    None => self.last_error == old(self).last_error,
                },
                self.rows == old(self).rows,
                self.engine == old(self).engine,
                self.settings == old(self).settings,
            decreases lookups@.len() - i,
        {
            assert(lookups@.take(i + 1).drop_last() =~= lookups@.take(i as int));
            assert(lookups@.take(i + 1).last() == lookups@[i as int]);
            let text = match &lookups[i] {
                TrackLookup::Playable(item) => {
                    items.push(item.duplicate());
                    i = i + 1;
                    continue;
                },
                TrackLookup::Failed => "That track is no longer in the library.",
                TrackLookup::Absent => "That track is no longer in the library.",
                TrackLookup::Missing => "That file is missing from disk.",
                TrackLookup::Unplayable => "That file cannot be played.",
            };
            self.last_error = Some(string_of(chars_of(text).as_slice()));
            i = i + 1;
        }
        assert(lookups@.take(lookups@.len() as int) =~= lookups@);
        items
    }

    /// Play a batch now: the first item starts and the rest follow it in
    /// list order (handed back reversed, for one "play next" each).
    /// `requested` is how many ids were asked for: none asked is no request
    /// at all (nothing happens, no error); ids of which none resolved to a
    /// playable track play nothing and say so.
    pub fn play_track_ids(&mut self, requested: usize, items: Vec<QueueItem>) -> (plan: Option<
        (QueueItem, Vec<QueueItem>),
    >)
        ensures
            requested == 0 ==> plan is None && final(self).last_error == old(self).last_error,
            requested > 0 && items@.len() == 0 ==> plan is None && final(self).last_error is Some
                && final(self).last_error->0@ == "Nothing playable in that list."@,
            requested > 0 && items@.len() > 0 ==> (plan matches Some((first, rest)) && first
                == items@[0] && rest@ == items@.drop_first().reverse()) && final(self).last_error
                == old(self).last_error,
            final(self).rows == old(self).rows,
            final(self).engine == old(self).engine,
    {
        if requested == 0 {
            return None;
        }
        if items.len() == 0 {
            self.nothing_playable();
            return None;
        }
        let mut items = items;
        let ghost all = items@;
        let first = items.remove(0);
        assert(items@ =~= all.drop_first());
        let rest = reversed(items);
        Some((first, rest))
    }

    /// Insert a batch right after the cursor in list order: the items
    /// handed back reversed, for one "play next" each. None asked is no
    /// request (no error); ids of which none resolved add nothing and say so.
    pub fn play_track_ids_next(&mut self, requested: usize, items: Vec<QueueItem>) -> (plan: Vec<
        QueueItem,
    >)
        ensures
            requested == 0 ==> plan@.len() == 0 && final(self).last_error == old(self).last_error,
            requested > 0 ==> plan@ == items@.reverse(),
            requested > 0 && items@.len() == 0 ==> final(self).last_error is Some
                && final(self).last_error->0@ == "Nothing playable in that list."@,
            requested > 0 && items@.len() > 0 ==> final(self).last_error == old(self).last_error,
            final(self).rows == old(self).rows,
            final(self).engine == old(self).engine,
    {
        if requested == 0 {
            return Vec::new();
        }
        if items.len() == 0 {
            self.nothing_playable();
            assert(items@.reverse() =~= items@);
        }
        reversed(items)
    }

    /// After enqueueing a batch by ids: rows rebuild and the error line
    /// clears when anything was added; otherwise nothing was playable.
    pub fn ids_enqueued(&mut self, count: usize, engine: EngineView) -> (added: i32)
        ensures
            added == count_field(count as nat),
            count > 0 ==> final(self).last_error is None && row_views(final(self).rows@)
                == rows_of(engine.items@, engine.cursor),
            count == 0 ==> final(self).last_error is Some && final(self).last_error->0@
                == "Nothing playable in that list."@ && final(self).rows == old(self).rows,
            final(self).engine == Some(engine),
            final(self).published == old(self).published,
            final(self).settings == old(self).settings,
    {
        if count > 0 {
            self.enqueued(count, engine)
        } else {
            self.nothing_playable();
            self.engine = Some(engine);
            0
        }
    }

    /// After a Play-all list (`Gone::List`), album batch (`Gone::Albums`),
    /// or artist batch (`Gone::Artists`): a failed lookup says the group is
    /// gone; a batch with nothing playable says so; otherwise rows rebuild
    /// and the count comes back.
    pub fn list_enqueued(&mut self, outcome: Result<usize, ()>, gone: Gone, engine: EngineView) -> (added: i32)
        ensures
            match outcome {
                Ok(n) => if n > 0 {
                    added == count_field(n as nat) && final(self).last_error is None
                        && row_views(final(self).rows@) == rows_of(engine.items@, engine.cursor)
                        && final(self).engine == Some(engine)
                } else {
                    added == 0 && final(self).last_error is Some && final(self).last_error->0@
                        == "Nothing playable in that list."@ && final(self).rows == old(self).rows
                        && final(self).engine == Some(engine)
                },
                Err(()) => added == 0 && final(self).last_error is Some
                    && final(self).last_error->0@ == gone_text(gone) && final(self).rows == old(
                    self,
                ).rows && final(self).engine == old(self).engine,
            },
            final(self).settings == old(self).settings,
            final(self).published == old(self).published,
    {
        match outcome {
            Ok(n) => self.ids_enqueued(n, engine),
            Err(()) => {
                self.last_error = Some(gone_message(gone));
                0
            },
        }
    }
}

/// The items in reverse order.
pub(crate) fn reversed(items: Vec<QueueItem>) -> (out: Vec<QueueItem>)
    ensures
        out@ == items@.reverse(),
{
    let mut items = items;
    let ghost all = items@;
    let mut out: Vec<QueueItem> = Vec::new();
    while items.len() > 0
        invariant
            all == items@ + out@.reverse(),
        decreases items@.len(),
    {
        let ghost before_items = items@;
        let ghost before_out = out@;
        let last = items.pop().unwrap();
        out.push(last);
        assert(before_items =~= items@.push(last));
        assert(out@.reverse() =~= seq![last] + before_out.reverse());
        assert(all =~= items@ + out@.reverse());
    }
    assert(out@.reverse().reverse() =~= out@);
    assert(all =~= out@.reverse());
    assert(all.reverse() =~= out@);
    out
}

} // verus!
