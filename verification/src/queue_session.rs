//! Playback-session persistence: when the last track, its position and the
//! queue are written back, and what a restore at startup seeds. The shell
//! owns the clock and the files; it hands the time in and writes when told.

use vstd::prelude::*;
use crate::config::TunexConfig;
use crate::queue_model::{
    EngineView, QueueItem, QueueModel, audio_recorded, current_item_spec, ms_field,
};
use crate::queue_enqueue::reversed;

verus! {

/// Position ticks are written at most this often (ms); track changes,
/// pauses and seeks are written at once.
pub const SESSION_SAVE_INTERVAL_MS: u64 = 2000;

/// Whether the save interval has passed since `saved_at` (never saved
/// counts as passed; a clock that went back counts as no time).
pub open spec fn interval_passed(saved_at: Option<u64>, now_ms: u64) -> bool {
    match saved_at {
        None => true,
        Some(at) => now_ms >= at && now_ms - at >= SESSION_SAVE_INTERVAL_MS,
    }
}

/// A position in ms as the session stores it: at most `i32::MAX`.
pub open spec fn stored_position(ms: u64) -> i32 {
    if ms <= i32::MAX {
        ms as i32
    } else {
        i32::MAX
    }
}


impl QueueModel {
    /// Decide whether to write the playback session now: nothing without a
    /// loaded track or while a restore is still loading; `force` (pause,
    /// seek, transport) writes at once; a new track writes at once; a moved
    /// position writes once the save interval has passed. A write records
    /// the engine's audio state in the settings copy and remembers what was
    /// written; the shell then saves the settings and the queue.
    pub fn maybe_persist_session(&mut self, force: bool, now_ms: u64) -> (write: bool)
        ensures
            match old(self).engine {
                Some(e) => match current_item_spec(e) {
                    Some(item) => {
                        let position = ms_field(e.position_ms);
                        let due = !e.restore_pending && (force || item.uri@ != old(self).saved_uri@
                            || (position != old(self).saved_position_ms && interval_passed(
                            old(self).saved_at_ms,
                            now_ms,
                        )));
                        &&& write == due
                        &&& due ==> final(self).saved_uri@ == item.uri@
                            && final(self).saved_position_ms == position
                            && final(self).saved_at_ms == Some(now_ms) && audio_recorded(
                            old(self).settings,
                            final(self).settings,
                            e,
                        )
                        &&& !due ==> final(self).saved_uri == old(self).saved_uri
                            && final(self).saved_position_ms == old(self).saved_position_ms
                            && final(self).saved_at_ms == old(self).saved_at_ms
                            && final(self).settings == old(self).settings
                    },
                    None => !write && final(self).settings == old(self).settings
                        && final(self).saved_at_ms == old(self).saved_at_ms,
                },
                None => !write && final(self).settings == old(self).settings
                    && final(self).saved_at_ms == old(self).saved_at_ms,
            },
            final(self).engine == old(self).engine,
            final(self).rows == old(self).rows,
            final(self).last_error == old(self).last_error,
    {
        let position = self.position_ms();
        let (uri, pending) = match &self.engine {
            None => return false,
            Some(e) => match e.cursor {
                Some(c) => if c < e.items.len() {
                    (e.items[c].uri.clone(), e.restore_pending)
                } else {
                    return false;
                },
                None => return false,
            },
        };
        if pending {
            return false;
        }
        let uri_changed = !crate::text::same_chars(
            crate::text::chars_of(uri.as_str()).as_slice(),
            crate::text::chars_of(self.saved_uri.as_str()).as_slice(),
        );
        let pos_changed = position != self.saved_position_ms;
        if !force && !uri_changed && !pos_changed {
            return false;
        }
        let elapsed = match self.saved_at_ms {
            None => true,
            Some(at) => now_ms >= at && now_ms - at >= SESSION_SAVE_INTERVAL_MS,
        };
        if !force && !uri_changed && !elapsed {
            return false;
        }
        self.write_audio_config();
        self.saved_uri = uri;
        self.saved_position_ms = position;
        self.saved_at_ms = Some(now_ms);
        true
    }

    /// After a saved queue was restored (paused, never auto-playing): the
    /// toast cursor is seeded with the restored track silently, and the
    /// session counts as written at `position_ms`. Rows are left for the
    /// next poll, whose change check then announces them.
    pub fn restored_queue(&mut self, engine: EngineView, position_ms: u64, now_ms: u64)
        ensures
            final(self).last_notified_uri == match current_item_spec(engine) {
                Some(item) => Some(item.uri),
                None => None,
            },
            match current_item_spec(engine) {
                Some(item) => final(self).saved_uri == item.uri,
                None => final(self).saved_uri == old(self).saved_uri,
            },
            final(self).saved_position_ms == stored_position(position_ms),
            final(self).saved_at_ms == Some(now_ms),
            final(self).engine == Some(engine),
            final(self).rows == old(self).rows,
            final(self).last_len == old(self).last_len,
            final(self).last_cursor == old(self).last_cursor,
            final(self).last_error == old(self).last_error,
            final(self).published == old(self).published,
            final(self).settings == old(self).settings,
    {
        let current = match engine.cursor {
            Some(c) => if c < engine.items.len() {
                Some(engine.items[c].uri.clone())
            } else {
                None
            },
            None => None,
        };
        match &current {
            Some(u) => {
                self.saved_uri = u.clone();
            },
            None => {},
        }
        self.last_notified_uri = current;
        self.saved_position_ms = if position_ms <= 0x7fff_ffff {
            position_ms as i32
        } else {
            i32::MAX
        };
        self.saved_at_ms = Some(now_ms);
        self.engine = Some(engine);
    }

    /// The last track to restore when no queue was saved: the stored URI,
    /// unless absent or empty.
    pub fn last_track_to_restore(&self) -> (uri: Option<String>)
        ensures
            uri == match self.settings.playback.last_uri {
                Some(u) => if u@.len() > 0 {
                    Some(u)
                } else {
                    None
                },
                None => None,
            },
    {
        match &self.settings.playback.last_uri {
            Some(u) => if u.as_str().is_empty() {
                None
            } else {
                Some(u.clone())
            },
            None => None,
        }
    }

    /// After the last track was restored paused at the stored position: the
    /// session counts as written for that URI, and the toast cursor is
    /// seeded silently (resuming is not a track change).
    pub fn restored_last_track(&mut self, uri: String, engine: EngineView, now_ms: u64)
        ensures
            final(self).saved_uri == uri,
            final(self).last_notified_uri == match current_item_spec(engine) {
                Some(item) => Some(item.uri),
                None => None,
            },
            final(self).saved_position_ms == stored_position(
                old(self).settings.playback.last_position_ms,
            ),
            final(self).saved_at_ms == Some(now_ms),
            final(self).engine == Some(engine),
            final(self).rows == old(self).rows,
            final(self).published == old(self).published,
            final(self).last_len == old(self).last_len,
            final(self).last_cursor == old(self).last_cursor,
            final(self).last_error == old(self).last_error,
            final(self).settings == old(self).settings,
    {
        let current = match engine.cursor {
            Some(c) => if c < engine.items.len() {
                Some(engine.items[c].uri.clone())
            } else {
                None
            },
            None => None,
        };
        self.saved_uri = uri;
        self.last_notified_uri = current;
        let stored = self.settings.playback.last_position_ms;
        self.saved_position_ms = if stored <= 0x7fff_ffff {
            stored as i32
        } else {
            i32::MAX
        };
        self.saved_at_ms = Some(now_ms);
        self.engine = Some(engine);
    }
}

/// One Up Next entry as the index stores it.
#[derive(Debug)]
pub struct SavedQueueItem {
    pub uri: String,
    pub track_id: Option<i64>,
    pub title: String,
    pub artist: Option<String>,
    pub album: Option<String>,
    pub duration_ms: Option<i64>,
}

/// The stored Up Next: entries in order, the cursor, and the position.
#[derive(Debug)]
pub struct SavedQueue {
    pub items: Vec<SavedQueueItem>,
    pub cursor: usize,
    pub position_ms: u64,
}

/// The engine entry a stored one becomes: a zero or negative duration
/// counts as unknown.
pub open spec fn item_of_saved(row: SavedQueueItem) -> QueueItem {
    QueueItem {
        uri: row.uri,
        title: row.title,
        artist: row.artist,
        album: row.album,
        duration_ms: match row.duration_ms {
            Some(ms) => if ms > 0 {
                Some(ms as u64)
            } else {
                None
            },
            None => None,
        },
        track_id: row.track_id,
        missing: false,
    }
}

/// The stored form of an engine entry: a duration past `i64` is dropped.
pub open spec fn saved_of_item(item: QueueItem) -> SavedQueueItem {
    SavedQueueItem {
        uri: item.uri,
        track_id: item.track_id,
        title: item.title,
        artist: item.artist,
        album: item.album,
        duration_ms: match item.duration_ms {
            Some(ms) => if ms <= i64::MAX {
                Some(ms as i64)
            } else {
                None
            },
            None => None,
        },
    }
}

/// Engine entry for a stored one.
pub fn saved_to_item(row: SavedQueueItem) -> (item: QueueItem)
    ensures
        item == item_of_saved(row),
{
    let duration_ms: Option<u64> = match row.duration_ms {
        Some(ms) => if ms > 0 {
            Some(ms as u64)
        } else {
            None
        },
        None => None,
    };
    QueueItem {
        uri: row.uri,
        title: row.title,
        artist: row.artist,
        album: row.album,
        duration_ms,
        track_id: row.track_id,
        missing: false,
    }
}

/// Stored form of an engine entry.
pub fn item_to_saved(item: QueueItem) -> (row: SavedQueueItem)
    ensures
        row == saved_of_item(item),
{
    let duration_ms: Option<i64> = match item.duration_ms {
        Some(ms) => if ms <= 0x7fff_ffff_ffff_ffff {
            Some(ms as i64)
        } else {
            None
        },
        None => None,
    };
    SavedQueueItem {
        uri: item.uri,
        track_id: item.track_id,
        title: item.title,
        artist: item.artist,
        album: item.album,
        duration_ms,
    }
}

/// A stored entry read back gives the entry that was stored, unless its
/// duration was zero (read back as unknown), past `i64`, or it was flagged
/// missing (the flag is not stored).
pub proof fn lemma_saved_item_round_trip(item: QueueItem)
    requires
        !item.missing,
        match item.duration_ms {
            Some(ms) => 0 < ms <= i64::MAX,
            None => true,
        },
    ensures
        item_of_saved(saved_of_item(item)) == item,
{
}

impl QueueModel {
    /// What to write to the index as Up Next: every entry in order, the
    /// cursor (0 when none) and the position (0 when unknown). Nothing while
    /// no engine exists or a restored queue is still loading.
    pub fn queue_to_persist(&self) -> (saved: Option<SavedQueue>)
        ensures
            match self.engine {
                None => saved is None,
                Some(e) => if e.restore_pending {
                    saved is None
                } else {
                    saved matches Some(q) && q.items@ == e.items@.map_values(
                        |i: QueueItem| saved_of_item(i),
                    ) && q.cursor == (match e.cursor {
                        Some(c) => c,
                        None => 0,
                    }) && q.position_ms == ms_field(e.position_ms) as u64
                },
            },
    {
        let e = match &self.engine {
            None => return None,
            Some(e) => e,
        };
        if e.restore_pending {
            return None;
        }
        let mut items: Vec<SavedQueueItem> = Vec::new();
        let mut i: usize = 0;
        while i < e.items.len()
            invariant
                i <= e.items@.len(),
                items@ == e.items@.take(i as int).map_values(|it: QueueItem| saved_of_item(it)),
            decreases e.items@.len() - i,
        {
            items.push(item_to_saved(e.items[i].duplicate()));
            i = i + 1;
            assert(items@ =~= e.items@.take(i as int).map_values(|it: QueueItem| saved_of_item(it)));
        }
        assert(e.items@.take(e.items@.len() as int) =~= e.items@);
        let position = self.position_ms();
        Some(SavedQueue {
            items,
            cursor: match e.cursor {
                Some(c) => c,
                None => 0,
            },
            position_ms: position as u64,
        })
    }

    /// The entries a stored Up Next restores, in order; `None` when nothing
    /// was stored (the last track is restored instead).
    pub fn queue_to_restore(saved: SavedQueue) -> (items: Option<Vec<QueueItem>>)
        ensures
            match items {
                None => saved.items@.len() == 0,
                Some(v) => saved.items@.len() > 0 && v@ == saved.items@.map_values(
                    |r: SavedQueueItem| item_of_saved(r),
                ),
            },
    {
        if saved.items.len() == 0 {
            return None;
        }
        let ghost rows = saved.items@;
        let mut rest = saved.items;
        let mut back: Vec<QueueItem> = Vec::new();
        while rest.len() > 0
            invariant
                rows.map_values(|r: SavedQueueItem| item_of_saved(r)) == rest@.map_values(
                    |r: SavedQueueItem| item_of_saved(r),
                ) + back@.reverse(),
            decreases rest@.len(),
        {
            let ghost before_rest = rest@;
            let ghost before_back = back@;
            let row = rest.pop().unwrap();
            let ghost moved = row;
            back.push(saved_to_item(row));
            assert(before_rest =~= rest@.push(moved));
            assert(back@.reverse() =~= seq![item_of_saved(moved)] + before_back.reverse());
            assert(before_rest.map_values(|r: SavedQueueItem| item_of_saved(r)) =~= rest@.map_values(
                |r: SavedQueueItem| item_of_saved(r),
            ).push(item_of_saved(moved)));
            assert(rows.map_values(|r: SavedQueueItem| item_of_saved(r)) =~= rest@.map_values(
                |r: SavedQueueItem| item_of_saved(r),
            ) + back@.reverse());
        }
        assert(rest@.map_values(|r: SavedQueueItem| item_of_saved(r)) =~= Seq::<QueueItem>::empty());
        assert(rows.map_values(|r: SavedQueueItem| item_of_saved(r)) =~= back@.reverse());
        let out = reversed(back);
        Some(out)
    }
}

} // verus!
