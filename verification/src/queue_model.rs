//! The Up Next model: display rows built from what the playback engine
//! reports, the transport decisions the panel and the bus share, lyrics
//! lookup, output-device cycling, and the playback settings the panel edits.
//!
//! The engine itself lives with the shell. Every operation here is one side
//! of an exchange: the model says what to ask the engine (or that nothing
//! is to be asked), the shell asks, and hands back the engine's answer and
//! its fresh [`EngineView`], from which the model rebuilds what the views
//! read. Settings come in as the loaded [`TunexConfig`] and setters change
//! that copy for the shell to persist.

use vstd::prelude::*;
use crate::art::{ArtCore, CachedArt};
use crate::browse::file_url;
use crate::equalizer::{eq_preset_ids, lemma_preset_named, preset_gains, preset_gains_spec, preset_row};
use crate::config::{MAX_CROSSFADE_SECS, TunexConfig};
use crate::notify::{should_notify, should_notify_error, should_notify_spec, opt_view};
use crate::playback::{
    PlaybackState, RepeatMode, ReplayGainMode, VisualizerMode, next_repeat, next_repeat_spec,
    repeat_code, repeat_to_int, replaygain_code, replaygain_from_int, replaygain_of_code,
    replaygain_to_int, state_code, state_to_int, visualizer_code, visualizer_from_int,
    visualizer_of_code, visualizer_to_int,
};
use crate::rows::{QueueRow, RowChange, RowView, row_change, row_change_spec, row_views};
use crate::text::{chars_of, push_all, same_chars, string_of};

verus! {

/// One queue entry as the engine holds it.
#[derive(Debug)]
pub struct QueueItem {
    /// Playback URI (`file://…`).
    pub uri: String,
    /// Display title.
    pub title: String,
    /// Artist tag, when known.
    pub artist: Option<String>,
    /// Album tag, when known.
    pub album: Option<String>,
    /// Duration in milliseconds, when known.
    pub duration_ms: Option<u64>,
    /// Library row id, when the entry came from the index.
    pub track_id: Option<i64>,
    /// Whether the entry's file is gone from disk.
    pub missing: bool,
}

/// Copy of an optional text.
fn clone_opt_string(s: &Option<String>) -> (r: Option<String>)
    ensures
        r == *s,
{
    match s {
        Some(t) => Some(t.clone()),
        None => None,
    }
}

impl QueueItem {
    /// An exact copy.
    pub fn duplicate(&self) -> (c: QueueItem)
        ensures
            c == *self,
    {
        QueueItem {
            uri: self.uri.clone(),
            title: self.title.clone(),
            artist: clone_opt_string(&self.artist),
            album: clone_opt_string(&self.album),
            duration_ms: self.duration_ms,
            track_id: self.track_id,
            missing: self.missing,
        }
    }
}

/// What the playback engine reports after each exchange.
#[derive(Debug)]
pub struct EngineView {
    /// The queue, in play order.
    pub items: Vec<QueueItem>,
    /// Index of the loaded entry.
    pub cursor: Option<usize>,
    /// Pipeline state.
    pub state: PlaybackState,
    /// Pipeline position in milliseconds, when known.
    pub position_ms: Option<u64>,
    /// Track duration in milliseconds, when known.
    pub duration_ms: Option<u64>,
    /// Output volume as a percentage (0–100).
    pub volume_pct: i32,
    /// Whether output is muted.
    pub muted: bool,
    /// Whether the queue shuffles.
    pub shuffle: bool,
    /// Queue repeat behavior.
    pub repeat: RepeatMode,
    /// A restored queue is still loading (nothing must be persisted yet).
    pub restore_pending: bool,
    /// The equalizer element is unavailable on this system.
    pub equalizer_missing: bool,
}

/// Artist line of a row: the tag, else `Unknown Artist`.
pub open spec fn artist_line(artist: Option<String>) -> Seq<char> {
    match artist {
        Some(a) => a@,
        None => "Unknown Artist"@,
    }
}

/// Album line of a row: the tag, else `Unknown Album`.
pub open spec fn album_line(album: Option<String>) -> Seq<char> {
    match album {
        Some(a) => a@,
        None => "Unknown Album"@,
    }
}

/// A millisecond count as a row/QML `i32`: 0 when unknown or too large.
pub open spec fn ms_field(ms: Option<u64>) -> i32 {
    match ms {
        Some(v) => if v <= i32::MAX {
            v as i32
        } else {
            0
        },
        None => 0,
    }
}

/// A library id as a row/QML `i32`: -1 when absent or out of range.
pub open spec fn id_field(id: Option<i64>) -> i32 {
    match id {
        Some(v) => if i32::MIN <= v <= i32::MAX {
            v as i32
        } else {
            -1i32
        },
        None => -1i32,
    }
}

/// The row a queue entry shows at `index` with the cursor at `cursor`.
pub open spec fn row_of(item: QueueItem, index: int, cursor: Option<usize>) -> RowView {
    RowView {
        title: item.title@,
        artist: artist_line(item.artist),
        album: album_line(item.album),
        duration_ms: ms_field(item.duration_ms),
        is_current: cursor == Some(index as usize),
        track_id: id_field(item.track_id),
        missing: item.missing,
    }
}

/// Each queue row shows its entry's own tags: its title, its artist or
/// `Unknown Artist`, its album or `Unknown Album`, whether the cursor is on
/// it, and its missing flag.
pub proof fn lemma_rows_show_entry_tags(items: Seq<QueueItem>, cursor: Option<usize>, i: int)
    requires
        0 <= i < items.len(),
    ensures
        rows_of(items, cursor).len() == items.len(),
        rows_of(items, cursor)[i].title == items[i].title@,
        rows_of(items, cursor)[i].album == match items[i].album {
            Some(a) => a@,
            None => "Unknown Album"@,
        },
        rows_of(items, cursor)[i].artist == match items[i].artist {
            Some(a) => a@,
            None => "Unknown Artist"@,
        },
        rows_of(items, cursor)[i].is_current == (cursor == Some(i as usize)),
        rows_of(items, cursor)[i].missing == items[i].missing,
{
}

/// The rows a queue shows.
pub open spec fn rows_of(items: Seq<QueueItem>, cursor: Option<usize>) -> Seq<RowView> {
    Seq::new(items.len(), |i: int| row_of(items[i], i, cursor))
}

fn ms_to_field(ms: Option<u64>) -> (f: i32)
    ensures
        f == ms_field(ms),
{
    match ms {
        Some(v) => if v <= 0x7fff_ffff {
            v as i32
        } else {
            0
        },
        None => 0,
    }
}

fn id_to_field(id: Option<i64>) -> (f: i32)
    ensures
        f == id_field(id),
{
    match id {
        Some(v) => if -0x8000_0000i64 <= v && v <= 0x7fff_ffffi64 {
            v as i32
        } else {
            -1
        },
        None => -1,
    }
}

/// The display row for one queue entry.
pub fn row_for(item: &QueueItem, index: usize, cursor: Option<usize>) -> (row: QueueRow)
    ensures
        row@ == row_of(*item, index as int, cursor),
        row.title@ == item.title@,
        item.album matches Some(a) ==> row.album@ == a@,
        item.album is None ==> row.album@ == "Unknown Album"@,
        item.artist matches Some(a) ==> row.artist@ == a@,
        item.artist is None ==> row.artist@ == "Unknown Artist"@,
        row.is_current == (cursor == Some(index)),
        row.missing == item.missing,
{
    let artist = match &item.artist {
        Some(a) => a.clone(),
        None => string_of(chars_of("Unknown Artist").as_slice()),
    };
    let album = match &item.album {
        Some(a) => a.clone(),
        None => string_of(chars_of("Unknown Album").as_slice()),
    };
    let is_current = match cursor {
        Some(c) => c == index,
        None => false,
    };
    QueueRow {
        title: item.title.clone(),
        artist,
        album,
        duration_ms: ms_to_field(item.duration_ms),
        is_current,
        track_id: id_to_field(item.track_id),
        missing: item.missing,
    }
}

/// Display rows for a whole queue, in order.
pub fn rows_for(items: &Vec<QueueItem>, cursor: Option<usize>) -> (rows: Vec<QueueRow>)
    ensures
        row_views(rows@) == rows_of(items@, cursor),
{
    let mut rows: Vec<QueueRow> = Vec::new();
    let mut i: usize = 0;
    while i < items.len()
        invariant
            i <= items@.len(),
            rows@.len() == i,
            row_views(rows@) == rows_of(items@.take(i as int), cursor),
        decreases items@.len() - i,
    {
        let ghost before = rows@;
        let row = row_for(&items[i], i, cursor);
        rows.push(row);
        assert forall|j: int| 0 <= j < i + 1 implies #[trigger] row_views(rows@)[j] == rows_of(
            items@.take(i + 1),
            cursor,
        )[j] by {
            if j < i {
                assert(rows@[j] == before[j]);
                assert(row_views(before)[j] == rows_of(items@.take(i as int), cursor)[j]);
            }
        }
        assert(row_views(rows@) =~= rows_of(items@.take(i + 1), cursor));
        i = i + 1;
    }
    assert(items@.take(items@.len() as int) =~= items@);
    rows
}

/// Field-by-field copy of a row.
fn copy_row(r: &QueueRow) -> (c: QueueRow)
    ensures
        c@ == r@,
{
    QueueRow {
        title: r.title.clone(),
        artist: r.artist.clone(),
        album: r.album.clone(),
        duration_ms: r.duration_ms,
        is_current: r.is_current,
        track_id: r.track_id,
        missing: r.missing,
    }
}

/// Copy of a row list.
fn copy_rows(rows: &Vec<QueueRow>) -> (c: Vec<QueueRow>)
    ensures
        row_views(c@) == row_views(rows@),
{
    let mut out: Vec<QueueRow> = Vec::new();
    let mut i: usize = 0;
    while i < rows.len()
        invariant
            i <= rows@.len(),
            out@.len() == i,
            row_views(out@) == row_views(rows@.take(i as int)),
        decreases rows@.len() - i,
    {
        let ghost before = out@;
        out.push(copy_row(&rows[i]));
        assert forall|j: int| 0 <= j < i + 1 implies #[trigger] row_views(out@)[j] == row_views(
            rows@.take(i + 1),
        )[j] by {
            if j < i {
                assert(row_views(before)[j] == row_views(rows@.take(i as int))[j]);
            }
        }
        assert(row_views(out@) =~= row_views(rows@.take(i + 1)));
        i = i + 1;
    }
    assert(rows@.take(rows@.len() as int) =~= rows@);
    out
}

/// Saturating count as a QML `i32`.
pub open spec fn count_field(n: nat) -> i32 {
    if n <= i32::MAX {
        n as i32
    } else {
        i32::MAX
    }
}

fn count_to_field(n: usize) -> (f: i32)
    ensures
        f == count_field(n as nat),
{
    if n <= 0x7fff_ffff {
        n as i32
    } else {
        i32::MAX
    }
}

/// What one queue operation asks of the engine.
#[derive(Clone, Copy, Debug, PartialEq, Eq, Structural)]
pub enum QueueStep<T> {
    /// No engine: do nothing at all.
    Skip,
    /// Nothing to ask, but rebuild the rows afterwards.
    Resync,
    /// Ask this, then rebuild the rows.
    Call(T),
}

/// How a library track lookup ended.
#[derive(Debug)]
pub enum TrackLookup {
    /// The index query failed.
    Failed,
    /// No row with that id.
    Absent,
    /// The row's file is gone from disk.
    Missing,
    /// The row's path cannot become a playback URI.
    Unplayable,
    /// A playable entry.
    Playable(QueueItem),
}

/// One playlist entry as the index lists it.
#[derive(Debug)]
pub enum PlaylistEntry {
    /// The entry's track row was deleted.
    Dangling,
    /// The track's file is gone from disk.
    Missing,
    /// The track's path cannot become a playback URI.
    Unplayable,
    /// A playable entry.
    Playable(QueueItem),
}

/// What the bus may ask of the player right now.
#[derive(Clone, Copy, Debug, PartialEq, Eq, Structural)]
pub struct MprisCapabilities {
    pub next: bool,
    pub previous: bool,
    pub play: bool,
    pub pause: bool,
    pub seek: bool,
}

/// Ten band centre labels shown next to the equalizer sliders.
pub open spec fn eq_band_labels() -> Seq<Seq<char>> {
    seq![
        "29 Hz"@,
        "59 Hz"@,
        "119 Hz"@,
        "237 Hz"@,
        "474 Hz"@,
        "947 Hz"@,
        "1.9 kHz"@,
        "3.8 kHz"@,
        "7.5 kHz"@,
        "15 kHz"@,
    ]
}

/// Up Next rows plus everything the panel reads about playback.
pub struct QueueModel {
    /// Rows as last rebuilt from the engine.
    pub rows: Vec<QueueRow>,
    /// The rows the view has been told about.
    pub published: Vec<QueueRow>,
    /// What the engine last reported; `None` until it exists.
    pub engine: Option<EngineView>,
    /// Queue length the rows were built from.
    pub last_len: usize,
    /// Cursor the rows were built from.
    pub last_cursor: Option<usize>,
    /// Last failure, if any (cleared by the next success).
    pub last_error: Option<String>,
    /// URI of the last toasted track.
    pub last_notified_uri: Option<String>,
    /// Output devices as (id, label); the first is the system default.
    pub outputs: Vec<(String, String)>,
    /// URI the loaded lyrics belong to.
    pub lyrics_uri: String,
    /// Unsynced or joined lyric text.
    pub lyrics_plain: String,
    /// Lyric lines as (start ms or -1, text).
    pub lyrics_lines: Vec<(i32, String)>,
    /// Whether the player window is focused.
    pub window_active: bool,
    /// Settings as loaded; setters change this copy.
    pub settings: TunexConfig,
    /// URI of the session as last written.
    pub saved_uri: String,
    /// Position (ms) of the session as last written.
    pub saved_position_ms: i32,
    /// When the session was last written (shell clock, ms).
    pub saved_at_ms: Option<u64>,
    /// Cover lookups for the playing track.
    pub art: ArtCore,
}

/// First row flagged as now playing.
pub open spec fn current_row_index(rows: Seq<RowView>) -> Option<int> {
    if exists|i: int| 0 <= i < rows.len() && #[trigger] rows[i].is_current {
        Some(
            choose|i: int|
                0 <= i < rows.len() && rows[i].is_current && forall|j: int|
                    0 <= j < i ==> !(#[trigger] rows[j].is_current),
        )
    } else {
        None
    }
}

/// Index of the last synced lyric line at or before `position` (negative
/// positions count as zero), or -1.
pub open spec fn lyrics_active_spec(lines: Seq<(i32, String)>, position_ms: i32) -> int
    decreases lines.len(),
{
    if lines.len() == 0 {
        -1
    } else {
        let last = lines.last();
        let pos = if position_ms < 0 {
            0
        } else {
            position_ms as int
        };
        if last.0 >= 0 && last.0 <= pos {
            lines.len() - 1
        } else {
            lyrics_active_spec(lines.drop_last(), position_ms)
        }
    }
}

/// The active lyric line is the last line with a start time at or before
/// the position (negative positions count as zero): it carries a start time
/// no later than the position, no later line does, and -1 means no line
/// does.
pub proof fn lemma_active_line_is_last_started(lines: Seq<(i32, String)>, position_ms: i32)
    ensures
        ({
            let pos: int = if position_ms < 0 {
                0
            } else {
                position_ms as int
            };
            let a = lyrics_active_spec(lines, position_ms);
            &&& -1 <= a < lines.len()
            &&& a >= 0 ==> 0 <= lines[a].0 <= pos
            &&& forall|j: int| a < j < lines.len() ==> !(0 <= #[trigger] lines[j].0 <= pos)
        }),
    decreases lines.len(),
{
    if lines.len() > 0 {
        let p = lines.drop_last();
        lemma_active_line_is_last_started(p, position_ms);
        let pos: int = if position_ms < 0 {
            0
        } else {
            position_ms as int
        };
        let a = lyrics_active_spec(lines, position_ms);
        if !(lines.last().0 >= 0 && lines.last().0 <= pos) {
            assert forall|j: int| a < j < lines.len() implies !(0 <= #[trigger] lines[j].0 <= pos) by {
                if j < lines.len() - 1 {
                    assert(lines[j] == p[j]);
                }
            }
            if a >= 0 {
                assert(lines[a] == p[a]);
            }
        }
    }
}

/// A lyric start time as read from a file: -1 when unsynced or too large.
pub open spec fn lyric_time(ms: Option<u64>) -> i32 {
    match ms {
        Some(v) => if v <= i32::MAX {
            v as i32
        } else {
            -1i32
        },
        None => -1i32,
    }
}

impl QueueModel {
    /// Fresh model: no engine, no rows, the system output listed, window
    /// focused, settings as loaded, cover lookups over `art_cache_dir` with
    /// nothing asked yet.
    pub fn new(settings: TunexConfig, art_cache_dir: String) -> (m: Self)
        ensures
            m.art.cache_root() == art_cache_dir,
            m.art.answers() == Map::<i64, Option<CachedArt>>::empty(),
            m.art.in_flight() == Set::<i64>::empty(),
            !m.art.has_worker(),
            m.rows@.len() == 0,
            m.published@.len() == 0,
            m.engine is None,
            m.last_len == 0,
            m.last_cursor is None,
            m.last_error is None,
            m.last_notified_uri is None,
            m.outputs@.len() == 1,
            m.outputs@[0].0@.len() == 0,
            m.outputs@[0].1@ == "System"@,
            m.lyrics_lines@.len() == 0,
            m.window_active,
            m.settings == settings,
            m.saved_uri@.len() == 0,
            m.saved_position_ms == 0,
            m.saved_at_ms is None,
    {
        let mut outputs: Vec<(String, String)> = Vec::new();
        outputs.push((String::new(), string_of(chars_of("System").as_slice())));
        QueueModel {
            rows: Vec::new(),
            published: Vec::new(),
            engine: None,
            last_len: 0,
            last_cursor: None,
            last_error: None,
            last_notified_uri: None,
            outputs,
            lyrics_uri: String::new(),
            lyrics_plain: String::new(),
            lyrics_lines: Vec::new(),
            window_active: true,
            settings,
            saved_uri: String::new(),
            saved_position_ms: 0,
            saved_at_ms: None,
            art: ArtCore::with_cache_dir(art_cache_dir),
        }
    }

    /// Engine construction failed: surface its message, keep rows empty.
    pub fn engine_failed(&mut self, message: String)
        ensures
            final(self).last_error == Some(message),
            final(self).engine == old(self).engine,
            final(self).rows == old(self).rows,
    {
        self.last_error = Some(message);
    }

    /// Rebuild display rows from the engine's report.
    pub fn sync_rows(&mut self, engine: EngineView)
        ensures
            row_views(final(self).rows@) == rows_of(engine.items@, engine.cursor),
            final(self).last_len == engine.items@.len(),
            final(self).last_cursor == engine.cursor,
            final(self).engine == Some(engine),
            final(self).published == old(self).published,
            final(self).last_error == old(self).last_error,
            final(self).settings == old(self).settings,
    {
        self.rows = rows_for(&engine.items, engine.cursor);
        self.last_len = engine.items.len();
        self.last_cursor = engine.cursor;
        self.engine = Some(engine);
    }

    /// Take the engine's fresh report on a poll tick: playback errors become
    /// the error line (the last one wins), and the rows rebuild when the
    /// queue length or cursor moved. Returns whether views must refresh
    /// (rows moved, or the playing track's cover landed); the rows are then
    /// announced (see `apply_rows`).
    pub fn poll(&mut self, engine: EngineView, errors: &Vec<String>, art_landed: bool) -> (changed: bool)
        ensures
            ({
                let moved = !(engine.items@.len() == old(self).last_len && engine.cursor
                    == old(self).last_cursor);
                &&& changed == (moved || art_landed)
                &&& moved ==> row_views(final(self).rows@) == rows_of(engine.items@, engine.cursor)
                    && final(self).last_len == engine.items@.len() && final(self).last_cursor
                    == engine.cursor
                &&& !moved ==> final(self).rows == old(self).rows && final(self).last_len
                    == old(self).last_len && final(self).last_cursor == old(self).last_cursor
            }),
            final(self).engine == Some(engine),
            errors@.len() > 0 ==> final(self).last_error == Some(errors@.last()),
            errors@.len() == 0 ==> final(self).last_error == old(self).last_error,
            changed ==> row_views(final(self).published@) == row_views(final(self).rows@),
            !changed ==> final(self).published == old(self).published,
            final(self).settings == old(self).settings,
    {
        if errors.len() > 0 {
            self.last_error = Some(errors[errors.len() - 1].clone());
        }
        let moved = !(engine.items.len() == self.last_len && engine.cursor == self.last_cursor);
        if moved {
            self.sync_rows(engine);
        } else {
            self.engine = Some(engine);
        }
        let changed = moved || art_landed;
        if changed {
            self.apply_rows();
        }
        changed
    }

    /// Whether a playback error toasts (independent of window focus).
    pub fn playback_error_toasts(&self) -> (b: bool)
        ensures
            b == (self.settings.notify.enabled && self.settings.notify.playback_errors),
    {
        should_notify_error(self.settings.notify.enabled, self.settings.notify.playback_errors)
    }

    /// Decide the track-change toast for the now-current URI and remember it
    /// as toasted; returns whether to toast.
    pub fn track_toast(&mut self, current_uri: Option<String>) -> (toast: bool)
        ensures
            toast == should_notify_spec(
                opt_string_view(old(self).last_notified_uri),
                opt_string_view(current_uri),
                old(self).window_active,
                old(self).settings.notify.enabled,
                old(self).settings.notify.track_change,
            ),
            final(self).last_notified_uri == current_uri,
            final(self).rows == old(self).rows,
            final(self).engine == old(self).engine,
            final(self).settings == old(self).settings,
    {
        let toast = {
            let last = match &self.last_notified_uri {
                Some(s) => Some(s.as_str()),
                None => None,
            };
            let cur = match &current_uri {
                Some(s) => Some(s.as_str()),
                None => None,
            };
            should_notify(
                last,
                cur,
                self.window_active,
                self.settings.notify.enabled,
                self.settings.notify.track_change,
            )
        };
        self.last_notified_uri = current_uri;
        toast
    }

    /// How the rows moved since the view last heard about them.
    pub fn pending_change(&self) -> (c: RowChange)
        ensures
            c == row_change_spec(row_views(self.published@), row_views(self.rows@)),
    {
        row_change(self.published.as_slice(), self.rows.as_slice())
    }

    /// Record the rows as announced.
    pub fn mark_published(&mut self)
        ensures
            final(self).last_len == old(self).last_len,
            final(self).last_cursor == old(self).last_cursor,
            final(self).last_error == old(self).last_error,
            final(self).last_notified_uri == old(self).last_notified_uri,
            row_views(final(self).published@) == row_views(old(self).rows@),
            final(self).rows == old(self).rows,
            final(self).engine == old(self).engine,
            final(self).settings == old(self).settings,
    {
        self.published = copy_rows(&self.rows);
    }

    /// Put the rows back to what the view last saw, returning the current
    /// ones (a single-row signal opens on the old shape).
    pub fn rewind_rows(&mut self) -> (current: Vec<QueueRow>)
        ensures
            final(self).last_len == old(self).last_len,
            final(self).last_cursor == old(self).last_cursor,
            final(self).last_error == old(self).last_error,
            final(self).last_notified_uri == old(self).last_notified_uri,
            final(self).settings == old(self).settings,
            current == old(self).rows,
            row_views(final(self).rows@) == row_views(old(self).published@),
            final(self).published == old(self).published,
            final(self).engine == old(self).engine,
    {
        let mut shown = copy_rows(&self.published);
        std::mem::swap(&mut self.rows, &mut shown);
        shown
    }

    /// Put back the rows taken by `rewind_rows`.
    pub fn restore_rows(&mut self, rows: Vec<QueueRow>)
        ensures
            final(self).last_len == old(self).last_len,
            final(self).last_cursor == old(self).last_cursor,
            final(self).last_error == old(self).last_error,
            final(self).last_notified_uri == old(self).last_notified_uri,
            final(self).settings == old(self).settings,
            final(self).rows == rows,
            final(self).published == old(self).published,
            final(self).engine == old(self).engine,
    {
        self.rows = rows;
    }

    /// Announce the current rows with the narrowest signal that fits: the
    /// change is returned for the view (one row in, one row out, or a reset)
    /// and the rows count as published; nothing changes when nothing moved.
    pub fn apply_rows(&mut self) -> (signal: RowChange)
        ensures
            final(self).last_len == old(self).last_len,
            final(self).last_cursor == old(self).last_cursor,
            final(self).last_error == old(self).last_error,
            final(self).last_notified_uri == old(self).last_notified_uri,
            signal == row_change_spec(row_views(old(self).published@), row_views(old(self).rows@)),
            signal == RowChange::Unchanged ==> final(self).published == old(self).published,
            row_views(final(self).published@) == row_views(old(self).rows@),
            row_change_spec(row_views(final(self).published@), row_views(final(self).rows@))
                == RowChange::Unchanged,
            final(self).rows == old(self).rows,
            final(self).engine == old(self).engine,
            final(self).settings == old(self).settings,
    {
        let signal = self.pending_change();
        match signal {
            RowChange::Unchanged => {},
            RowChange::Inserted(_) | RowChange::Removed(_) => {
                let announced = self.rewind_rows();
                self.restore_rows(announced);
                self.mark_published();
            },
            RowChange::Reset => {
                self.mark_published();
            },
        }
        signal
    }

    /// Drop all rows without touching the engine (view-only reset).
    pub fn clear(&mut self)
        ensures
            final(self).rows@.len() == 0,
            final(self).engine == old(self).engine,
            final(self).published == old(self).published,
    {
        self.rows = Vec::new();
    }

    /// Current row count.
    pub fn row_count(&self) -> (n: i32)
        ensures
            n == count_field(self.rows@.len()),
    {
        count_to_field(self.rows.len())
    }

    /// Library track id at a queue row (-1 when out of range or id-less).
    pub fn track_id_at(&self, row: i32) -> (id: i32)
        ensures
            id == if 0 <= row < self.rows@.len() {
                self.rows@[row as int].track_id
            } else {
                -1i32
            },
    {
        if row >= 0 && (row as usize) < self.rows.len() {
            self.rows[row as usize].track_id
        } else {
            -1
        }
    }

    /// The first row flagged as now playing.
    pub fn current_row(&self) -> (i: Option<usize>)
        ensures
            i matches Some(k) ==> current_row_index(row_views(self.rows@)) == Some(k as int)
                && k < self.rows@.len(),
            i is None ==> current_row_index(row_views(self.rows@)) is None,
    {
        let ghost rv = row_views(self.rows@);
        let mut i: usize = 0;
        while i < self.rows.len()
            invariant
                i <= self.rows@.len(),
                rv == row_views(self.rows@),
                forall|j: int| 0 <= j < i ==> !(#[trigger] rv[j].is_current),
            decreases self.rows@.len() - i,
        {
            if self.rows[i].is_current {
                proof {
                    assert(rv[i as int].is_current);
                    let w = choose|k: int|
                        0 <= k < rv.len() && rv[k].is_current && forall|j: int|
                            0 <= j < k ==> !(#[trigger] rv[j].is_current);
                    if w < i {
                        assert(!rv[w].is_current);
                    }
                    if w > i {
                        assert(!rv[i as int].is_current);
                    }
                }
                return Some(i);
            }
            i = i + 1;
        }
        None
    }

    /// The library id whose cover the playing track needs (none without a
    /// loaded track from the index). The shell asks `art` for it with the
    /// track's file, and drains `art` on each poll.
    pub fn current_art_token(&self) -> (token: Option<i64>)
        ensures
            token == match self.engine {
                Some(e) => match current_item_spec(e) {
                    Some(item) => item.track_id,
                    None => None,
                },
                None => None,
            },
    {
        match &self.engine {
            Some(e) => match e.cursor {
                Some(c) => if c < e.items.len() {
                    e.items[c].track_id
                } else {
                    None
                },
                None => None,
            },
            None => None,
        }
    }

    /// The playing track's cover URL, when one is known.
    pub fn current_art_link(&self) -> (url: Option<String>)
        ensures
            match url {
                Some(u) => current_art_spec(self.engine, self.art.answers()) == Some(u@),
                None => current_art_spec(self.engine, self.art.answers()) is None,
            },
    {
        let token = match self.current_art_token() {
            Some(t) => t,
            None => return None,
        };
        match self.art.art(token) {
            Some(a) => {
                let mut out: Vec<char> = chars_of("file://");
                push_all(&mut out, chars_of(a.thumb512.as_str()).as_slice());
                Some(string_of(out.as_slice()))
            },
            None => None,
        }
    }

    /// The playing track's cover URL; empty while unresolved and for tracks
    /// without one.
    pub fn current_art_url(&self) -> (url: String)
        ensures
            url@ == match current_art_spec(self.engine, self.art.answers()) {
                Some(u) => u,
                None => Seq::empty(),
            },
    {
        match self.current_art_link() {
            Some(u) => u,
            None => String::new(),
        }
    }

    /// Title of the playing row (empty when idle).
    pub fn current_title(&self) -> (t: String)
        ensures
            t@ == match current_row_index(row_views(self.rows@)) {
                Some(i) => self.rows@[i].title@,
                None => Seq::empty(),
            },
    {
        match self.current_row() {
            Some(i) => self.rows[i].title.clone(),
            None => String::new(),
        }
    }

    /// Artist of the playing row (empty when idle).
    pub fn current_artist(&self) -> (t: String)
        ensures
            t@ == match current_row_index(row_views(self.rows@)) {
                Some(i) => self.rows@[i].artist@,
                None => Seq::empty(),
            },
    {
        match self.current_row() {
            Some(i) => self.rows[i].artist.clone(),
            None => String::new(),
        }
    }

    /// Known duration: the engine's when positive, then the playing row's,
    /// else 0.
    pub fn duration_ms(&self) -> (d: i32)
        ensures
            d == ({
                let from_engine = match self.engine {
                    Some(e) => ms_field(e.duration_ms),
                    None => 0,
                };
                if from_engine > 0 {
                    from_engine
                } else {
                    match current_row_index(row_views(self.rows@)) {
                        Some(i) => self.rows@[i].duration_ms,
                        None => 0,
                    }
                }
            }),
    {
        let from_engine = match &self.engine {
            Some(e) => ms_to_field(e.duration_ms),
            None => 0,
        };
        if from_engine > 0 {
            return from_engine;
        }
        match self.current_row() {
            Some(i) => self.rows[i].duration_ms,
            None => 0,
        }
    }

    /// Current pipeline position in milliseconds (0 when unknown).
    pub fn position_ms(&self) -> (p: i32)
        ensures
            p == match self.engine {
                Some(e) => ms_field(e.position_ms),
                None => 0,
            },
    {
        match &self.engine {
            Some(e) => ms_to_field(e.position_ms),
            None => 0,
        }
    }

    /// Playback state code (0 stopped while no engine exists).
    pub fn playback_state(&self) -> (code: i32)
        ensures
            code == match self.engine {
                Some(e) => state_code(e.state),
                None => 0,
            },
    {
        match &self.engine {
            Some(e) => state_to_int(e.state),
            None => 0,
        }
    }

    /// Repeat code (0 off while no engine exists).
    pub fn repeat_mode(&self) -> (code: i32)
        ensures
            code == match self.engine {
                Some(e) => repeat_code(e.repeat),
                None => 0,
            },
    {
        match &self.engine {
            Some(e) => repeat_to_int(e.repeat),
            None => 0,
        }
    }

    /// Whether shuffle is on.
    pub fn is_shuffle(&self) -> (b: bool)
        ensures
            b == match self.engine {
                Some(e) => e.shuffle,
                None => false,
            },
    {
        match &self.engine {
            Some(e) => e.shuffle,
            None => false,
        }
    }

    /// Whether output is muted.
    pub fn is_muted(&self) -> (b: bool)
        ensures
            b == match self.engine {
                Some(e) => e.muted,
                None => false,
            },
    {
        match &self.engine {
            Some(e) => e.muted,
            None => false,
        }
    }

    /// Output volume as 0–100 (100 while no engine exists).
    pub fn volume_pct(&self) -> (pct: i32)
        ensures
            pct == match self.engine {
                Some(e) => e.volume_pct,
                None => 100,
            },
    {
        match &self.engine {
            Some(e) => e.volume_pct,
            None => 100,
        }
    }

    /// Cursor position (-1 when idle).
    pub fn current_index(&self) -> (i: i32)
        ensures
            i == match self.engine {
                Some(e) => match e.cursor {
                    Some(c) => if c <= i32::MAX {
                        c as i32
                    } else {
                        -1i32
                    },
                    None => -1i32,
                },
                None => -1i32,
            },
    {
        match &self.engine {
            Some(e) => match e.cursor {
                Some(c) => if c <= 0x7fff_ffff {
                    c as i32
                } else {
                    -1
                },
                None => -1,
            },
            None => -1,
        }
    }

    /// Whether the equalizer element is unavailable.
    pub fn eq_missing(&self) -> (b: bool)
        ensures
            b == match self.engine {
                Some(e) => e.equalizer_missing,
                None => false,
            },
    {
        match &self.engine {
            Some(e) => e.equalizer_missing,
            None => false,
        }
    }

    /// Last failure, if any.
    pub fn error_message(&self) -> (m: Option<String>)
        ensures
            m == self.last_error,
    {
        clone_opt_string(&self.last_error)
    }

    /// Last failure, or empty when clear.
    pub fn error_text(&self) -> (t: String)
        ensures
            t@ == match self.last_error {
                Some(m) => m@,
                None => Seq::empty(),
            },
    {
        match &self.last_error {
            Some(m) => m.clone(),
            None => String::new(),
        }
    }

    /// Whether the player window is focused.
    pub fn set_window_active(&mut self, active: bool)
        ensures
            final(self).window_active == active,
            final(self).rows == old(self).rows,
            final(self).engine == old(self).engine,
            final(self).settings == old(self).settings,
            final(self).last_notified_uri == old(self).last_notified_uri,
    {
        self.window_active = active;
    }
}

/// The entry under the cursor, when the cursor is on the queue.
pub open spec fn current_item_spec(e: EngineView) -> Option<QueueItem> {
    match e.cursor {
        Some(c) => if c < e.items@.len() {
            Some(e.items@[c as int])
        } else {
            None
        },
        None => None,
    }
}

/// The playing track's cover as a `file://` URL of its 512 px thumbnail:
/// none without a loaded track from the index, while its lookup is
/// unanswered, or when it has no art.
pub open spec fn current_art_spec(engine: Option<EngineView>, answers: Map<i64, Option<CachedArt>>) -> Option<
    Seq<char>,
> {
    match engine {
        Some(e) => match current_item_spec(e) {
            Some(item) => match item.track_id {
                Some(id) => if answers.contains_key(id) {
                    match answers[id] {
                        Some(a) => Some(file_url(a.thumb512@)),
                        None => None,
                    }
                } else {
                    None
                },
                None => None,
            },
            None => None,
        },
        None => None,
    }
}

/// Settings after recording the engine's audio state: mute, shuffle and
/// repeat always; the playing track and its position when one is loaded.
pub open spec fn audio_recorded(before: TunexConfig, after: TunexConfig, e: EngineView) -> bool {
    &&& after.playback.muted == e.muted
    &&& after.playback.shuffle == e.shuffle
    &&& after.playback.repeat_mode == e.repeat
    &&& match current_item_spec(e) {
        Some(item) => after.playback.last_uri == Some(item.uri) && after.playback.last_position_ms
            == (if ms_field(e.position_ms) < 0 {
            0
        } else {
            ms_field(e.position_ms) as u64
        }),
        None => after.playback.last_uri == before.playback.last_uri
            && after.playback.last_position_ms == before.playback.last_position_ms,
    }
    &&& after.playback.replaygain == before.playback.replaygain
    &&& after.playback.crossfade_secs == before.playback.crossfade_secs
    &&& after.playback.output_device == before.playback.output_device
    &&& after.playback.eq_enabled == before.playback.eq_enabled
    &&& after.playback.eq_preset == before.playback.eq_preset
    &&& after.appearance == before.appearance
    &&& after.notify == before.notify
    &&& after.window == before.window
}

/// The step an index-taking queue operation asks for: nothing without an
/// engine; a rebuild only for a negative index; otherwise the call.
pub open spec fn index_step(has_engine: bool, index: i32) -> QueueStep<usize> {
    if !has_engine {
        QueueStep::Skip
    } else if index < 0 {
        QueueStep::Resync
    } else {
        QueueStep::Call(index as usize)
    }
}

impl QueueModel {
    /// Record the engine's audio state in the settings copy (volume aside,
    /// which the shell carries).
    pub fn write_audio_config(&mut self)
        ensures
            match old(self).engine {
                Some(e) => audio_recorded(old(self).settings, final(self).settings, e),
                None => final(self).settings == old(self).settings,
            },
            final(self).engine == old(self).engine,
            final(self).rows == old(self).rows,
            final(self).last_error == old(self).last_error,
    {
        let position = self.position_ms();
        match &self.engine {
            Some(e) => {
                self.settings.playback.muted = e.muted;
                self.settings.playback.shuffle = e.shuffle;
                self.settings.playback.repeat_mode = e.repeat;
                match e.cursor {
                    Some(c) => if c < e.items.len() {
                        self.settings.playback.last_uri = Some(e.items[c].uri.clone());
                        self.settings.playback.last_position_ms = if position < 0 {
                            0
                        } else {
                            position as u64
                        };
                    },
                    None => {},
                }
            },
            None => {},
        }
    }

    /// After play, next, previous, or play-at: success clears the error line
    /// and rebuilds the rows; failure surfaces the engine's message.
    pub fn transport_finished(&mut self, outcome: Result<(), String>, engine: EngineView)
        ensures
            match outcome {
                Ok(()) => final(self).last_error is None && row_views(final(self).rows@)
                    == rows_of(engine.items@, engine.cursor) && final(self).last_len
                    == engine.items@.len() && final(self).last_cursor == engine.cursor,
                Err(m) => final(self).last_error == Some(m) && final(self).rows == old(self).rows
                    && final(self).last_len == old(self).last_len && final(self).last_cursor
                    == old(self).last_cursor,
            },
            final(self).engine == Some(engine),
            final(self).settings == old(self).settings,
    {
        match outcome {
            Ok(()) => {
                self.last_error = None;
                self.sync_rows(engine);
            },
            Err(m) => {
                self.last_error = Some(m);
                self.engine = Some(engine);
            },
        }
    }

    /// Start or resume playback, given how the engine's play went.
    pub fn play(&mut self, outcome: Result<(), String>, engine: EngineView)
        ensures
            match outcome {
                Ok(()) => final(self).last_error is None && row_views(final(self).rows@)
                    == rows_of(engine.items@, engine.cursor),
                Err(m) => final(self).last_error == Some(m) && final(self).rows == old(self).rows,
            },
            final(self).engine == Some(engine),
            final(self).settings == old(self).settings,
    {
        self.transport_finished(outcome, engine);
    }

    /// Step to the next track, given how the engine's step went.
    pub fn next_track(&mut self, outcome: Result<(), String>, engine: EngineView)
        ensures
            match outcome {
                Ok(()) => final(self).last_error is None && row_views(final(self).rows@)
                    == rows_of(engine.items@, engine.cursor),
                Err(m) => final(self).last_error == Some(m) && final(self).rows == old(self).rows,
            },
            final(self).engine == Some(engine),
            final(self).settings == old(self).settings,
    {
        self.transport_finished(outcome, engine);
    }

    /// Pause, holding position, given how the engine's pause went.
    pub fn pause(&mut self, outcome: Result<(), String>, engine: EngineView)
        ensures
            match outcome {
                Ok(()) => final(self).last_error == old(self).last_error,
                Err(m) => final(self).last_error == Some(m),
            },
            final(self).engine == Some(engine),
            final(self).rows == old(self).rows,
            final(self).settings == old(self).settings,
    {
        self.pause_finished(outcome, engine);
    }

    /// After pause: a failure surfaces its message; success leaves the error
    /// line as it was.
    pub fn pause_finished(&mut self, outcome: Result<(), String>, engine: EngineView)
        ensures
            match outcome {
                Ok(()) => final(self).last_error == old(self).last_error,
                Err(m) => final(self).last_error == Some(m),
            },
            final(self).engine == Some(engine),
            final(self).rows == old(self).rows,
            final(self).settings == old(self).settings,
    {
        if let Err(m) = outcome {
            self.last_error = Some(m);
        }
        self.engine = Some(engine);
    }

    /// Play/pause toggle: pause when the engine is playing, play otherwise.
    pub fn play_pause(&self) -> (pause: bool)
        ensures
            pause == match self.engine {
                Some(e) => e.state == PlaybackState::Playing,
                None => false,
            },
    {
        match &self.engine {
            Some(e) => e.state == PlaybackState::Playing,
            None => false,
        }
    }

    /// The position a step back is judged at: negative counts as zero.
    pub fn previous_track(position_ms: i32) -> (p: u64)
        ensures
            p == if position_ms < 0 {
                0
            } else {
                position_ms as u64
            },
    {
        if position_ms < 0 {
            0
        } else {
            position_ms as u64
        }
    }

    /// Entry to play now; negative indices and a missing engine ask nothing.
    pub fn play_at(&self, index: i32) -> (at: Option<usize>)
        ensures
            at == if self.engine is Some && index >= 0 {
                Some(index as usize)
            } else {
                None
            },
    {
        if self.engine.is_some() && index >= 0 {
            Some(index as usize)
        } else {
            None
        }
    }

    /// Remove the entry at `index` (the engine ignores out-of-range).
    pub fn remove_at(&self, index: i32) -> (step: QueueStep<usize>)
        ensures
            step == index_step(self.engine is Some, index),
    {
        if self.engine.is_none() {
            QueueStep::Skip
        } else if index < 0 {
            QueueStep::Resync
        } else {
            QueueStep::Call(index as usize)
        }
    }

    /// Move an entry from `from` to `to`; a negative end asks nothing.
    pub fn move_item(&self, from: i32, to: i32) -> (step: QueueStep<(usize, usize)>)
        ensures
            step == if self.engine is None {
                QueueStep::Skip
            } else if from < 0 || to < 0 {
                QueueStep::Resync
            } else {
                QueueStep::Call((from as usize, to as usize))
            },
    {
        if self.engine.is_none() {
            QueueStep::Skip
        } else if from < 0 || to < 0 {
            QueueStep::Resync
        } else {
            QueueStep::Call((from as usize, to as usize))
        }
    }

    /// Move an already-queued entry so it plays next.
    pub fn play_next_at(&self, index: i32) -> (step: QueueStep<usize>)
        ensures
            step == index_step(self.engine is Some, index),
    {
        if self.engine.is_none() {
            QueueStep::Skip
        } else if index < 0 {
            QueueStep::Resync
        } else {
            QueueStep::Call(index as usize)
        }
    }

    /// Move an entry to the end of Up Next: a move to the last slot. An
    /// empty queue asks nothing and rebuilds nothing.
    pub fn move_to_end(&self, index: i32) -> (step: QueueStep<(usize, usize)>)
        ensures
            step == match self.engine {
                None => QueueStep::Skip,
                Some(e) => if index < 0 {
                    QueueStep::Resync
                } else if e.items@.len() == 0 {
                    QueueStep::Skip
                } else {
                    QueueStep::Call((index as usize, (e.items@.len() - 1) as usize))
                },
            },
    {
        match &self.engine {
            None => QueueStep::Skip,
            Some(e) => if index < 0 {
                QueueStep::Resync
            } else if e.items.len() == 0 {
                QueueStep::Skip
            } else {
                QueueStep::Call((index as usize, e.items.len() - 1))
            },
        }
    }

    /// Empty the queue (the loaded track keeps playing): asks only with an
    /// engine.
    pub fn clear_queue(&self) -> (ask: bool)
        ensures
            ask == self.engine is Some,
    {
        self.engine.is_some()
    }

    /// Flip shuffle; returns the new state, or `None` without an engine.
    pub fn toggle_shuffle(&mut self) -> (shuffle: Option<bool>)
        ensures
            match old(self).engine {
                None => shuffle is None && final(self).engine is None && final(self).settings
                    == old(self).settings,
                Some(e) => shuffle == Some(!e.shuffle) && final(self).engine is Some
                    && final(self).engine->0.shuffle == !e.shuffle && final(self).engine->0.items
                    == e.items && final(self).engine->0.cursor == e.cursor
                    && final(self).engine->0.repeat == e.repeat && audio_recorded(
                    old(self).settings,
                    final(self).settings,
                    final(self).engine->0,
                ),
            },
            final(self).rows == old(self).rows,
    {
        let mut engine = match self.engine.take() {
            Some(e) => e,
            None => return None,
        };
        engine.shuffle = !engine.shuffle;
        let shuffle = engine.shuffle;
        self.engine = Some(engine);
        self.write_audio_config();
        Some(shuffle)
    }

    /// Step repeat off → all → one → off; returns the new code (0 without
    /// an engine).
    pub fn cycle_repeat(&mut self) -> (code: i32)
        ensures
            match old(self).engine {
                None => code == 0 && final(self).engine is None && final(self).settings
                    == old(self).settings,
                Some(e) => code == repeat_code(next_repeat_spec(e.repeat)) && final(self).engine
                    is Some && final(self).engine->0.repeat == next_repeat_spec(e.repeat)
                    && final(self).engine->0.shuffle == e.shuffle && final(self).engine->0.items
                    == e.items && final(self).engine->0.cursor == e.cursor && audio_recorded(
                    old(self).settings,
                    final(self).settings,
                    final(self).engine->0,
                ),
            },
            final(self).rows == old(self).rows,
    {
        let mut engine = match self.engine.take() {
            Some(e) => e,
            None => return 0,
        };
        engine.repeat = next_repeat(engine.repeat);
        let code = repeat_to_int(engine.repeat);
        self.engine = Some(engine);
        self.write_audio_config();
        code
    }

    /// Set output volume, clamped to 0–100; returns the percentage to apply,
    /// or `None` without an engine.
    pub fn set_volume_pct(&mut self, pct: i32) -> (applied: Option<u8>)
        ensures
            match old(self).engine {
                None => applied is None && final(self).engine is None,
                Some(e) => {
                    let clamped = if pct < 0 {
                        0
                    } else if pct > 100 {
                        100
                    } else {
                        pct
                    };
                    &&& applied == Some(clamped as u8)
                    &&& final(self).engine is Some
                    &&& final(self).engine->0.volume_pct == clamped
                    &&& final(self).engine->0.muted == e.muted
                    &&& final(self).engine->0.items == e.items
                    &&& final(self).engine->0.cursor == e.cursor
                    &&& audio_recorded(old(self).settings, final(self).settings, final(self).engine->0)
                },
            },
            old(self).engine is None ==> final(self).settings == old(self).settings,
            final(self).rows == old(self).rows,
    {
        let mut engine = match self.engine.take() {
            Some(e) => e,
            None => return None,
        };
        let clamped: i32 = if pct < 0 {
            0
        } else if pct > 100 {
            100
        } else {
            pct
        };
        engine.volume_pct = clamped;
        self.engine = Some(engine);
        self.write_audio_config();
        Some(clamped as u8)
    }

    /// Mute or unmute; returns whether the engine was there to ask.
    pub fn set_muted(&mut self, muted: bool) -> (asked: bool)
        ensures
            asked == old(self).engine is Some,
            match old(self).engine {
                None => final(self).engine is None && final(self).settings == old(self).settings,
                Some(e) => final(self).engine is Some && final(self).engine->0.muted == muted
                    && final(self).engine->0.volume_pct == e.volume_pct
                    && final(self).engine->0.items == e.items && final(self).engine->0.cursor
                    == e.cursor && audio_recorded(
                    old(self).settings,
                    final(self).settings,
                    final(self).engine->0,
                ),
            },
            final(self).rows == old(self).rows,
    {
        let mut engine = match self.engine.take() {
            Some(e) => e,
            None => return false,
        };
        engine.muted = muted;
        self.engine = Some(engine);
        self.write_audio_config();
        true
    }

    /// Seek target: negative positions clamp to zero; `None` without an
    /// engine.
    pub fn seek_ms(&self, position_ms: i32) -> (target: Option<u64>)
        ensures
            target == if self.engine is None {
                None
            } else if position_ms < 0 {
                Some(0u64)
            } else {
                Some(position_ms as u64)
            },
    {
        if self.engine.is_none() {
            None
        } else if position_ms < 0 {
            Some(0)
        } else {
            Some(position_ms as u64)
        }
    }

    /// After a seek: success clears the error line, failure surfaces it.
    pub fn seek_finished(&mut self, outcome: Result<(), String>)
        ensures
            final(self).last_error == match outcome {
                Ok(()) => None,
                Err(m) => Some(m),
            },
            final(self).rows == old(self).rows,
            final(self).engine == old(self).engine,
            final(self).settings == old(self).settings,
    {
        match outcome {
            Ok(()) => self.last_error = None,
            Err(m) => self.last_error = Some(m),
        }
    }
}

/// Lowest and highest visualizer frame rates offered.
pub const VISUALIZER_FPS_MIN: i32 = 5;

pub const VISUALIZER_FPS_MAX: i32 = 30;

/// `value` clamped into `lo..=hi`.
pub open spec fn clamp_spec(value: int, lo: int, hi: int) -> int {
    if value < lo {
        lo
    } else if value > hi {
        hi
    } else {
        value
    }
}

impl QueueModel {
    /// Whether glass should fall back to opaque surfaces.
    pub fn reduce_transparency(&self) -> (b: bool)
        ensures
            b == self.settings.appearance.reduce_transparency,
    {
        self.settings.appearance.reduce_transparency
    }

    /// Whether overlay motion should be instant.
    pub fn reduce_motion(&self) -> (b: bool)
        ensures
            b == self.settings.appearance.reduce_motion,
    {
        self.settings.appearance.reduce_motion
    }

    /// Set the opaque-surface preference.
    pub fn set_reduce_transparency(&mut self, enabled: bool)
        ensures
            final(self).settings.appearance.reduce_transparency == enabled,
            final(self).settings.appearance.reduce_motion
                == old(self).settings.appearance.reduce_motion,
            final(self).settings.appearance.visualizer == old(self).settings.appearance.visualizer,
            final(self).settings.appearance.visualizer_fps
                == old(self).settings.appearance.visualizer_fps,
            final(self).settings.playback == old(self).settings.playback,
            final(self).settings.notify == old(self).settings.notify,
            final(self).engine == old(self).engine,
            final(self).rows == old(self).rows,
    {
        self.settings.appearance.reduce_transparency = enabled;
    }

    /// Set the instant-motion preference.
    pub fn set_reduce_motion(&mut self, enabled: bool)
        ensures
            final(self).settings.appearance.reduce_motion == enabled,
            final(self).settings.appearance.reduce_transparency
                == old(self).settings.appearance.reduce_transparency,
            final(self).settings.appearance.visualizer == old(self).settings.appearance.visualizer,
            final(self).settings.appearance.visualizer_fps
                == old(self).settings.appearance.visualizer_fps,
            final(self).settings.playback == old(self).settings.playback,
            final(self).settings.notify == old(self).settings.notify,
            final(self).engine == old(self).engine,
            final(self).rows == old(self).rows,
    {
        self.settings.appearance.reduce_motion = enabled;
    }

    /// Master notification switch.
    pub fn notifications_enabled(&self) -> (b: bool)
        ensures
            b == self.settings.notify.enabled,
    {
        self.settings.notify.enabled
    }

    /// Set the master notification switch.
    pub fn set_notifications_enabled(&mut self, enabled: bool)
        ensures
            final(self).settings.notify.enabled == enabled,
            final(self).settings.notify.track_change == old(self).settings.notify.track_change,
            final(self).settings.notify.playback_errors
                == old(self).settings.notify.playback_errors,
            final(self).settings.playback == old(self).settings.playback,
            final(self).settings.appearance == old(self).settings.appearance,
            final(self).engine == old(self).engine,
            final(self).rows == old(self).rows,
    {
        self.settings.notify.enabled = enabled;
    }

    /// Track-change toast preference.
    pub fn notify_track_change(&self) -> (b: bool)
        ensures
            b == self.settings.notify.track_change,
    {
        self.settings.notify.track_change
    }

    /// Set the track-change toast preference.
    pub fn set_notify_track_change(&mut self, enabled: bool)
        ensures
            final(self).settings.notify.track_change == enabled,
            final(self).settings.notify.enabled == old(self).settings.notify.enabled,
            final(self).settings.notify.playback_errors
                == old(self).settings.notify.playback_errors,
            final(self).settings.playback == old(self).settings.playback,
            final(self).settings.appearance == old(self).settings.appearance,
            final(self).engine == old(self).engine,
            final(self).rows == old(self).rows,
    {
        self.settings.notify.track_change = enabled;
    }

    /// Playback-error toast preference.
    pub fn notify_playback_errors(&self) -> (b: bool)
        ensures
            b == self.settings.notify.playback_errors,
    {
        self.settings.notify.playback_errors
    }

    /// Set the playback-error toast preference.
    pub fn set_notify_playback_errors(&mut self, enabled: bool)
        ensures
            final(self).settings.notify.playback_errors == enabled,
            final(self).settings.notify.enabled == old(self).settings.notify.enabled,
            final(self).settings.notify.track_change == old(self).settings.notify.track_change,
            final(self).settings.playback == old(self).settings.playback,
            final(self).settings.appearance == old(self).settings.appearance,
            final(self).engine == old(self).engine,
            final(self).rows == old(self).rows,
    {
        self.settings.notify.playback_errors = enabled;
    }

    /// `ReplayGain` mode as 0 (off), 1 (track), 2 (album).
    pub fn replaygain_mode(&self) -> (code: i32)
        ensures
            code == replaygain_code(self.settings.playback.replaygain),
    {
        replaygain_to_int(self.settings.playback.replaygain)
    }

    /// Set the `ReplayGain` mode from its code (unknown codes mean off);
    /// returns the mode for the engine.
    pub fn set_replaygain_mode(&mut self, code: i32) -> (mode: ReplayGainMode)
        ensures
            mode == replaygain_of_code(code),
            final(self).settings.playback.replaygain == mode,
            final(self).settings.playback.crossfade_secs
                == old(self).settings.playback.crossfade_secs,
            final(self).settings.playback.output_device
                == old(self).settings.playback.output_device,
            final(self).settings.playback.shuffle == old(self).settings.playback.shuffle,
            final(self).settings.playback.repeat_mode == old(self).settings.playback.repeat_mode,
            final(self).settings.appearance == old(self).settings.appearance,
            final(self).settings.notify == old(self).settings.notify,
            final(self).engine == old(self).engine,
            final(self).rows == old(self).rows,
    {
        let mode = replaygain_from_int(code);
        self.settings.playback.replaygain = mode;
        mode
    }

    /// Cycle `ReplayGain` off → track → album → off; returns the new code.
    pub fn cycle_replaygain(&mut self) -> (code: i32)
        ensures
            code == (replaygain_code(old(self).settings.playback.replaygain) + 1) % 3,
            replaygain_code(final(self).settings.playback.replaygain) == code,
            final(self).settings.playback.crossfade_secs
                == old(self).settings.playback.crossfade_secs,
            final(self).settings.appearance == old(self).settings.appearance,
            final(self).settings.notify == old(self).settings.notify,
            final(self).engine == old(self).engine,
            final(self).rows == old(self).rows,
    {
        let next = (self.replaygain_mode() + 1) % 3;
        self.set_replaygain_mode(next);
        next
    }

    /// Crossfade length in seconds.
    pub fn crossfade_secs(&self) -> (secs: i32)
        ensures
            secs == self.settings.playback.crossfade_secs as i32,
    {
        self.settings.playback.crossfade_secs as i32
    }

    /// Set the crossfade length, clamped to 0–12 s; returns what to apply.
    pub fn set_crossfade_secs(&mut self, secs: i32) -> (applied: u8)
        ensures
            applied == clamp_spec(secs as int, 0, MAX_CROSSFADE_SECS as int),
            final(self).settings.playback.crossfade_secs == applied,
            final(self).settings.playback.replaygain == old(self).settings.playback.replaygain,
            final(self).settings.playback.output_device
                == old(self).settings.playback.output_device,
            final(self).settings.appearance == old(self).settings.appearance,
            final(self).settings.notify == old(self).settings.notify,
            final(self).engine == old(self).engine,
            final(self).rows == old(self).rows,
    {
        let clamped: u8 = if secs < 0 {
            0
        } else if secs > MAX_CROSSFADE_SECS as i32 {
            MAX_CROSSFADE_SECS
        } else {
            secs as u8
        };
        self.settings.playback.crossfade_secs = clamped;
        clamped
    }

    /// Whether the equalizer is applied.
    pub fn eq_enabled(&self) -> (b: bool)
        ensures
            b == self.settings.playback.eq_enabled,
    {
        self.settings.playback.eq_enabled
    }

    /// Switch the equalizer on or off (the preset and bands stay).
    pub fn set_eq_enabled(&mut self, enabled: bool)
        ensures
            final(self).settings.playback.eq_enabled == enabled,
            final(self).settings.playback.eq_preset == old(self).settings.playback.eq_preset,
            final(self).settings.playback.replaygain == old(self).settings.playback.replaygain,
            final(self).settings.playback.crossfade_secs
                == old(self).settings.playback.crossfade_secs,
            final(self).settings.appearance == old(self).settings.appearance,
            final(self).settings.notify == old(self).settings.notify,
            final(self).engine == old(self).engine,
            final(self).rows == old(self).rows,
    {
        self.settings.playback.eq_enabled = enabled;
    }

    /// Named preset in use (`flat` when none was saved).
    pub fn eq_preset(&self) -> (name: String)
        ensures
            name@ == if self.settings.playback.eq_preset@.len() == 0 {
                "flat"@
            } else {
                self.settings.playback.eq_preset@
            },
    {
        if self.settings.playback.eq_preset.as_str().is_empty() {
            string_of(chars_of("flat").as_slice())
        } else {
            self.settings.playback.eq_preset.clone()
        }
    }

    /// Switch to the named preset and hand back its gains for the engine and
    /// the saved bands; an unknown name changes nothing and gives `None`.
    pub fn set_eq_preset(&mut self, name: &str) -> (gains: Option<Vec<i32>>)
        ensures
            match gains {
                Some(g) => {
                    &&& preset_gains_spec(name@) == Some(g@)
                    &&& final(self).settings.playback.eq_preset@ == name@
                    &&& final(self).settings.playback.eq_enabled
                        == old(self).settings.playback.eq_enabled
                    &&& final(self).settings.playback.replaygain
                        == old(self).settings.playback.replaygain
                    &&& final(self).settings.playback.crossfade_secs
                        == old(self).settings.playback.crossfade_secs
                    &&& final(self).settings.appearance == old(self).settings.appearance
                    &&& final(self).settings.notify == old(self).settings.notify
                },
                None => {
                    &&& preset_gains_spec(name@) is None
                    &&& final(self).settings == old(self).settings
                },
            },
            final(self).engine == old(self).engine,
            final(self).rows == old(self).rows,
    {
        let gains = preset_gains(name);
        if gains.is_some() {
            self.settings.playback.eq_preset = string_of(chars_of(name).as_slice());
        }
        gains
    }

    /// Back to the flat preset; hands back its gains (all zero) for the
    /// engine and the saved bands.
    pub fn reset_eq(&mut self) -> (gains: Vec<i32>)
        ensures
            gains@ == preset_row(0),
            final(self).settings.playback.eq_preset@ == "flat"@,
            final(self).settings.playback.eq_enabled == old(self).settings.playback.eq_enabled,
            final(self).settings.appearance == old(self).settings.appearance,
            final(self).settings.notify == old(self).settings.notify,
            final(self).engine == old(self).engine,
            final(self).rows == old(self).rows,
    {
        proof {
            reveal_strlit("flat");
            assert(eq_preset_ids()[0] == "flat"@);
        }
        match self.set_eq_preset("flat") {
            Some(g) => {
                proof {
                    lemma_preset_named(0);
                }
                g
            },
            None => Vec::new(),
        }
    }

    /// Centre label of equalizer band `index` (empty outside 0–9).
    pub fn eq_band_label(index: i32) -> (label: String)
        ensures
            label@ == if 0 <= index < 10 {
                eq_band_labels()[index as int]
            } else {
                Seq::empty()
            },
    {
        let text = if index == 0 {
            "29 Hz"
        } else if index == 1 {
            "59 Hz"
        } else if index == 2 {
            "119 Hz"
        } else if index == 3 {
            "237 Hz"
        } else if index == 4 {
            "474 Hz"
        } else if index == 5 {
            "947 Hz"
        } else if index == 6 {
            "1.9 kHz"
        } else if index == 7 {
            "3.8 kHz"
        } else if index == 8 {
            "7.5 kHz"
        } else if index == 9 {
            "15 kHz"
        } else {
            proof {
                reveal_strlit("");
            }
            ""
        };
        string_of(chars_of(text).as_slice())
    }

    /// Visualizer code: 0 artwork, 1 spectrum, 2 waveform, 3 visualizer.
    pub fn visualizer_mode(&self) -> (code: i32)
        ensures
            code == visualizer_code(self.settings.appearance.visualizer),
    {
        visualizer_to_int(self.settings.appearance.visualizer)
    }

    /// Set the visualizer from its code (unknown codes mean artwork).
    pub fn set_visualizer_mode(&mut self, code: i32)
        ensures
            final(self).settings.appearance.visualizer == visualizer_of_code(code),
            final(self).settings.appearance.visualizer_fps
                == old(self).settings.appearance.visualizer_fps,
            final(self).settings.appearance.reduce_motion
                == old(self).settings.appearance.reduce_motion,
            final(self).settings.appearance.reduce_transparency
                == old(self).settings.appearance.reduce_transparency,
            final(self).settings.playback == old(self).settings.playback,
            final(self).settings.notify == old(self).settings.notify,
            final(self).engine == old(self).engine,
            final(self).rows == old(self).rows,
    {
        self.settings.appearance.visualizer = visualizer_from_int(code);
    }

    /// Visualizer frame rate.
    pub fn visualizer_fps(&self) -> (fps: i32)
        ensures
            fps == self.settings.appearance.visualizer_fps as i32,
    {
        self.settings.appearance.visualizer_fps as i32
    }

    /// Set the visualizer frame rate, clamped to 5–30.
    pub fn set_visualizer_fps(&mut self, fps: i32)
        ensures
            final(self).settings.appearance.visualizer_fps == clamp_spec(
                fps as int,
                VISUALIZER_FPS_MIN as int,
                VISUALIZER_FPS_MAX as int,
            ),
            final(self).settings.appearance.visualizer == old(self).settings.appearance.visualizer,
            final(self).settings.appearance.reduce_motion
                == old(self).settings.appearance.reduce_motion,
            final(self).settings.appearance.reduce_transparency
                == old(self).settings.appearance.reduce_transparency,
            final(self).settings.playback == old(self).settings.playback,
            final(self).settings.notify == old(self).settings.notify,
            final(self).engine == old(self).engine,
            final(self).rows == old(self).rows,
    {
        let clamped: i32 = if fps < VISUALIZER_FPS_MIN {
            VISUALIZER_FPS_MIN
        } else if fps > VISUALIZER_FPS_MAX {
            VISUALIZER_FPS_MAX
        } else {
            fps
        };
        self.settings.appearance.visualizer_fps = clamped as u8;
    }

    /// Current output device id (empty = system default).
    pub fn output_device(&self) -> (id: String)
        ensures
            id@ == self.settings.playback.output_device@,
    {
        self.settings.playback.output_device.clone()
    }

    /// Replace the listed output devices with a fresh enumeration.
    pub fn refresh_outputs(&mut self, outputs: Vec<(String, String)>)
        ensures
            final(self).outputs == outputs,
            final(self).settings == old(self).settings,
            final(self).engine == old(self).engine,
            final(self).rows == old(self).rows,
    {
        self.outputs = outputs;
    }

    /// How many output devices are listed.
    pub fn output_count(&self) -> (n: i32)
        ensures
            n == count_field(self.outputs@.len()),
    {
        count_to_field(self.outputs.len())
    }

    /// Device id at `index` (empty when out of range).
    pub fn output_id_at(&self, index: i32) -> (id: String)
        ensures
            id@ == if 0 <= index < self.outputs@.len() {
                self.outputs@[index as int].0@
            } else {
                Seq::empty()
            },
    {
        if index >= 0 && (index as usize) < self.outputs.len() {
            self.outputs[index as usize].0.clone()
        } else {
            String::new()
        }
    }

    /// Device label at `index` (empty when out of range).
    pub fn output_label_at(&self, index: i32) -> (label: String)
        ensures
            label@ == if 0 <= index < self.outputs@.len() {
                self.outputs@[index as int].1@
            } else {
                Seq::empty()
            },
    {
        if index >= 0 && (index as usize) < self.outputs.len() {
            self.outputs[index as usize].1.clone()
        } else {
            String::new()
        }
    }

    /// The next output after the one in use (the first listed when the one
    /// in use is not listed), wrapping; 0 with nothing listed.
    pub fn cycle_output(&self) -> (next: i32)
        ensures
            ({
                let count = count_field(self.outputs@.len());
                let at = first_output_with_id(self.outputs@, self.settings.playback.output_device@,
                    count as int);
                next == if count <= 0 {
                    0
                } else {
                    ((at + 1) % (count as int)) as i32
                }
            }),
    {
        let count = self.output_count();
        if count <= 0 {
            return 0;
        }
        let current = chars_of(self.settings.playback.output_device.as_str());
        let mut index: i32 = 0;
        while index < count
            invariant
                0 <= index <= count,
                count == count_field(self.outputs@.len()),
                count > 0,
                current@ == self.settings.playback.output_device@,
                first_output_with_id(self.outputs@, current@, count as int)
                    == first_output_with_id_from(self.outputs@, current@, index as int, count as int),
            decreases count - index,
        {
            let id = chars_of(self.output_id_at(index).as_str());
            if same_chars(id.as_slice(), current.as_slice()) {
                assert(first_output_with_id_from(self.outputs@, current@, index as int, count as int)
                    == index as int);
                return (index + 1) % count;
            }
            index = index + 1;
        }
        1 % count
    }

    /// After switching the output device: failure surfaces its message and
    /// keeps the setting; success records the new id.
    pub fn output_device_finished(&mut self, id: String, outcome: Result<(), String>)
        ensures
            match outcome {
                Ok(()) => final(self).settings.playback.output_device == id
                    && final(self).last_error == old(self).last_error,
                Err(m) => final(self).last_error == Some(m) && final(self).settings
                    == old(self).settings,
            },
            final(self).engine == old(self).engine,
            final(self).rows == old(self).rows,
    {
        match outcome {
            Ok(()) => self.settings.playback.output_device = id,
            Err(m) => self.last_error = Some(m),
        }
    }
}

/// The id of the output at `i`, as the cycle compares it (empty past the
/// listed ones).
pub open spec fn output_id_spec(outputs: Seq<(String, String)>, i: int) -> Seq<char> {
    if 0 <= i < outputs.len() {
        outputs[i].0@
    } else {
        Seq::empty()
    }
}

/// First index in `from..count` whose output id is `id`, else 0.
pub open spec fn first_output_with_id_from(
    outputs: Seq<(String, String)>,
    id: Seq<char>,
    from: int,
    count: int,
) -> int
    decreases count - from,
{
    if from >= count {
        0
    } else if output_id_spec(outputs, from) == id {
        from
    } else {
        first_output_with_id_from(outputs, id, from + 1, count)
    }
}

/// First index below `count` whose output id is `id`, else 0.
pub open spec fn first_output_with_id(outputs: Seq<(String, String)>, id: Seq<char>, count: int) -> int {
    first_output_with_id_from(outputs, id, 0, count)
}

/// How many lyric lines carry a start time (0 or more).
pub open spec fn synced_count(lines: Seq<(i32, String)>) -> nat
    decreases lines.len(),
{
    if lines.len() == 0 {
        0
    } else {
        synced_count(lines.drop_last()) + if lines.last().0 >= 0 {
            1nat
        } else {
            0nat
        }
    }
}

/// The synced count is 0 exactly when no line carries a start time, which is
/// when `lyrics_synced` answers false.
pub proof fn lemma_synced_count_zero(lines: Seq<(i32, String)>)
    ensures
        synced_count(lines) == 0 <==> !(exists|i: int| 0 <= i < lines.len() && #[trigger] lines[i].0 >= 0),
    decreases lines.len(),
{
    if lines.len() > 0 {
        let p = lines.drop_last();
        lemma_synced_count_zero(p);
        if exists|i: int| 0 <= i < p.len() && #[trigger] p[i].0 >= 0 {
            let i = choose|i: int| 0 <= i < p.len() && #[trigger] p[i].0 >= 0;
            assert(lines[i].0 >= 0);
        }
        if exists|i: int| 0 <= i < lines.len() && #[trigger] lines[i].0 >= 0 {
            let i = choose|i: int| 0 <= i < lines.len() && #[trigger] lines[i].0 >= 0;
            if i < lines.len() - 1 {
                assert(p[i].0 >= 0);
            }
        }
    }
}

/// Lyric lines as stored: start times converted, texts kept, in order.
pub open spec fn lyric_lines_of(lines: Seq<(Option<u64>, String)>) -> Seq<(i32, String)> {
    lines.map_values(|l: (Option<u64>, String)| (lyric_time(l.0), l.1))
}

/// What a group enqueue looked up, for the line shown when the index no
/// longer knows it.
#[derive(Clone, Copy, Debug, PartialEq, Eq, Structural)]
pub enum Gone {
    Album,
    Folder,
    Artist,
    Playlist,
    List,
    Albums,
    Artists,
}

/// The error line for a group the index no longer knows.
pub open spec fn gone_text(g: Gone) -> Seq<char> {
    match g {
        Gone::Album => "That album is no longer in the library."@,
        Gone::Folder => "That folder is no longer in the library."@,
        Gone::Artist => "That artist is no longer in the library."@,
        Gone::Playlist => "That playlist is no longer in the library."@,
        Gone::List => "That list is no longer in the library."@,
        Gone::Albums => "Those albums are no longer in the library."@,
        Gone::Artists => "Those artists are no longer in the library."@,
    }
}

/// The error line for a group the index no longer knows.
pub fn gone_message(g: Gone) -> (m: String)
    ensures
        m@ == gone_text(g),
{
    let text = match g {
        Gone::Album => "That album is no longer in the library.",
        Gone::Folder => "That folder is no longer in the library.",
        Gone::Artist => "That artist is no longer in the library.",
        Gone::Playlist => "That playlist is no longer in the library.",
        Gone::List => "That list is no longer in the library.",
        Gone::Albums => "Those albums are no longer in the library.",
        Gone::Artists => "Those artists are no longer in the library.",
    };
    string_of(chars_of(text).as_slice())
}

/// The error line an index that cannot be opened leaves.
pub open spec fn open_index_message(library_missing: bool) -> Seq<char> {
    if library_missing {
        "Your library is empty — add a music folder first."@
    } else {
        "The music library cannot be read."@
    }
}

/// The error line a failed track lookup leaves.
pub open spec fn lookup_message(lookup: TrackLookup) -> Option<Seq<char>> {
    match lookup {
        TrackLookup::Failed => Some("That track is no longer in the library."@),
        TrackLookup::Absent => Some("That track is no longer in the library."@),
        TrackLookup::Missing => Some("That file is missing from disk."@),
        TrackLookup::Unplayable => Some("That file cannot be played."@),
        TrackLookup::Playable(_) => None,
    }
}

/// The playable items of a playlist, in entry order.
pub open spec fn playable_entries(entries: Seq<PlaylistEntry>) -> Seq<QueueItem>
    decreases entries.len(),
{
    if entries.len() == 0 {
        Seq::empty()
    } else {
        let rest = playable_entries(entries.drop_last());
        match entries.last() {
            PlaylistEntry::Playable(item) => rest.push(item),
            _ => rest,
        }
    }
}

/// A count as a QML `i32`.
pub fn count_to_i32(n: usize) -> (f: i32)
    ensures
        f == count_field(n as nat),
{
    count_to_field(n)
}

impl QueueModel {
    /// Whether the lyrics on hand belong to another track than `uri`.
    pub fn lyrics_stale(&self, uri: &str) -> (stale: bool)
        ensures
            stale == (uri@ != self.lyrics_uri@),
    {
        !same_chars(chars_of(uri).as_slice(), chars_of(self.lyrics_uri.as_str()).as_slice())
    }

    /// Take the lyrics loaded for `uri`: times that do not fit a QML `i32`
    /// count as unsynced (-1).
    pub fn load_lyrics(&mut self, uri: String, plain: String, lines: Vec<(Option<u64>, String)>)
        ensures
            final(self).lyrics_uri == uri,
            final(self).lyrics_plain == plain,
            final(self).lyrics_lines@ == lyric_lines_of(lines@),
            final(self).rows == old(self).rows,
            final(self).engine == old(self).engine,
            final(self).settings == old(self).settings,
    {
        let mut converted: Vec<(i32, String)> = Vec::new();
        let mut i: usize = 0;
        while i < lines.len()
            invariant
                i <= lines@.len(),
                converted@ == lyric_lines_of(lines@.take(i as int)),
            decreases lines@.len() - i,
        {
            let (time, text) = (lines[i].0, lines[i].1.clone());
            let t: i32 = match time {
                Some(v) => if v <= 0x7fff_ffff {
                    v as i32
                } else {
                    -1
                },
                None => -1,
            };
            converted.push((t, text));
            assert(converted@ =~= lyric_lines_of(lines@.take(i + 1)));
            i = i + 1;
        }
        assert(lines@.take(lines@.len() as int) =~= lines@);
        self.lyrics_uri = uri;
        self.lyrics_plain = plain;
        self.lyrics_lines = converted;
    }

    /// Forget the lyrics (a track without a readable path): remembers `uri`
    /// so they are not looked up again.
    pub fn clear_lyrics(&mut self, uri: String)
        ensures
            final(self).lyrics_uri == uri,
            final(self).lyrics_plain@.len() == 0,
            final(self).lyrics_lines@.len() == 0,
            final(self).rows == old(self).rows,
            final(self).engine == old(self).engine,
            final(self).settings == old(self).settings,
    {
        self.lyrics_uri = uri;
        self.lyrics_plain = String::new();
        self.lyrics_lines = Vec::new();
    }

    /// Joined lyric text (sidecar LRC or embedded unsynced).
    pub fn lyrics_plain(&self) -> (t: String)
        ensures
            t == self.lyrics_plain,
    {
        self.lyrics_plain.clone()
    }

    /// Number of synced lyric lines (0 for unsynced-only lyrics). The row
    /// accessors (`lyrics_line_at`, `lyrics_time_at`, `lyrics_active_index`)
    /// index every stored line, synced or not, so the two agree when the
    /// lines are all synced; unsynced-only lyrics show as plain text.
    pub fn lyrics_line_count(&self) -> (n: i32)
        ensures
            n == count_field(synced_count(self.lyrics_lines@)),
    {
        let mut count: usize = 0;
        let mut i: usize = 0;
        while i < self.lyrics_lines.len()
            invariant
                i <= self.lyrics_lines@.len(),
                count == synced_count(self.lyrics_lines@.take(i as int)),
                count <= i,
            decreases self.lyrics_lines@.len() - i,
        {
            assert(self.lyrics_lines@.take(i + 1).drop_last() =~= self.lyrics_lines@.take(i as int));
            if self.lyrics_lines[i].0 >= 0 {
                count = count + 1;
            }
            i = i + 1;
        }
        assert(self.lyrics_lines@.take(self.lyrics_lines@.len() as int) =~= self.lyrics_lines@);
        count_to_field(count)
    }

    /// Lyric text at `row` (empty when out of range).
    pub fn lyrics_line_at(&self, row: i32) -> (t: String)
        ensures
            t@ == if 0 <= row < self.lyrics_lines@.len() {
                self.lyrics_lines@[row as int].1@
            } else {
                Seq::empty()
            },
    {
        if row >= 0 && (row as usize) < self.lyrics_lines.len() {
            self.lyrics_lines[row as usize].1.clone()
        } else {
            String::new()
        }
    }

    /// Lyric start time at `row` (-1 when unsynced or out of range).
    pub fn lyrics_time_at(&self, row: i32) -> (t: i32)
        ensures
            t == if 0 <= row < self.lyrics_lines@.len() {
                self.lyrics_lines@[row as int].0
            } else {
                -1i32
            },
    {
        if row >= 0 && (row as usize) < self.lyrics_lines.len() {
            self.lyrics_lines[row as usize].0
        } else {
            -1
        }
    }

    /// Synced line for `position_ms`: the last line starting at or before
    /// it (-1 when none).
    pub fn lyrics_active_index(&self, position_ms: i32) -> (i: i32)
        ensures
            i == ({
                let a = lyrics_active_spec(self.lyrics_lines@, position_ms);
                if a <= i32::MAX {
                    a
                } else {
                    i32::MAX as int
                }
            }),
    {
        let position: i64 = if position_ms < 0 {
            0
        } else {
            position_ms as i64
        };
        let mut active: i32 = -1;
        let mut index: usize = 0;
        while index < self.lyrics_lines.len()
            invariant
                index <= self.lyrics_lines@.len(),
                position == (if position_ms < 0 {
                    0
                } else {
                    position_ms as int
                }),
                active == ({
                    let a = lyrics_active_spec(self.lyrics_lines@.take(index as int), position_ms);
                    if a <= i32::MAX {
                        a
                    } else {
                        i32::MAX as int
                    }
                }),
            decreases self.lyrics_lines@.len() - index,
        {
            let time = self.lyrics_lines[index].0;
            assert(self.lyrics_lines@.take(index + 1).drop_last() =~= self.lyrics_lines@.take(
                index as int,
            ));
            if time >= 0 && (time as i64) <= position {
                active = count_to_field(index);
            }
            index = index + 1;
        }
        assert(self.lyrics_lines@.take(self.lyrics_lines@.len() as int) =~= self.lyrics_lines@);
        active
    }

    /// Whether the loaded lyrics carry timestamps.
    pub fn lyrics_synced(&self) -> (b: bool)
        ensures
            b == exists|i: int| 0 <= i < self.lyrics_lines@.len() && #[trigger] self.lyrics_lines@[i].0
                >= 0,
    {
        let mut i: usize = 0;
        while i < self.lyrics_lines.len()
            invariant
                i <= self.lyrics_lines@.len(),
                forall|j: int| 0 <= j < i ==> #[trigger] self.lyrics_lines@[j].0 < 0,
            decreases self.lyrics_lines@.len() - i,
        {
            if self.lyrics_lines[i].0 >= 0 {
                return true;
            }
            i = i + 1;
        }
        false
    }

    /// Switch to another profile's index: when it had no saved queue the
    /// engine's queue is to be emptied and the lyrics forgotten. Returns
    /// whether to empty the engine's queue.
    pub fn reload_index(&mut self, restored: bool) -> (clear_engine_queue: bool)
        ensures
            clear_engine_queue == (!restored && old(self).engine is Some),
            !restored ==> final(self).lyrics_uri@.len() == 0 && final(self).lyrics_plain@.len()
                == 0 && final(self).lyrics_lines@.len() == 0,
            restored ==> final(self).lyrics_lines == old(self).lyrics_lines
                && final(self).lyrics_uri == old(self).lyrics_uri,
            final(self).rows == old(self).rows,
            final(self).engine == old(self).engine,
            final(self).settings == old(self).settings,
    {
        if restored {
            return false;
        }
        self.clear_lyrics(String::new());
        self.engine.is_some()
    }

    /// The index could not be opened for an enqueue: say why.
    pub fn open_index_failed(&mut self, library_missing: bool)
        ensures
            final(self).last_error is Some,
            final(self).last_error->0@ == open_index_message(library_missing),
            final(self).rows == old(self).rows,
            final(self).engine == old(self).engine,
            final(self).settings == old(self).settings,
    {
        let text = if library_missing {
            "Your library is empty — add a music folder first."
        } else {
            "The music library cannot be read."
        };
        self.last_error = Some(string_of(chars_of(text).as_slice()));
    }

    /// Resolve one library track to a playable entry; a track that cannot
    /// be played leaves its reason on the error line.
    pub fn resolve_track(&mut self, lookup: TrackLookup) -> (item: Option<QueueItem>)
        ensures
            match lookup {
                TrackLookup::Playable(it) => item == Some(it) && final(self).last_error
                    == old(self).last_error,
                _ => item is None && final(self).last_error is Some
                    && lookup_message(lookup) == Some(final(self).last_error->0@),
            },
            final(self).rows == old(self).rows,
            final(self).engine == old(self).engine,
            final(self).settings == old(self).settings,
    {
        let text = match lookup {
            TrackLookup::Playable(it) => return Some(it),
            TrackLookup::Failed => "That track is no longer in the library.",
            TrackLookup::Absent => "That track is no longer in the library.",
            TrackLookup::Missing => "That file is missing from disk.",
            TrackLookup::Unplayable => "That file cannot be played.",
        };
        self.last_error = Some(string_of(chars_of(text).as_slice()));
        None
    }

    /// After entries were added to the engine's queue: rows rebuild, the
    /// error line clears, and the count comes back as a QML `i32`.
    pub fn enqueued(&mut self, count: usize, engine: EngineView) -> (added: i32)
        ensures
            added == count_field(count as nat),
            final(self).last_error is None,
            row_views(final(self).rows@) == rows_of(engine.items@, engine.cursor),
            final(self).engine == Some(engine),
            final(self).published == old(self).published,
            final(self).settings == old(self).settings,
    {
        self.sync_rows(engine);
        self.last_error = None;
        count_to_field(count)
    }

    /// After a group enqueue (album, folder, artist, playlist): a failed
    /// lookup says the group is gone and adds nothing.
    pub fn group_enqueued(
        &mut self,
        outcome: Result<usize, ()>,
        gone: Gone,
        engine: EngineView,
    ) -> (added: i32)
        ensures
            match outcome {
                Ok(n) => added == count_field(n as nat) && final(self).last_error is None
                    && row_views(final(self).rows@) == rows_of(engine.items@, engine.cursor),
                Err(()) => added == 0 && final(self).last_error is Some
                    && final(self).last_error->0@ == gone_text(gone) && final(self).rows == old(
                    self,
                ).rows,
            },
            final(self).engine == Some(engine),
            final(self).settings == old(self).settings,
    {
        match outcome {
            Ok(n) => self.enqueued(n, engine),
            Err(()) => {
                self.last_error = Some(gone_message(gone));
                self.engine = Some(engine);
                0
            },
        }
    }

    /// The track a by-id entry point adds: the index could not be opened
    /// (`Err`, telling whether the library is missing), or the lookup's
    /// outcome. Anything not playable leaves its reason on the error line.
    fn track_to_add(&mut self, opened: Result<TrackLookup, bool>) -> (item: Option<QueueItem>)
        ensures
            match opened {
                Err(library_missing) => item is None && final(self).last_error is Some
                    && final(self).last_error->0@ == open_index_message(library_missing),
                Ok(TrackLookup::Playable(it)) => item == Some(it) && final(self).last_error == old(
                    self,
                ).last_error,
                Ok(lookup) => item is None && final(self).last_error is Some && lookup_message(
                    lookup,
                ) == Some(final(self).last_error->0@),
            },
            final(self).rows == old(self).rows,
            final(self).engine == old(self).engine,
            final(self).settings == old(self).settings,
    {
        match opened {
            Err(library_missing) => {
                self.open_index_failed(library_missing);
                None
            },
            Ok(lookup) => self.resolve_track(lookup),
        }
    }

    /// Enqueue one library track: the item to append to the engine's queue
    /// (then report with `enqueued`), or none with the reason surfaced.
    pub fn enqueue_track(&mut self, opened: Result<TrackLookup, bool>) -> (item: Option<QueueItem>)
        ensures
            match opened {
                Err(library_missing) => item is None && final(self).last_error is Some
                    && final(self).last_error->0@ == open_index_message(library_missing),
                Ok(TrackLookup::Playable(it)) => item == Some(it) && final(self).last_error == old(
                    self,
                ).last_error,
                Ok(lookup) => item is None && final(self).last_error is Some && lookup_message(
                    lookup,
                ) == Some(final(self).last_error->0@),
            },
            final(self).rows == old(self).rows,
            final(self).engine == old(self).engine,
            final(self).settings == old(self).settings,
    {
        self.track_to_add(opened)
    }

    /// Insert one library track to play next: the item to place right after
    /// the cursor, or none with the reason surfaced.
    pub fn play_track_next(&mut self, opened: Result<TrackLookup, bool>) -> (item: Option<QueueItem>)
        ensures
            match opened {
                Err(library_missing) => item is None && final(self).last_error is Some
                    && final(self).last_error->0@ == open_index_message(library_missing),
                Ok(TrackLookup::Playable(it)) => item == Some(it) && final(self).last_error == old(
                    self,
                ).last_error,
                Ok(lookup) => item is None && final(self).last_error is Some && lookup_message(
                    lookup,
                ) == Some(final(self).last_error->0@),
            },
            final(self).rows == old(self).rows,
            final(self).engine == old(self).engine,
            final(self).settings == old(self).settings,
    {
        self.track_to_add(opened)
    }

    /// Play one library track now: the item to start (then report with
    /// `transport_finished`), or none with the reason surfaced and the queue
    /// untouched.
    pub fn play_track_now(&mut self, opened: Result<TrackLookup, bool>) -> (item: Option<QueueItem>)
        ensures
            match opened {
                Err(library_missing) => item is None && final(self).last_error is Some
                    && final(self).last_error->0@ == open_index_message(library_missing),
                Ok(TrackLookup::Playable(it)) => item == Some(it) && final(self).last_error == old(
                    self,
                ).last_error,
                Ok(lookup) => item is None && final(self).last_error is Some && lookup_message(
                    lookup,
                ) == Some(final(self).last_error->0@),
            },
            final(self).rows == old(self).rows,
            final(self).engine == old(self).engine,
            final(self).settings == old(self).settings,
    {
        self.track_to_add(opened)
    }

    /// Enqueue one album in disc/track order, given whether the index
    /// opened (`Err` tells whether the library is missing) and how the
    /// album's enqueue went. Returns the number enqueued.
    pub fn enqueue_album(
        &mut self,
        opened: Result<Result<usize, ()>, bool>,
        engine: EngineView,
    ) -> (added: i32)
        ensures
            match opened {
                Err(library_missing) => added == 0 && final(self).last_error is Some
                    && final(self).last_error->0@ == open_index_message(library_missing)
                    && final(self).rows == old(self).rows,
                Ok(Ok(n)) => added == count_field(n as nat) && final(self).last_error is None
                    && row_views(final(self).rows@) == rows_of(engine.items@, engine.cursor),
                Ok(Err(())) => added == 0 && final(self).last_error is Some
                    && final(self).last_error->0@ == "That album is no longer in the library."@
                    && final(self).rows == old(self).rows,
            },
            final(self).settings == old(self).settings,
    {
        match opened {
            Err(library_missing) => {
                self.open_index_failed(library_missing);
                0
            },
            Ok(outcome) => self.group_enqueued(outcome, Gone::Album, engine),
        }
    }

    /// A Play-all list that yielded nothing playable.
    pub fn nothing_playable(&mut self)
        ensures
            final(self).last_error is Some,
            final(self).last_error->0@ == "Nothing playable in that list."@,
            final(self).rows == old(self).rows,
            final(self).published == old(self).published,
            final(self).engine == old(self).engine,
            final(self).settings == old(self).settings,
    {
        self.last_error = Some(string_of(chars_of("Nothing playable in that list.").as_slice()));
    }

    /// The entries of a playlist to enqueue, in order: dangling entries,
    /// missing files, and paths that cannot play are skipped.
    pub fn enqueue_playlist(entries: Vec<PlaylistEntry>) -> (items: Vec<QueueItem>)
        ensures
            items@ == playable_entries(entries@),
    {
        let mut out: Vec<QueueItem> = Vec::new();
        let mut i: usize = 0;
        while i < entries.len()
            invariant
                i <= entries@.len(),
                out@ == playable_entries(entries@.take(i as int)),
            decreases entries@.len() - i,
        {
            assert(entries@.take(i + 1).drop_last() =~= entries@.take(i as int));
            match &entries[i] {
                PlaylistEntry::Playable(item) => out.push(item.duplicate()),
                _ => {},
            }
            i = i + 1;
        }
        assert(entries@.take(entries@.len() as int) =~= entries@);
        out
    }

    /// Where a block of `count` entries inserted at `position` lands in a
    /// queue of `len`: the position clamped to the end, then consecutive
    /// slots, preserving list order.
    pub fn enqueue_track_ids_at(position: usize, len: usize, count: usize) -> (slots: Vec<usize>)
        requires
            len + count <= usize::MAX,
        ensures
            slots@.len() == count,
            forall|k: int| 0 <= k < count ==> #[trigger] slots@[k] == (if position < len {
                position
            } else {
                len
            }) + k,
    {
        let at = if position < len {
            position
        } else {
            len
        };
        let mut slots: Vec<usize> = Vec::new();
        let mut k: usize = 0;
        while k < count
            invariant
                k <= count,
                at <= len,
                len + count <= usize::MAX,
                slots@.len() == k,
                forall|j: int| 0 <= j < k ==> #[trigger] slots@[j] == at + j,
            decreases count - k,
        {
            slots.push(at + k);
            k = k + 1;
        }
        slots
    }

    /// What the bus may ask right now: next when the queue has entries and
    /// either repeats or has one after the cursor; previous with a cursor;
    /// play always; pause while playing or paused; seek with a known,
    /// positive length. Nothing without an engine.
    pub fn mpris_capabilities(&self) -> (caps: MprisCapabilities)
        ensures
            match self.engine {
                None => caps == MprisCapabilities {
                    next: false,
                    previous: false,
                    play: false,
                    pause: false,
                    seek: false,
                },
                Some(e) => caps == MprisCapabilities {
                    next: e.items@.len() > 0 && (e.repeat == RepeatMode::All || match e.cursor {
                        Some(c) => c + 1 < e.items@.len(),
                        None => false,
                    }),
                    previous: e.cursor is Some,
                    play: true,
                    pause: e.state == PlaybackState::Playing || e.state == PlaybackState::Paused,
                    seek: match e.duration_ms {
                        Some(d) => d > 0,
                        None => false,
                    },
                },
            },
    {
        match &self.engine {
            None => MprisCapabilities {
                next: false,
                previous: false,
                play: false,
                pause: false,
                seek: false,
            },
            Some(e) => {
                let len = e.items.len();
                let after = match e.cursor {
                    Some(c) => c < len && len - c > 1,
                    None => false,
                };
                MprisCapabilities {
                    next: len > 0 && (e.repeat == RepeatMode::All || after),
                    previous: e.cursor.is_some(),
                    play: true,
                    pause: e.state == PlaybackState::Playing || e.state == PlaybackState::Paused,
                    seek: match e.duration_ms {
                        Some(d) => d > 0,
                        None => false,
                    },
                }
            },
        }
    }
}

/// A relative seek's target in whole milliseconds: position plus offset,
/// saturated to the `i64` range, negative counting as zero, capped at
/// `i32::MAX`.
pub open spec fn seek_target_ms(position_us: int, offset_us: int) -> int {
    let sum = position_us + offset_us;
    let sat = if sum > i64::MAX {
        i64::MAX as int
    } else if sum < i64::MIN {
        i64::MIN as int
    } else {
        sum
    };
    if sat <= 0 {
        0
    } else if sat / 1000 <= i32::MAX {
        sat / 1000
    } else {
        i32::MAX as int
    }
}

/// Relative bus seek: the current position (0 when unknown) plus the offset,
/// saturating, then to whole milliseconds the way engine seeks take them.
pub fn mpris_seek_target(position_us: i64, offset_us: i64) -> (ms: i32)
    ensures
        ms == seek_target_ms(position_us as int, offset_us as int),
{
    let wide: i128 = position_us as i128 + offset_us as i128;
    let sum: i64 = if wide > 0x7fff_ffff_ffff_ffffi128 {
        i64::MAX
    } else if wide < -0x8000_0000_0000_0000i128 {
        i64::MIN
    } else {
        wide as i64
    };
    crate::playback::us_to_ms_saturating(sum)
}

/// An optional text's characters.
pub open spec fn opt_string_view(s: Option<String>) -> Option<Seq<char>> {
    match s {
        Some(t) => Some(t@),
        None => None,
    }
}

} // verus!
