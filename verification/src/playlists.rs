//! Playlists: the sidebar list and the detail list of one playlist.
//!
//! The index calls (open, list, create, add, remove, move) belong to the
//! shell; it reports each outcome here, in order, and these rules decide
//! what the rows become, what the error line says, and what the views
//! receive. A missing index is an honest empty state, never a crash.

use vstd::prelude::*;
use crate::browse::{
    RoleValue, count_i32, fit_or_zero, len_to_i32, row_position, row_to_position, sat_i32,
    text_or, text_or_fallback, to_i32_or_zero, to_i32_saturating,
};
use crate::config::views;
use crate::error::{Error, message_spec};
use crate::naming::{first_free_name, is_first_free};
use crate::text::{chars_of, same_chars, string_of};

verus! {

/// What reading the index gave.
#[derive(Debug)]
pub enum IndexRead<T> {
    /// There is no index file yet (no library).
    NoIndex,
    /// The index could not be opened or queried.
    Unreadable,
    /// What the query returned.
    Read(T),
}

/// Error line when writing needs a library that is not there.
pub open spec fn empty_library_text() -> Seq<char> {
    "Your library is empty — add a music folder first."@
}

/// Error line when the index cannot be read.
pub open spec fn unreadable_text() -> Seq<char> {
    "The music library cannot be read."@
}

/// A backend error as users read it: the message without the
/// `database error: ` lead the core adds.
pub open spec fn friendly_text(e: Error) -> Seq<char> {
    let m = message_spec(e);
    let lead = "database error: "@;
    if m.len() >= lead.len() && m.take(lead.len() as int) == lead {
        m.skip(lead.len() as int)
    } else {
        m
    }
}

/// A backend error as users read it.
pub fn friendly_error(e: &Error) -> (text: String)
    ensures
        text@ == friendly_text(*e),
{
    let m = chars_of(e.message().as_str());
    let lead = chars_of("database error: ");
    if m.len() >= lead.len() {
        let mut head: Vec<char> = Vec::new();
        let mut i: usize = 0;
        while i < lead.len()
            invariant
                i <= lead@.len(),
                lead@.len() <= m@.len(),
                head@ == m@.take(i as int),
            decreases lead@.len() - i,
        {
            head.push(m[i]);
            assert(head@ =~= m@.take(i + 1));
            i = i + 1;
        }
        if same_chars(head.as_slice(), lead.as_slice()) {
            let mut rest: Vec<char> = Vec::new();
            let mut j: usize = lead.len();
            while j < m.len()
                invariant
                    lead@.len() <= j <= m@.len(),
                    rest@ == m@.subrange(lead@.len() as int, j as int),
                decreases m@.len() - j,
            {
                rest.push(m[j]);
                assert(rest@ =~= m@.subrange(lead@.len() as int, j + 1));
                j = j + 1;
            }
            assert(rest@ =~= m@.skip(lead@.len() as int));
            return string_of(rest.as_slice());
        }
    }
    string_of(m.as_slice())
}

/// How looking up a track before adding it went.
#[derive(Clone, Copy, Debug, PartialEq, Eq, Structural)]
pub enum TrackFound {
    /// The lookup failed.
    LookupFailed,
    /// No row with that id.
    Absent,
    /// The row's file is gone from disk.
    Missing,
    /// The track can be added.
    Present,
}

/// Why a track cannot be added, if it cannot.
pub open spec fn refusal_text(found: TrackFound) -> Option<Seq<char>> {
    match found {
        TrackFound::LookupFailed => Some("That track is no longer in the library."@),
        TrackFound::Absent => Some("That track is no longer in the library."@),
        TrackFound::Missing => Some("That file is missing from disk."@),
        TrackFound::Present => None,
    }
}

fn refusal(found: TrackFound) -> (text: Option<String>)
    ensures
        match text {
            Some(t) => refusal_text(found) == Some(t@),
            None => refusal_text(found) is None,
        },
{
    let t = match found {
        TrackFound::LookupFailed => "That track is no longer in the library.",
        TrackFound::Absent => "That track is no longer in the library.",
        TrackFound::Missing => "That file is missing from disk.",
        TrackFound::Present => return None,
    };
    Some(string_of(chars_of(t).as_slice()))
}

/// The error line after an index-open failure while writing.
pub open spec fn write_block_text(read: IndexRead<()>) -> Option<Seq<char>> {
    match read {
        IndexRead::NoIndex => Some(empty_library_text()),
        IndexRead::Unreadable => Some(unreadable_text()),
        IndexRead::Read(()) => None,
    }
}

fn write_block(read: IndexRead<()>) -> (text: Option<String>)
    ensures
        match text {
            Some(t) => write_block_text(read) == Some(t@),
            None => write_block_text(read) is None,
        },
{
    match read {
        IndexRead::NoIndex => Some(
            string_of(chars_of("Your library is empty — add a music folder first.").as_slice()),
        ),
        IndexRead::Unreadable => Some(
            string_of(chars_of("The music library cannot be read.").as_slice()),
        ),
        IndexRead::Read(()) => None,
    }
}

// ---------------------------------------------------------------------
// The sidebar list
// ---------------------------------------------------------------------

/// A playlist as the index lists it.
#[derive(Clone, Debug)]
pub struct PlaylistSummary {
    pub id: i64,
    pub name: String,
    pub track_count: i64,
}

/// A sidebar row: id (drill key), name, entry count.
#[derive(Clone, Debug)]
pub struct PlaylistRow {
    pub playlist_id: i32,
    pub name: String,
    pub track_count: i32,
}

/// The row of one listed playlist.
pub open spec fn playlist_row_spec(p: PlaylistSummary, r: PlaylistRow) -> bool {
    &&& r.playlist_id == sat_i32(p.id as int)
    &&& r.name@ == p.name@
    &&& r.track_count == sat_i32(p.track_count as int)
}

/// Role numbers of the sidebar.
pub const PLAYLIST_ID: i32 = 0;
pub const PLAYLIST_NAME: i32 = 1;
pub const PLAYLIST_TRACK_COUNT: i32 = 2;

/// The base of auto-created playlist names.
pub open spec fn auto_name_base() -> Seq<char> {
    "New playlist"@
}

/// Name for an auto-created playlist: `New playlist`, else `New playlist
/// 2`, `New playlist 3`, … whichever comes first and is not taken.
pub fn auto_playlist_name(existing: &Vec<String>) -> (name: String)
    requires
        existing@.len() < i32::MAX,
    ensures
        is_first_free(auto_name_base(), ' ', views(existing@), name@),
{
    first_free_name("New playlist", ' ', existing)
}

/// Playlist sidebar rows.
pub struct PlaylistModel {
    pub playlists: Vec<PlaylistRow>,
    pub index_path: String,
    pub last_error: Option<String>,
}

impl PlaylistModel {
    /// No rows over the index at `index_path`.
    pub fn new(index_path: String) -> (m: Self)
        ensures
            m.playlists@.len() == 0,
            m.index_path == index_path,
            m.last_error is None,
    {
        PlaylistModel { playlists: Vec::new(), index_path, last_error: None }
    }

    /// Drop all rows.
    pub fn drop_rows(&mut self)
        ensures
            final(self).playlists@.len() == 0,
            final(self).last_error == old(self).last_error,
    {
        self.playlists.clear();
    }

    /// Current row count.
    pub fn row_count(&self) -> (n: i32)
        ensures
            n == count_i32(self.playlists@.len()),
    {
        len_to_i32(self.playlists.len())
    }

    /// Playlist name at `row` (empty when out of range).
    pub fn playlist_name_at(&self, row: i32) -> (name: String)
        ensures
            name@ == if 0 <= row < self.playlists@.len() {
                self.playlists@[row as int].name@
            } else {
                Seq::empty()
            },
    {
        if row >= 0 && (row as usize) < self.playlists.len() {
            self.playlists[row as usize].name.clone()
        } else {
            String::new()
        }
    }

    /// Playlist id at `row` (-1 when out of range).
    pub fn playlist_id_at(&self, row: i32) -> (id: i32)
        ensures
            id == if 0 <= row < self.playlists@.len() {
                self.playlists@[row as int].playlist_id
            } else {
                -1i32
            },
    {
        if row >= 0 && (row as usize) < self.playlists.len() {
            self.playlists[row as usize].playlist_id
        } else {
            -1
        }
    }

    /// Data for one row and role; invalid out of range or for an unknown
    /// role.
    pub fn row_data(&self, row: usize, repr: i32) -> (v: RoleValue)
        ensures
            v == if row < self.playlists@.len() {
                let p = self.playlists@[row as int];
                if repr == PLAYLIST_ID {
                    RoleValue::Int(p.playlist_id)
                } else if repr == PLAYLIST_NAME {
                    RoleValue::Text(p.name)
                } else if repr == PLAYLIST_TRACK_COUNT {
                    RoleValue::Int(p.track_count)
                } else {
                    RoleValue::Invalid
                }
            } else {
                RoleValue::Invalid
            },
    {
        if row >= self.playlists.len() {
            return RoleValue::Invalid;
        }
        let p = &self.playlists[row];
        if repr == PLAYLIST_ID {
            RoleValue::Int(p.playlist_id)
        } else if repr == PLAYLIST_NAME {
            RoleValue::Text(p.name.clone())
        } else if repr == PLAYLIST_TRACK_COUNT {
            RoleValue::Int(p.track_count)
        } else {
            RoleValue::Invalid
        }
    }

    /// Reload rows from what the index listed: no index is the empty state
    /// (true, no error); an unreadable index clears the rows and says so
    /// (false); a listing replaces the rows in order and clears the error.
    pub fn refresh_rows(&mut self, listed: IndexRead<Vec<PlaylistSummary>>) -> (ok: bool)
        ensures
            match listed {
                IndexRead::NoIndex => ok && final(self).playlists@.len() == 0
                    && final(self).last_error is None,
                IndexRead::Unreadable => !ok && final(self).playlists@.len() == 0
                    && final(self).last_error is Some && final(self).last_error->0@
                    == unreadable_text(),
                IndexRead::Read(found) => ok && final(self).last_error is None
                    && final(self).playlists@.len() == found@.len() && forall|k: int|
                    0 <= k < found@.len() ==> playlist_row_spec(
                        found@[k],
                        #[trigger] final(self).playlists@[k],
                    ),
            },
            final(self).index_path == old(self).index_path,
    {
        match listed {
            IndexRead::NoIndex => {
                self.playlists.clear();
                self.last_error = None;
                true
            },
            IndexRead::Unreadable => {
                self.playlists.clear();
                self.last_error = Some(
                    string_of(chars_of("The music library cannot be read.").as_slice()),
                );
                false
            },
            IndexRead::Read(found) => {
                let mut rows: Vec<PlaylistRow> = Vec::new();
                let mut i: usize = 0;
                while i < found.len()
                    invariant
                        i <= found@.len(),
                        rows@.len() == i,
                        forall|k: int|
                            0 <= k < i ==> playlist_row_spec(found@[k], #[trigger] rows@[k]),
                    decreases found@.len() - i,
                {
                    let p = &found[i];
                    rows.push(
                        PlaylistRow {
                            playlist_id: to_i32_saturating(p.id),
                            name: p.name.clone(),
                            track_count: to_i32_saturating(p.track_count),
                        },
                    );
                    i = i + 1;
                }
                self.playlists = rows;
                self.last_error = None;
                true
            },
        }
    }

    /// Open the index for a change: a missing or unreadable index blocks it
    /// with the reason on the error line. Returns whether to go on.
    pub fn open_writable(&mut self, read: IndexRead<()>) -> (go: bool)
        ensures
            go == write_block_text(read) is None,
            !go ==> final(self).last_error is Some && write_block_text(read) == Some(
                final(self).last_error->0@,
            ),
            go ==> final(self).last_error == old(self).last_error,
            final(self).playlists == old(self).playlists,
    {
        match write_block(read) {
            Some(t) => {
                self.last_error = Some(t);
                false
            },
            None => true,
        }
    }

    /// After a create (plain, auto-named, or smart): the new id for the
    /// views (saturating), or -1 with the backend's reason surfaced. The
    /// shell refreshes the rows after a success.
    pub fn created(&mut self, outcome: Result<i64, Error>) -> (id: i32)
        ensures
            match outcome {
                Ok(n) => id == sat_i32(n as int) && final(self).last_error == old(self).last_error,
                Err(e) => id == -1 && final(self).last_error is Some && final(self).last_error->0@
                    == friendly_text(e),
            },
            final(self).playlists == old(self).playlists,
    {
        match outcome {
            Ok(n) => to_i32_saturating(n),
            Err(e) => {
                self.last_error = Some(friendly_error(&e));
                -1
            },
        }
    }

    /// After a rename or delete: a failure surfaces the backend's reason
    /// (the shell refreshes the rows after a success).
    pub fn edit_failed(&mut self, e: &Error)
        ensures
            final(self).last_error is Some,
            final(self).last_error->0@ == friendly_text(*e),
            final(self).playlists == old(self).playlists,
    {
        self.last_error = Some(friendly_error(e));
    }

    /// Whether a playlist rebuilds from a stored rule: only when the index
    /// read and found one.
    pub fn is_smart(&self, rule_found: IndexRead<bool>) -> (b: bool)
        ensures
            b == (rule_found matches IndexRead::Read(found) && found),
    {
        match rule_found {
            IndexRead::Read(found) => found,
            _ => false,
        }
    }

    /// Before adding a track: refuse a missing file or a track gone from the
    /// library, with the reason surfaced. Returns whether to add.
    pub fn check_track(&mut self, found: TrackFound) -> (go: bool)
        ensures
            go == (found == TrackFound::Present),
            !go ==> final(self).last_error is Some && refusal_text(found) == Some(
                final(self).last_error->0@,
            ),
            go ==> final(self).last_error == old(self).last_error,
            final(self).playlists == old(self).playlists,
    {
        match refusal(found) {
            Some(t) => {
                self.last_error = Some(t);
                false
            },
            None => true,
        }
    }

    /// After adding a track: 1 and a clear error line, or 0 with the
    /// backend's reason (the shell refreshes the rows after a success).
    pub fn track_added(&mut self, outcome: Result<(), Error>) -> (added: i32)
        ensures
            match outcome {
                Ok(()) => added == 1 && final(self).last_error is None,
                Err(e) => added == 0 && final(self).last_error is Some
                    && final(self).last_error->0@ == friendly_text(e),
            },
            final(self).playlists == old(self).playlists,
    {
        match outcome {
            Ok(()) => {
                self.last_error = None;
                1
            },
            Err(e) => {
                self.last_error = Some(friendly_error(&e));
                0
            },
        }
    }

    /// Last failure, if any (cleared by the next success).
    pub fn error_message(&self) -> (m: Option<String>)
        ensures
            m == self.last_error,
    {
        match &self.last_error {
            Some(t) => Some(t.clone()),
            None => None,
        }
    }

    /// Re-read the active profile index: point at `index_path`.
    pub fn reload_index(&mut self, index_path: String)
        ensures
            final(self).index_path == index_path,
            final(self).playlists == old(self).playlists,
            final(self).last_error == old(self).last_error,
    {
        self.index_path = index_path;
    }
}

// ---------------------------------------------------------------------
// One playlist's entries
// ---------------------------------------------------------------------

/// A resolved entry's track.
#[derive(Clone, Debug)]
pub struct EntryTrack {
    pub title: Option<String>,
    pub artist: Option<String>,
    pub duration_ms: Option<i64>,
    pub missing: bool,
}

/// One playlist entry as the index lists it; `track` is `None` when the
/// track row was deleted (a dangling entry).
#[derive(Clone, Debug)]
pub struct EntryListing {
    pub id: i64,
    pub track_id: i64,
    pub track: Option<EntryTrack>,
}

/// A detail row: entry and track identity, display data, state flags.
#[derive(Clone, Debug)]
pub struct EntryRow {
    pub entry_id: i32,
    pub track_id: i32,
    pub title: String,
    pub artist: String,
    pub duration_ms: i32,
    pub missing: bool,
    pub dangling: bool,
}

/// The display row of one entry: a resolved track shows its tags
/// (unknowns named), a dangling entry an honest placeholder.
pub open spec fn display_entry_spec(e: EntryListing, r: EntryRow) -> bool {
    &&& r.entry_id == sat_i32(e.id as int)
    &&& r.track_id == sat_i32(e.track_id as int)
    &&& match e.track {
        Some(t) => {
            &&& r.title@ == text_or(t.title, "Unknown Title"@)
            &&& r.artist@ == text_or(t.artist, "Unknown Artist"@)
            &&& r.duration_ms == fit_or_zero(t.duration_ms)
            &&& r.missing == t.missing
            &&& !r.dangling
        },
        None => {
            &&& r.title@ == "Unavailable track"@
            &&& r.artist@ == "Removed from library"@
            &&& r.duration_ms == 0
            &&& !r.missing
            &&& r.dangling
        },
    }
}

/// Display row of one playlist entry.
pub fn display_entry(e: &EntryListing) -> (r: EntryRow)
    ensures
        display_entry_spec(*e, r),
{
    let entry_id = to_i32_saturating(e.id);
    let track_id = to_i32_saturating(e.track_id);
    match &e.track {
        Some(t) => EntryRow {
            entry_id,
            track_id,
            title: text_or_fallback(&t.title, "Unknown Title"),
            artist: text_or_fallback(&t.artist, "Unknown Artist"),
            duration_ms: to_i32_or_zero(t.duration_ms),
            missing: t.missing,
            dangling: false,
        },
        None => EntryRow {
            entry_id,
            track_id,
            title: string_of(chars_of("Unavailable track").as_slice()),
            artist: string_of(chars_of("Removed from library").as_slice()),
            duration_ms: 0,
            missing: false,
            dangling: true,
        },
    }
}

/// Role numbers of the detail list.
pub const ENTRY_ID: i32 = 0;
pub const ENTRY_TRACK_ID: i32 = 1;
pub const ENTRY_TITLE: i32 = 2;
pub const ENTRY_ARTIST: i32 = 3;
pub const ENTRY_DURATION_MS: i32 = 4;
pub const ENTRY_MISSING: i32 = 5;
pub const ENTRY_DANGLING: i32 = 6;

/// What a detail role reads.
pub open spec fn entry_value(r: EntryRow, repr: i32) -> RoleValue {
    if repr == ENTRY_ID {
        RoleValue::Int(r.entry_id)
    } else if repr == ENTRY_TRACK_ID {
        RoleValue::Int(r.track_id)
    } else if repr == ENTRY_TITLE {
        RoleValue::Text(r.title)
    } else if repr == ENTRY_ARTIST {
        RoleValue::Text(r.artist)
    } else if repr == ENTRY_DURATION_MS {
        RoleValue::Int(r.duration_ms)
    } else if repr == ENTRY_MISSING {
        RoleValue::Flag(r.missing)
    } else if repr == ENTRY_DANGLING {
        RoleValue::Flag(r.dangling)
    } else {
        RoleValue::Invalid
    }
}

/// How listing one playlist's entries went.
#[derive(Debug)]
pub enum EntriesRead {
    /// There is no index file yet.
    NoIndex,
    /// The index could not be opened.
    Unreadable,
    /// The playlist is not in the index any more.
    PlaylistGone,
    /// The entries in play order.
    Entries(Vec<EntryListing>),
}

/// The detail list of one playlist.
pub struct PlaylistTrackModel {
    pub entries: Vec<EntryRow>,
    pub index_path: String,
    pub playlist_id: Option<i64>,
    pub last_error: Option<String>,
}

impl PlaylistTrackModel {
    /// No rows, no playlist open, over the index at `index_path`.
    pub fn new(index_path: String) -> (m: Self)
        ensures
            m.entries@.len() == 0,
            m.index_path == index_path,
            m.playlist_id is None,
            m.last_error is None,
    {
        PlaylistTrackModel { entries: Vec::new(), index_path, playlist_id: None, last_error: None }
    }

    /// Drop all rows.
    pub fn drop_rows(&mut self)
        ensures
            final(self).entries@.len() == 0,
            final(self).playlist_id == old(self).playlist_id,
    {
        self.entries.clear();
    }

    /// Current row count.
    pub fn row_count(&self) -> (n: i32)
        ensures
            n == count_i32(self.entries@.len()),
    {
        len_to_i32(self.entries.len())
    }

    /// Data for one row and role; invalid out of range or for an unknown
    /// role.
    pub fn row_data(&self, row: usize, repr: i32) -> (v: RoleValue)
        ensures
            v == if row < self.entries@.len() {
                entry_value(self.entries@[row as int], repr)
            } else {
                RoleValue::Invalid
            },
    {
        if row >= self.entries.len() {
            return RoleValue::Invalid;
        }
        let e = &self.entries[row];
        if repr == ENTRY_ID {
            RoleValue::Int(e.entry_id)
        } else if repr == ENTRY_TRACK_ID {
            RoleValue::Int(e.track_id)
        } else if repr == ENTRY_TITLE {
            RoleValue::Text(e.title.clone())
        } else if repr == ENTRY_ARTIST {
            RoleValue::Text(e.artist.clone())
        } else if repr == ENTRY_DURATION_MS {
            RoleValue::Int(e.duration_ms)
        } else if repr == ENTRY_MISSING {
            RoleValue::Flag(e.missing)
        } else if repr == ENTRY_DANGLING {
            RoleValue::Flag(e.dangling)
        } else {
            RoleValue::Invalid
        }
    }

    /// Load one playlist's entries in play order (dangling entries become
    /// placeholder rows, never dropped). A missing index, an unreadable one,
    /// or a playlist that is gone loads zero rows with the reason surfaced.
    pub fn refresh_rows(&mut self, playlist_id: i64, listed: EntriesRead) -> (ok: bool)
        ensures
            final(self).playlist_id == Some(playlist_id),
            match listed {
                EntriesRead::NoIndex => !ok && final(self).entries@.len() == 0
                    && final(self).last_error is Some && final(self).last_error->0@
                    == empty_library_text(),
                EntriesRead::Unreadable => !ok && final(self).entries@.len() == 0
                    && final(self).last_error is Some && final(self).last_error->0@
                    == unreadable_text(),
                EntriesRead::PlaylistGone => !ok && final(self).entries@.len() == 0
                    && final(self).last_error is Some && final(self).last_error->0@
                    == "That playlist is no longer in the library."@,
                EntriesRead::Entries(found) => ok && final(self).last_error is None
                    && final(self).entries@.len() == found@.len() && forall|k: int|
                    0 <= k < found@.len() ==> display_entry_spec(
                        found@[k],
                        #[trigger] final(self).entries@[k],
                    ),
            },
            final(self).index_path == old(self).index_path,
    {
        self.playlist_id = Some(playlist_id);
        let text = match listed {
            EntriesRead::NoIndex => "Your library is empty — add a music folder first.",
            EntriesRead::Unreadable => "The music library cannot be read.",
            EntriesRead::PlaylistGone => "That playlist is no longer in the library.",
            EntriesRead::Entries(found) => {
                let mut rows: Vec<EntryRow> = Vec::new();
                let mut i: usize = 0;
                while i < found.len()
                    invariant
                        i <= found@.len(),
                        rows@.len() == i,
                        forall|k: int|
                            0 <= k < i ==> display_entry_spec(found@[k], #[trigger] rows@[k]),
                    decreases found@.len() - i,
                {
                    rows.push(display_entry(&found[i]));
                    i = i + 1;
                }
                self.entries = rows;
                self.last_error = None;
                return true;
            },
        };
        self.entries.clear();
        self.last_error = Some(string_of(chars_of(text).as_slice()));
        false
    }

    /// Entry id at a display position, if any.
    pub fn entry_at(&self, position: usize) -> (id: Option<i64>)
        ensures
            id == if position < self.entries@.len() {
                Some(self.entries@[position as int].entry_id as i64)
            } else {
                None
            },
    {
        if position < self.entries.len() {
            Some(self.entries[position].entry_id as i64)
        } else {
            None
        }
    }

    /// The (playlist, entry) a remove or move at `position` acts on: none
    /// without an open playlist or out of range.
    pub fn edit_target(&self, position: usize) -> (target: Option<(i64, i64)>)
        ensures
            target == match self.playlist_id {
                Some(p) => if position < self.entries@.len() {
                    Some((p, self.entries@[position as int].entry_id as i64))
                } else {
                    None
                },
                None => None,
            },
    {
        match self.playlist_id {
            Some(p) => match self.entry_at(position) {
                Some(e) => Some((p, e)),
                None => None,
            },
            None => None,
        }
    }

    /// A remove or move could not be carried out: surface why (an
    /// unreadable index, or the backend's reason). The shell refreshes the
    /// rows after a success.
    pub fn edit_failed(&mut self, outcome: IndexRead<Error>)
        ensures
            match outcome {
                IndexRead::Read(e) => final(self).last_error is Some && final(self).last_error->0@
                    == friendly_text(e),
                _ => final(self).last_error is Some && final(self).last_error->0@
                    == unreadable_text(),
            },
            final(self).entries == old(self).entries,
            final(self).playlist_id == old(self).playlist_id,
    {
        match outcome {
            IndexRead::Read(e) => {
                self.last_error = Some(friendly_error(&e));
            },
            _ => {
                self.last_error = Some(
                    string_of(chars_of("The music library cannot be read.").as_slice()),
                );
            },
        }
    }

    /// Before adding a track to the open playlist: none open, an unreadable
    /// index, a lookup that failed, a track gone, or a missing file refuses
    /// with the reason surfaced. Returns the playlist to add to.
    pub fn add_target(&mut self, opened: bool, found: TrackFound) -> (target: Option<i64>)
        ensures
            match old(self).playlist_id {
                None => target is None && final(self).last_error is Some
                    && final(self).last_error->0@ == "Open a playlist first."@,
                Some(p) => if !opened {
                    target is None && final(self).last_error is Some && final(self).last_error->0@
                        == unreadable_text()
                } else if found != TrackFound::Present {
                    target is None && final(self).last_error is Some && refusal_text(found) == Some(
                        final(self).last_error->0@,
                    )
                } else {
                    target == Some(p) && final(self).last_error == old(self).last_error
                },
            },
            final(self).entries == old(self).entries,
            final(self).playlist_id == old(self).playlist_id,
    {
        let p = match self.playlist_id {
            None => {
                self.last_error = Some(string_of(chars_of("Open a playlist first.").as_slice()));
                return None;
            },
            Some(p) => p,
        };
        if !opened {
            self.last_error = Some(
                string_of(chars_of("The music library cannot be read.").as_slice()),
            );
            return None;
        }
        match refusal(found) {
            Some(t) => {
                self.last_error = Some(t);
                None
            },
            None => Some(p),
        }
    }

    /// After adding a track: 1 and a clear error line, or 0 with why (an
    /// unreadable index, or the backend's reason). The shell refreshes the
    /// rows after a success.
    pub fn track_added(&mut self, outcome: Result<(), IndexRead<Error>>) -> (added: i32)
        ensures
            match outcome {
                Ok(()) => added == 1 && final(self).last_error is None,
                Err(IndexRead::Read(e)) => added == 0 && final(self).last_error is Some
                    && final(self).last_error->0@ == friendly_text(e),
                Err(_) => added == 0 && final(self).last_error is Some
                    && final(self).last_error->0@ == unreadable_text(),
            },
            final(self).entries == old(self).entries,
    {
        match outcome {
            Ok(()) => {
                self.last_error = None;
                1
            },
            Err(why) => {
                self.edit_failed(why);
                0
            },
        }
    }

    /// Whether the row at `row` can play: present, resolved, and on disk.
    pub fn is_playable_at(&self, row: i32) -> (b: bool)
        ensures
            b == (0 <= row < self.entries@.len() && !self.entries@[row as int].missing
                && !self.entries@[row as int].dangling),
    {
        if row >= 0 && (row as usize) < self.entries.len() {
            let e = &self.entries[row as usize];
            !e.missing && !e.dangling
        } else {
            false
        }
    }

    /// Entry id at `row` (-1 when out of range).
    pub fn entry_id_at(&self, row: i32) -> (id: i32)
        ensures
            id == if 0 <= row < self.entries@.len() {
                self.entries@[row as int].entry_id
            } else {
                -1i32
            },
    {
        if row >= 0 && (row as usize) < self.entries.len() {
            self.entries[row as usize].entry_id
        } else {
            -1
        }
    }

    /// Track id at `row` (-1 when out of range), for play-from-detail.
    pub fn track_id_at(&self, row: i32) -> (id: i32)
        ensures
            id == if 0 <= row < self.entries@.len() {
                self.entries@[row as int].track_id
            } else {
                -1i32
            },
    {
        if row >= 0 && (row as usize) < self.entries.len() {
            self.entries[row as usize].track_id
        } else {
            -1
        }
    }

    /// Last failure, if any (cleared by the next success).
    pub fn error_message(&self) -> (m: Option<String>)
        ensures
            m == self.last_error,
    {
        match &self.last_error {
            Some(t) => Some(t.clone()),
            None => None,
        }
    }

    /// Re-read the active profile index: point at `index_path`.
    pub fn reload_index(&mut self, index_path: String)
        ensures
            final(self).index_path == index_path,
            final(self).entries == old(self).entries,
            final(self).playlist_id == old(self).playlist_id,
    {
        self.index_path = index_path;
    }
}

/// A database failure reads as the backend's own message.
pub proof fn lemma_database_errors_read_plainly(m: String)
    ensures
        friendly_text(Error::Database(m)) == m@,
{
    let lead = "database error: "@;
    let full = message_spec(Error::Database(m));
    assert(full == lead + m@);
    assert(full.take(lead.len() as int) =~= lead);
    assert(full.skip(lead.len() as int) =~= m@);
}

} // verus!
