//! Browse row stores for the library views: what each row shows, what a
//! role reads, and how index rows become display rows. Loading rows from the
//! index belongs to the shell, which hands the rows over.

use vstd::prelude::*;
use crate::art::{ArtCore, ArtRequest, CachedArt};
use crate::search::SearchCore;
use crate::text::{chars_of, push_all, string_of};

verus! {

/// One value a role reads: what a QML delegate receives.
#[derive(Clone, Debug, PartialEq, Eq)]
pub enum RoleValue {
    /// Out of range, or a role the model does not have.
    Invalid,
    Int(i32),
    Text(String),
    Flag(bool),
}

/// A count or id as the views show it: itself when it fits `i32`, else
/// `i32::MAX`.
pub open spec fn sat_i32(n: int) -> i32 {
    if i32::MIN <= n <= i32::MAX {
        n as i32
    } else {
        i32::MAX
    }
}

/// Saturating `i64` to `i32` for counts and ids.
pub fn to_i32_saturating(n: i64) -> (r: i32)
    ensures
        r == sat_i32(n as int),
{
    if -0x8000_0000i64 <= n && n <= 0x7fff_ffffi64 {
        n as i32
    } else {
        i32::MAX
    }
}

/// An optional number as the views show it: itself when it fits `i32`,
/// else 0.
pub open spec fn fit_or_zero(n: Option<i64>) -> i32 {
    match n {
        Some(v) => if i32::MIN <= v <= i32::MAX {
            v as i32
        } else {
            0
        },
        None => 0,
    }
}

/// Optional `i64` to `i32`, 0 when absent or out of range.
pub fn to_i32_or_zero(n: Option<i64>) -> (r: i32)
    ensures
        r == fit_or_zero(n),
{
    match n {
        Some(v) => if -0x8000_0000i64 <= v && v <= 0x7fff_ffffi64 {
            v as i32
        } else {
            0
        },
        None => 0,
    }
}

/// An optional text, or `fallback` when absent.
pub open spec fn text_or(s: Option<String>, fallback: Seq<char>) -> Seq<char> {
    match s {
        Some(t) => t@,
        None => fallback,
    }
}

/// The text, or `fallback` when absent.
pub fn text_or_fallback(s: &Option<String>, fallback: &str) -> (r: String)
    ensures
        r@ == text_or(*s, fallback@),
{
    match s {
        Some(t) => t.clone(),
        None => string_of(chars_of(fallback).as_slice()),
    }
}

/// A row count as a QML `i32`.
pub open spec fn count_i32(n: nat) -> i32 {
    if n <= i32::MAX {
        n as i32
    } else {
        i32::MAX
    }
}

/// Row count to `i32`, saturating.
pub fn len_to_i32(n: usize) -> (r: i32)
    ensures
        r == count_i32(n as nat),
{
    if n <= 0x7fff_ffff {
        n as i32
    } else {
        i32::MAX
    }
}

/// A QML row index as a position: negative rows point past any list.
pub open spec fn row_position(row: i32) -> int {
    if row < 0 {
        usize::MAX as int
    } else {
        row as int
    }
}

/// QML row to `usize` (negative rows become `usize::MAX`, out of range).
pub fn row_to_position(row: i32) -> (at: usize)
    ensures
        at == row_position(row),
{
    if row < 0 {
        usize::MAX
    } else {
        row as usize
    }
}

// ---------------------------------------------------------------------
// Track list (in-memory rows: title and artist)
// ---------------------------------------------------------------------

/// Role number of the track-list title.
pub const TRACK_LIST_TITLE: i32 = 0;

/// Role number of the track-list artist.
pub const TRACK_LIST_ARTIST: i32 = 1;

/// A track-list role by number.
#[derive(Clone, Copy, Debug, PartialEq, Eq, Structural)]
pub struct TrackListRoles {
    pub repr: i32,
}

/// The readable name of a track-list role.
pub open spec fn track_list_role_name(repr: i32) -> Seq<char> {
    if repr == TRACK_LIST_TITLE {
        "TrackListRoles::Title"@
    } else if repr == TRACK_LIST_ARTIST {
        "TrackListRoles::Artist"@
    } else {
        "TrackListRoles::Unknown"@
    }
}

impl TrackListRoles {
    /// Readable name, as debug output shows it.
    pub fn debug_name(&self) -> (name: String)
        ensures
            name@ == track_list_role_name(self.repr),
    {
        let text = if self.repr == TRACK_LIST_TITLE {
            "TrackListRoles::Title"
        } else if self.repr == TRACK_LIST_ARTIST {
            "TrackListRoles::Artist"
        } else {
            "TrackListRoles::Unknown"
        };
        string_of(chars_of(text).as_slice())
    }
}

/// In-memory title/artist rows.
pub struct TrackListModelRust {
    pub tracks: Vec<(String, String)>,
}

/// What a track-list role reads at `row`.
pub open spec fn track_list_value(tracks: Seq<(String, String)>, row: int, repr: i32) -> RoleValue {
    if 0 <= row < tracks.len() {
        if repr == TRACK_LIST_TITLE {
            RoleValue::Text(tracks[row].0)
        } else if repr == TRACK_LIST_ARTIST {
            RoleValue::Text(tracks[row].1)
        } else {
            RoleValue::Invalid
        }
    } else {
        RoleValue::Invalid
    }
}

impl TrackListModelRust {
    /// No rows.
    pub fn new() -> (m: Self)
        ensures
            m.tracks@.len() == 0,
    {
        TrackListModelRust { tracks: Vec::new() }
    }

    /// Push one row; returns its index (saturating).
    pub fn push_row(&mut self, title: String, artist: String) -> (row: i32)
        ensures
            row == count_i32(old(self).tracks@.len()),
            final(self).tracks@ == old(self).tracks@.push((title, artist)),
    {
        let row = len_to_i32(self.tracks.len());
        self.tracks.push((title, artist));
        row
    }

    /// Drop all rows.
    pub fn drop_rows(&mut self)
        ensures
            final(self).tracks@.len() == 0,
    {
        self.tracks.clear();
    }

    /// Current row count.
    pub fn row_count(&self) -> (n: i32)
        ensures
            n == count_i32(self.tracks@.len()),
    {
        len_to_i32(self.tracks.len())
    }

    /// Data for one row and role; invalid out of range or for an unknown
    /// role.
    pub fn row_data(&self, row: usize, role: TrackListRoles) -> (v: RoleValue)
        ensures
            v == track_list_value(self.tracks@, row as int, role.repr),
    {
        if row < self.tracks.len() {
            let (title, artist) = (&self.tracks[row].0, &self.tracks[row].1);
            if role.repr == TRACK_LIST_TITLE {
                RoleValue::Text(title.clone())
            } else if role.repr == TRACK_LIST_ARTIST {
                RoleValue::Text(artist.clone())
            } else {
                RoleValue::Invalid
            }
        } else {
            RoleValue::Invalid
        }
    }
}

// ---------------------------------------------------------------------
// Genres and composers
// ---------------------------------------------------------------------

/// Which facet list is showing.
#[derive(Clone, Copy, Debug, PartialEq, Eq, Structural)]
pub enum FacetKind {
    Genres,
    Composers,
}

/// A genre or composer group as the index counts it.
#[derive(Clone, Debug)]
pub struct FacetGroup {
    pub name: String,
    pub track_count: i64,
}

/// Role number of a facet's name.
pub const FACET_NAME: i32 = 0;

/// Role number of a facet's track count.
pub const FACET_TRACK_COUNT: i32 = 1;

/// Genre/composer rows: name and track count.
pub struct FacetListModel {
    pub rows: Vec<(String, i32)>,
    pub kind: FacetKind,
}

/// A facet group's display row.
pub open spec fn facet_row(g: FacetGroup) -> (Seq<char>, i32) {
    (g.name@, sat_i32(g.track_count as int))
}

/// Display rows of some facet groups.
pub open spec fn facet_rows(groups: Seq<FacetGroup>) -> Seq<(Seq<char>, i32)> {
    groups.map_values(|g: FacetGroup| facet_row(g))
}

/// Facet rows as plain values.
pub open spec fn facet_views(rows: Seq<(String, i32)>) -> Seq<(Seq<char>, i32)> {
    rows.map_values(|r: (String, i32)| (r.0@, r.1))
}

/// Display row of one facet group.
pub fn display_facet(g: &FacetGroup) -> (r: (String, i32))
    ensures
        (r.0@, r.1) == facet_row(*g),
{
    (g.name.clone(), to_i32_saturating(g.track_count))
}

impl FacetListModel {
    /// No rows; genres first.
    pub fn new() -> (m: Self)
        ensures
            m.rows@.len() == 0,
            m.kind == FacetKind::Genres,
    {
        FacetListModel { rows: Vec::new(), kind: FacetKind::Genres }
    }

    /// Show genre groups: returns the kind the shell loads.
    pub fn refresh_genres(&mut self) -> (kind: FacetKind)
        ensures
            kind == FacetKind::Genres,
            final(self).kind == FacetKind::Genres,
            final(self).rows == old(self).rows,
    {
        self.kind = FacetKind::Genres;
        self.kind
    }

    /// Show composer groups: returns the kind the shell loads.
    pub fn refresh_composers(&mut self) -> (kind: FacetKind)
        ensures
            kind == FacetKind::Composers,
            final(self).kind == FacetKind::Composers,
            final(self).rows == old(self).rows,
    {
        self.kind = FacetKind::Composers;
        self.kind
    }

    /// Replace the rows with the loaded groups, in order.
    pub fn load(&mut self, groups: &Vec<FacetGroup>)
        ensures
            facet_views(final(self).rows@) == facet_rows(groups@),
            final(self).kind == old(self).kind,
    {
        let mut rows: Vec<(String, i32)> = Vec::new();
        let mut i: usize = 0;
        while i < groups.len()
            invariant
                i <= groups@.len(),
                rows@.len() == i,
                facet_views(rows@) == facet_rows(groups@.take(i as int)),
            decreases groups@.len() - i,
        {
            let g = &groups[i];
            let ghost before = rows@;
            rows.push(display_facet(g));
            assert forall|j: int| 0 <= j < i + 1 implies #[trigger] facet_views(rows@)[j]
                == facet_rows(groups@.take(i + 1))[j] by {
                if j < i {
                    assert(rows@[j] == before[j]);
                    assert(facet_views(before)[j] == facet_rows(groups@.take(i as int))[j]);
                }
            }
            assert(facet_views(rows@) =~= facet_rows(groups@.take(i + 1)));
            i = i + 1;
        }
        assert(groups@.take(groups@.len() as int) =~= groups@);
        self.rows = rows;
    }

    /// Current row count.
    pub fn row_count(&self) -> (n: i32)
        ensures
            n == count_i32(self.rows@.len()),
    {
        len_to_i32(self.rows.len())
    }

    /// Name at `row` (empty when out of range).
    pub fn name_at(&self, row: i32) -> (name: String)
        ensures
            name@ == if 0 <= row < self.rows@.len() {
                self.rows@[row as int].0@
            } else {
                Seq::empty()
            },
    {
        if row >= 0 && (row as usize) < self.rows.len() {
            self.rows[row as usize].0.clone()
        } else {
            String::new()
        }
    }

    /// Data for one row and role; invalid out of range or for an unknown
    /// role.
    pub fn row_data(&self, row: usize, repr: i32) -> (v: RoleValue)
        ensures
            v == if row < self.rows@.len() {
                if repr == FACET_NAME {
                    RoleValue::Text(self.rows@[row as int].0)
                } else if repr == FACET_TRACK_COUNT {
                    RoleValue::Int(self.rows@[row as int].1)
                } else {
                    RoleValue::Invalid
                }
            } else {
                RoleValue::Invalid
            },
    {
        if row >= self.rows.len() {
            return RoleValue::Invalid;
        }
        if repr == FACET_NAME {
            RoleValue::Text(self.rows[row].0.clone())
        } else if repr == FACET_TRACK_COUNT {
            RoleValue::Int(self.rows[row].1)
        } else {
            RoleValue::Invalid
        }
    }
}

// ---------------------------------------------------------------------
// Artists
// ---------------------------------------------------------------------

/// An artist group as the index counts it.
#[derive(Clone, Debug)]
pub struct ArtistSummary {
    pub name: String,
    pub album_count: i64,
    pub track_count: i64,
}

/// An artist's display row: name, album count, track count.
pub struct ArtistRow {
    pub name: String,
    pub album_count: i32,
    pub track_count: i32,
}

/// Display row of an artist group: counts saturate into `i32`.
pub fn display_artist(a: &ArtistSummary) -> (r: ArtistRow)
    ensures
        artist_row_spec(*a, r),
{
    ArtistRow {
        name: a.name.clone(),
        album_count: to_i32_saturating(a.album_count),
        track_count: to_i32_saturating(a.track_count),
    }
}

/// Role number of an artist's name.
pub const ARTIST_NAME: i32 = 0;

/// Role number of an artist's album count.
pub const ARTIST_ALBUM_COUNT: i32 = 1;

/// Role number of an artist's track count.
pub const ARTIST_TRACK_COUNT: i32 = 2;

/// `r` is the display row of the artist group `a`.
pub open spec fn artist_row_spec(a: ArtistSummary, r: ArtistRow) -> bool {
    &&& r.name@ == a.name@
    &&& r.album_count == sat_i32(a.album_count as int)
    &&& r.track_count == sat_i32(a.track_count as int)
}

/// Artist rows plus their search.
pub struct ArtistListModel {
    pub artists: Vec<ArtistRow>,
    pub search: SearchCore<Vec<ArtistSummary>>,
}

impl ArtistListModel {
    /// Push one row; returns its index (saturating).
    pub fn push_row(&mut self, row: ArtistRow) -> (index: i32)
        ensures
            index == count_i32(old(self).artists@.len()),
            final(self).artists@ == old(self).artists@.push(row),
            final(self).search == old(self).search,
    {
        let index = len_to_i32(self.artists.len());
        self.artists.push(row);
        index
    }

    /// Drop all rows.
    pub fn drop_rows(&mut self)
        ensures
            final(self).artists@.len() == 0,
            final(self).search == old(self).search,
    {
        self.artists.clear();
    }

    /// Replace every row (a reload, a new sort, or a search result).
    pub fn replace_rows(&mut self, rows: Vec<ArtistRow>)
        ensures
            final(self).artists == rows,
            final(self).search == old(self).search,
    {
        self.artists = rows;
    }

    /// Current row count.
    pub fn row_count(&self) -> (n: i32)
        ensures
            n == count_i32(self.artists@.len()),
    {
        len_to_i32(self.artists.len())
    }

    /// Data for one row and role (name, album count, track count); invalid
    /// out of range or for an unknown role.
    pub fn row_data(&self, row: usize, repr: i32) -> (v: RoleValue)
        ensures
            v == if row < self.artists@.len() {
                let r = self.artists@[row as int];
                if repr == ARTIST_NAME {
                    RoleValue::Text(r.name)
                } else if repr == ARTIST_ALBUM_COUNT {
                    RoleValue::Int(r.album_count)
                } else if repr == ARTIST_TRACK_COUNT {
                    RoleValue::Int(r.track_count)
                } else {
                    RoleValue::Invalid
                }
            } else {
                RoleValue::Invalid
            },
    {
        if row >= self.artists.len() {
            return RoleValue::Invalid;
        }
        let r = &self.artists[row];
        if repr == ARTIST_NAME {
            RoleValue::Text(r.name.clone())
        } else if repr == ARTIST_ALBUM_COUNT {
            RoleValue::Int(r.album_count)
        } else if repr == ARTIST_TRACK_COUNT {
            RoleValue::Int(r.track_count)
        } else {
            RoleValue::Invalid
        }
    }

    /// Take a settled result set into the rows; false (rows untouched) when
    /// none is waiting.
    pub fn poll_search(&mut self) -> (replaced: bool)
        ensures
            replaced == old(self).search.delivered is Some,
            match old(self).search.delivered {
                None => final(self).artists == old(self).artists,
                Some(found) => final(self).artists@.len() == found@.len() && forall|k: int|
                    0 <= k < found@.len() ==> artist_row_spec(
                        found@[k],
                        #[trigger] final(self).artists@[k],
                    ),
            },
            final(self).search.delivered is None,
            final(self).search.submitted == old(self).search.submitted,
            final(self).search.settled == old(self).search.settled,
    {
        match self.poll_search_rows() {
            None => false,
            Some(rows) => {
                self.artists = rows;
                true
            },
        }
    }

    /// Last search failure, if any.
    pub fn error_text(&self) -> (m: Option<String>)
        ensures
            m == self.search.last_error,
    {
        self.search.error_text()
    }

    /// Whether a submitted query is still waiting on the worker.
    pub fn is_searching(&self) -> (b: bool)
        ensures
            b == (self.search.settled < self.search.submitted),
    {
        self.search.is_searching()
    }

    /// One settled result set as display rows, taken once; `None` while the
    /// worker runs or idles.
    pub fn poll_search_rows(&mut self) -> (rows: Option<Vec<ArtistRow>>)
        ensures
            match old(self).search.delivered {
                None => rows is None,
                Some(found) => rows matches Some(r) && r@.len() == found@.len() && forall|k: int|
                    0 <= k < found@.len() ==> artist_row_spec(found@[k], #[trigger] r@[k]),
            },
            final(self).search.delivered is None,
            final(self).search.submitted == old(self).search.submitted,
            final(self).search.settled == old(self).search.settled,
            final(self).artists == old(self).artists,
    {
        let found = match self.search.take_results() {
            None => return None,
            Some(f) => f,
        };
        let mut out: Vec<ArtistRow> = Vec::new();
        let mut i: usize = 0;
        while i < found.len()
            invariant
                i <= found@.len(),
                out@.len() == i,
                forall|k: int| 0 <= k < i ==> artist_row_spec(found@[k], #[trigger] out@[k]),
            decreases found@.len() - i,
        {
            out.push(display_artist(&found[i]));
            i = i + 1;
        }
        Some(out)
    }
}

// ---------------------------------------------------------------------
// Folders
// ---------------------------------------------------------------------

/// A folder group as the index counts it.
#[derive(Clone, Debug)]
pub struct FolderGroup {
    pub path: String,
    pub name: String,
    pub track_count: i64,
}

/// Role number of a folder's path.
pub const FOLDER_PATH: i32 = 0;

/// Role number of a folder's display name.
pub const FOLDER_NAME: i32 = 1;

/// Role number of a folder's track count.
pub const FOLDER_TRACK_COUNT: i32 = 2;

/// A folder group's display row: path, name, saturated track count.
pub open spec fn folder_row(g: FolderGroup) -> (Seq<char>, Seq<char>, i32) {
    (g.path@, g.name@, sat_i32(g.track_count as int))
}

/// Folder rows as plain values.
pub open spec fn folder_views(rows: Seq<(String, String, i32)>) -> Seq<(Seq<char>, Seq<char>, i32)> {
    rows.map_values(|r: (String, String, i32)| (r.0@, r.1@, r.2))
}

/// Display row of one folder group.
pub fn display_folder(g: &FolderGroup) -> (r: (String, String, i32))
    ensures
        (r.0@, r.1@, r.2) == folder_row(*g),
{
    (g.path.clone(), g.name.clone(), to_i32_saturating(g.track_count))
}

/// Folder rows: path (drill key), display name, track count.
pub struct FolderListModel {
    pub folders: Vec<(String, String, i32)>,
}

impl FolderListModel {
    /// No rows.
    pub fn new() -> (m: Self)
        ensures
            m.folders@.len() == 0,
    {
        FolderListModel { folders: Vec::new() }
    }

    /// Drop all rows.
    pub fn drop_rows(&mut self)
        ensures
            final(self).folders@.len() == 0,
    {
        self.folders.clear();
    }

    /// Current row count.
    pub fn row_count(&self) -> (n: i32)
        ensures
            n == count_i32(self.folders@.len()),
    {
        len_to_i32(self.folders.len())
    }

    /// Replace the rows with the loaded groups, in order.
    pub fn load(&mut self, groups: &Vec<FolderGroup>)
        ensures
            folder_views(final(self).folders@) == groups@.map_values(|g: FolderGroup| folder_row(g)),
    {
        let mut rows: Vec<(String, String, i32)> = Vec::new();
        let mut i: usize = 0;
        while i < groups.len()
            invariant
                i <= groups@.len(),
                rows@.len() == i,
                forall|k: int| 0 <= k < i ==> #[trigger] folder_views(rows@)[k] == folder_row(groups@[k]),
            decreases groups@.len() - i,
        {
            let ghost before = rows@;
            rows.push(display_folder(&groups[i]));
            assert forall|k: int| 0 <= k < i + 1 implies #[trigger] folder_views(rows@)[k]
                == folder_row(groups@[k]) by {
                if k < i {
                    assert(rows@[k] == before[k]);
                    assert(folder_views(before)[k] == folder_row(groups@[k]));
                }
            }
            i = i + 1;
        }
        assert(folder_views(rows@) =~= groups@.map_values(|g: FolderGroup| folder_row(g)));
        self.folders = rows;
    }

    /// Data for one row and role (path, name, track count); invalid out of
    /// range or for an unknown role.
    pub fn row_data(&self, row: usize, repr: i32) -> (v: RoleValue)
        ensures
            v == if row < self.folders@.len() {
                let r = self.folders@[row as int];
                if repr == FOLDER_PATH {
                    RoleValue::Text(r.0)
                } else if repr == FOLDER_NAME {
                    RoleValue::Text(r.1)
                } else if repr == FOLDER_TRACK_COUNT {
                    RoleValue::Int(r.2)
                } else {
                    RoleValue::Invalid
                }
            } else {
                RoleValue::Invalid
            },
    {
        if row >= self.folders.len() {
            return RoleValue::Invalid;
        }
        let r = &self.folders[row];
        if repr == FOLDER_PATH {
            RoleValue::Text(r.0.clone())
        } else if repr == FOLDER_NAME {
            RoleValue::Text(r.1.clone())
        } else if repr == FOLDER_TRACK_COUNT {
            RoleValue::Int(r.2)
        } else {
            RoleValue::Invalid
        }
    }

    /// Push one row; returns its index (saturating).
    pub fn push_row(&mut self, path: String, name: String, track_count: i32) -> (row: i32)
        ensures
            row == count_i32(old(self).folders@.len()),
            final(self).folders@ == old(self).folders@.push((path, name, track_count)),
    {
        let row = len_to_i32(self.folders.len());
        self.folders.push((path, name, track_count));
        row
    }

    /// Absolute path at `row` (empty when out of range).
    pub fn path_at(&self, row: i32) -> (path: String)
        ensures
            path@ == if 0 <= row < self.folders@.len() {
                self.folders@[row as int].0@
            } else {
                Seq::empty()
            },
    {
        if row >= 0 && (row as usize) < self.folders.len() {
            self.folders[row as usize].0.clone()
        } else {
            String::new()
        }
    }

    /// Display name at `row` (empty when out of range).
    pub fn name_at(&self, row: i32) -> (name: String)
        ensures
            name@ == if 0 <= row < self.folders@.len() {
                self.folders@[row as int].1@
            } else {
                Seq::empty()
            },
    {
        if row >= 0 && (row as usize) < self.folders.len() {
            self.folders[row as usize].1.clone()
        } else {
            String::new()
        }
    }
}

// ---------------------------------------------------------------------
// Songs
// ---------------------------------------------------------------------

/// One indexed track as the index lists it.
#[derive(Clone, Debug)]
pub struct IndexedTrack {
    pub id: i64,
    pub title: Option<String>,
    pub artist: Option<String>,
    pub album: Option<String>,
    pub track_number: Option<i64>,
    pub duration_ms: Option<i64>,
    pub missing: bool,
}

/// A song's display row.
#[derive(Clone, Debug)]
pub struct SongRow {
    pub track_id: i32,
    pub title: String,
    pub artist: String,
    pub album: String,
    pub track_number: i32,
    pub duration_ms: i32,
    pub missing: bool,
}

/// The display row of an indexed track: unknowns stay visible as such,
/// numbers saturate into `i32`.
pub open spec fn display_row_spec(t: IndexedTrack, r: SongRow) -> bool {
    &&& r.track_id == sat_i32(t.id as int)
    &&& r.title@ == text_or(t.title, "Unknown Title"@)
    &&& r.artist@ == text_or(t.artist, "Unknown Artist"@)
    &&& r.album@ == text_or(t.album, "Unknown Album"@)
    &&& r.track_number == fit_or_zero(t.track_number)
    &&& r.duration_ms == fit_or_zero(t.duration_ms)
    &&& r.missing == t.missing
}

/// Display row of one indexed track.
pub fn display_row(t: &IndexedTrack) -> (r: SongRow)
    ensures
        display_row_spec(*t, r),
{
    SongRow {
        track_id: to_i32_saturating(t.id),
        title: text_or_fallback(&t.title, "Unknown Title"),
        artist: text_or_fallback(&t.artist, "Unknown Artist"),
        album: text_or_fallback(&t.album, "Unknown Album"),
        track_number: to_i32_or_zero(t.track_number),
        duration_ms: to_i32_or_zero(t.duration_ms),
        missing: t.missing,
    }
}

/// Display rows of some indexed tracks, in order.
pub fn display_rows(tracks: &Vec<IndexedTrack>) -> (rows: Vec<SongRow>)
    ensures
        rows@.len() == tracks@.len(),
        forall|k: int| 0 <= k < tracks@.len() ==> display_row_spec(tracks@[k], #[trigger] rows@[k]),
{
    let mut out: Vec<SongRow> = Vec::new();
    let mut i: usize = 0;
    while i < tracks.len()
        invariant
            i <= tracks@.len(),
            out@.len() == i,
            forall|k: int| 0 <= k < i ==> display_row_spec(tracks@[k], #[trigger] out@[k]),
        decreases tracks@.len() - i,
    {
        out.push(display_row(&tracks[i]));
        i = i + 1;
    }
    out
}

/// Song rows plus their search.
pub struct LibraryTrackModel {
    pub tracks: Vec<SongRow>,
    pub search: SearchCore<Vec<IndexedTrack>>,
}

impl LibraryTrackModel {
    /// Library row id at `row` (-1 when out of range).
    pub fn track_id_at(&self, row: i32) -> (id: i32)
        ensures
            id == if 0 <= row < self.tracks@.len() {
                self.tracks@[row as int].track_id
            } else {
                -1i32
            },
    {
        if row >= 0 && (row as usize) < self.tracks.len() {
            self.tracks[row as usize].track_id
        } else {
            -1
        }
    }

    /// Current row count.
    pub fn row_count(&self) -> (n: i32)
        ensures
            n == count_i32(self.tracks@.len()),
    {
        len_to_i32(self.tracks.len())
    }

    /// Replace every row.
    pub fn replace_rows(&mut self, rows: Vec<SongRow>)
        ensures
            final(self).tracks == rows,
            final(self).search == old(self).search,
    {
        self.tracks = rows;
    }

    /// Drop all rows.
    pub fn drop_rows(&mut self)
        ensures
            final(self).tracks@.len() == 0,
            final(self).search == old(self).search,
    {
        self.tracks.clear();
    }

    /// Take a settled result set into the rows; false (rows untouched) when
    /// none is waiting.
    pub fn poll_search(&mut self) -> (replaced: bool)
        ensures
            replaced == old(self).search.delivered is Some,
            match old(self).search.delivered {
                None => final(self).tracks == old(self).tracks,
                Some(found) => final(self).tracks@.len() == found@.len() && forall|k: int|
                    0 <= k < found@.len() ==> display_row_spec(
                        found@[k],
                        #[trigger] final(self).tracks@[k],
                    ),
            },
            final(self).search.delivered is None,
            final(self).search.submitted == old(self).search.submitted,
            final(self).search.settled == old(self).search.settled,
    {
        match self.poll_search_rows() {
            None => false,
            Some(rows) => {
                self.replace_rows(rows);
                true
            },
        }
    }

    /// Last search failure, if any.
    pub fn error_text(&self) -> (m: Option<String>)
        ensures
            m == self.search.last_error,
    {
        self.search.error_text()
    }

    /// Whether a submitted query is still waiting on the worker.
    pub fn is_searching(&self) -> (b: bool)
        ensures
            b == (self.search.settled < self.search.submitted),
    {
        self.search.is_searching()
    }

    /// One settled result set as display rows, taken once; `None` while the
    /// worker runs or idles.
    pub fn poll_search_rows(&mut self) -> (rows: Option<Vec<SongRow>>)
        ensures
            match old(self).search.delivered {
                None => rows is None,
                Some(found) => rows matches Some(r) && r@.len() == found@.len() && forall|k: int|
                    0 <= k < found@.len() ==> display_row_spec(found@[k], #[trigger] r@[k]),
            },
            final(self).search.delivered is None,
            final(self).search.submitted == old(self).search.submitted,
            final(self).search.settled == old(self).search.settled,
            final(self).tracks == old(self).tracks,
    {
        match self.search.take_results() {
            None => None,
            Some(found) => Some(display_rows(&found)),
        }
    }

    /// Data for one row and role (title, artist, album, track number,
    /// duration, missing, track id); invalid out of range or for an unknown
    /// role.
    pub fn row_data(&self, row: usize, repr: i32) -> (v: RoleValue)
        ensures
            v == if row < self.tracks@.len() {
                song_value(self.tracks@[row as int], repr)
            } else {
                RoleValue::Invalid
            },
    {
        if row >= self.tracks.len() {
            return RoleValue::Invalid;
        }
        let t = &self.tracks[row];
        if repr == 0 {
            RoleValue::Text(t.title.clone())
        } else if repr == 1 {
            RoleValue::Text(t.artist.clone())
        } else if repr == 2 {
            RoleValue::Text(t.album.clone())
        } else if repr == 3 {
            RoleValue::Int(t.track_number)
        } else if repr == 4 {
            RoleValue::Int(t.duration_ms)
        } else if repr == 5 {
            RoleValue::Flag(t.missing)
        } else if repr == 6 {
            RoleValue::Int(t.track_id)
        } else {
            RoleValue::Invalid
        }
    }
}

/// What a song role reads: title (0), artist (1), album (2), track number
/// (3), duration (4), missing (5), track id (6).
pub open spec fn song_value(r: SongRow, repr: i32) -> RoleValue {
    if repr == 0 {
        RoleValue::Text(r.title)
    } else if repr == 1 {
        RoleValue::Text(r.artist)
    } else if repr == 2 {
        RoleValue::Text(r.album)
    } else if repr == 3 {
        RoleValue::Int(r.track_number)
    } else if repr == 4 {
        RoleValue::Int(r.duration_ms)
    } else if repr == 5 {
        RoleValue::Flag(r.missing)
    } else if repr == 6 {
        RoleValue::Int(r.track_id)
    } else {
        RoleValue::Invalid
    }
}

// ---------------------------------------------------------------------
// Albums
// ---------------------------------------------------------------------

/// An album group as the index lists it, plus the track its cover comes
/// from.
#[derive(Clone, Debug)]
pub struct AlbumSummary {
    pub id: i64,
    pub title: String,
    pub artist: Option<String>,
    pub year: Option<i64>,
    pub track_count: i64,
    /// Track to read artwork from, when the album has indexed tracks.
    pub art_source: Option<String>,
}

/// One album as the grid shows it.
#[derive(Clone, Debug)]
pub struct AlbumRow {
    pub album_id: i32,
    pub title: String,
    pub artist: String,
    pub year: i32,
    pub track_count: i32,
    /// Track to read artwork from; empty when the album has none, which
    /// then never asks.
    pub art_source: String,
}

/// The display row of an album group.
pub open spec fn display_album_spec(a: AlbumSummary, r: AlbumRow) -> bool {
    &&& r.album_id == sat_i32(a.id as int)
    &&& r.title@ == a.title@
    &&& r.artist@ == text_or(a.artist, "Unknown Artist"@)
    &&& r.year == fit_or_zero(a.year)
    &&& r.track_count == sat_i32(a.track_count as int)
    &&& r.art_source@ == text_or(a.art_source, Seq::empty())
}

/// Display row of one album group (shared by browse and search).
pub fn display_album(a: &AlbumSummary) -> (r: AlbumRow)
    ensures
        display_album_spec(*a, r),
{
    AlbumRow {
        album_id: to_i32_saturating(a.id),
        title: a.title.clone(),
        artist: text_or_fallback(&a.artist, "Unknown Artist"),
        year: to_i32_or_zero(a.year),
        track_count: to_i32_saturating(a.track_count),
        art_source: match &a.art_source {
            Some(p) => p.clone(),
            None => String::new(),
        },
    }
}

/// Role numbers of the album grid.
pub const ALBUM_ID: i32 = 0;
pub const ALBUM_TITLE: i32 = 1;
pub const ALBUM_ARTIST: i32 = 2;
pub const ALBUM_YEAR: i32 = 3;
pub const ALBUM_TRACK_COUNT: i32 = 4;
pub const ALBUM_ART_URL: i32 = 5;

/// First grid row showing album `token`.
pub open spec fn first_album_at(albums: Seq<AlbumRow>, token: i64) -> Option<int> {
    if exists|i: int| 0 <= i < albums.len() && #[trigger] albums[i].album_id == token {
        Some(
            choose|i: int|
                0 <= i < albums.len() && albums[i].album_id == token && forall|j: int|
                    0 <= j < i ==> #[trigger] albums[j].album_id != token,
        )
    } else {
        None
    }
}

/// Grid rows for settled tokens, in order; tokens no row shows are skipped.
pub open spec fn rows_for_tokens(albums: Seq<AlbumRow>, tokens: Seq<i64>) -> Seq<int>
    decreases tokens.len(),
{
    if tokens.len() == 0 {
        Seq::empty()
    } else {
        rows_for_tokens(albums, tokens.drop_last()) + match first_album_at(albums, tokens.last()) {
            Some(i) => seq![i],
            None => Seq::empty(),
        }
    }
}

/// First grid row showing album `token`, if any.
fn first_album_row(albums: &Vec<AlbumRow>, token: i64) -> (r: Option<usize>)
    ensures
        match r {
            Some(i) => first_album_at(albums@, token) == Some(i as int),
            None => first_album_at(albums@, token) is None,
        },
{
    let mut j: usize = 0;
    while j < albums.len()
        invariant
            j <= albums@.len(),
            forall|k: int| 0 <= k < j ==> #[trigger] albums@[k].album_id != token,
        decreases albums@.len() - j,
    {
        if albums[j].album_id as i64 == token {
            assert(albums@[j as int].album_id == token);
            return Some(j);
        }
        j = j + 1;
    }
    None
}

/// Album grid rows, their covers, and their search.
pub struct AlbumListModel {
    pub albums: Vec<AlbumRow>,
    pub art: ArtCore,
    pub search: SearchCore<Vec<AlbumSummary>>,
}

/// The album an artist's "more by" strip leaves out: none for a negative
/// id (nothing to exclude).
pub fn artist_album_exclusion(exclude_id: i32) -> (excluded: Option<i64>)
    ensures
        excluded == if exclude_id < 0 {
            None
        } else {
            Some(exclude_id as i64)
        },
{
    if exclude_id < 0 {
        None
    } else {
        Some(exclude_id as i64)
    }
}

/// A cache path as the `file://` URL QML's `Image.source` expects.
pub open spec fn file_url(path: Seq<char>) -> Seq<char> {
    "file://"@ + path
}

impl AlbumListModel {
    /// Push one row; returns its index (saturating).
    pub fn push_row(&mut self, album: AlbumRow) -> (row: i32)
        ensures
            row == count_i32(old(self).albums@.len()),
            final(self).albums@ == old(self).albums@.push(album),
    {
        let row = len_to_i32(self.albums.len());
        self.albums.push(album);
        row
    }

    /// Drop all rows.
    pub fn drop_rows(&mut self)
        ensures
            final(self).albums@.len() == 0,
    {
        self.albums.clear();
    }

    /// Current row count.
    pub fn row_count(&self) -> (n: i32)
        ensures
            n == count_i32(self.albums@.len()),
    {
        len_to_i32(self.albums.len())
    }

    /// Album id at `row` (-1 when out of range).
    pub fn album_id_at(&self, row: i32) -> (id: i32)
        ensures
            id == if 0 <= row < self.albums@.len() {
                self.albums@[row as int].album_id
            } else {
                -1i32
            },
    {
        if row >= 0 && (row as usize) < self.albums.len() {
            self.albums[row as usize].album_id
        } else {
            -1
        }
    }

    /// Title at `row` (empty when out of range).
    pub fn title_at(&self, row: i32) -> (title: String)
        ensures
            title@ == if 0 <= row < self.albums@.len() {
                self.albums@[row as int].title@
            } else {
                Seq::empty()
            },
    {
        if row >= 0 && (row as usize) < self.albums.len() {
            self.albums[row as usize].title.clone()
        } else {
            String::new()
        }
    }

    /// Cover URL for a row: empty while unresolved or when the album has
    /// none (the card keeps its placeholder).
    pub fn art_url(&self, row: usize) -> (url: String)
        ensures
            url@ == if row < self.albums@.len() {
                match self.art.answers().get(self.albums@[row as int].album_id as i64) {
                    Some(Some(a)) => file_url(a.thumb256@),
                    _ => Seq::empty(),
                }
            } else {
                Seq::empty()
            },
    {
        if row >= self.albums.len() {
            return String::new();
        }
        let key = self.albums[row].album_id as i64;
        match self.art.art(key) {
            Some(a) => {
                let mut out: Vec<char> = Vec::new();
                push_all(&mut out, chars_of("file://").as_slice());
                push_all(&mut out, chars_of(a.thumb256.as_str()).as_slice());
                string_of(out.as_slice())
            },
            None => String::new(),
        }
    }

    /// Data for one row and role; invalid out of range or for an unknown
    /// role.
    pub fn row_data(&self, row: usize, repr: i32) -> (v: RoleValue)
        ensures
            row >= self.albums@.len() ==> v == RoleValue::Invalid,
            row < self.albums@.len() ==> {
                let a = self.albums@[row as int];
                if repr == ALBUM_ID {
                    v == RoleValue::Int(a.album_id)
                } else if repr == ALBUM_TITLE {
                    v == RoleValue::Text(a.title)
                } else if repr == ALBUM_ARTIST {
                    v == RoleValue::Text(a.artist)
                } else if repr == ALBUM_YEAR {
                    v == RoleValue::Int(a.year)
                } else if repr == ALBUM_TRACK_COUNT {
                    v == RoleValue::Int(a.track_count)
                } else if repr == ALBUM_ART_URL {
                    v matches RoleValue::Text(u) && u@ == match self.art.answers().get(
                        a.album_id as i64,
                    ) {
                        Some(Some(c)) => file_url(c.thumb256@),
                        _ => Seq::empty(),
                    }
                } else {
                    v == RoleValue::Invalid
                }
            },
    {
        if row >= self.albums.len() {
            return RoleValue::Invalid;
        }
        let a = &self.albums[row];
        if repr == ALBUM_ID {
            RoleValue::Int(a.album_id)
        } else if repr == ALBUM_TITLE {
            RoleValue::Text(a.title.clone())
        } else if repr == ALBUM_ARTIST {
            RoleValue::Text(a.artist.clone())
        } else if repr == ALBUM_YEAR {
            RoleValue::Int(a.year)
        } else if repr == ALBUM_TRACK_COUNT {
            RoleValue::Int(a.track_count)
        } else if repr == ALBUM_ART_URL {
            RoleValue::Text(self.art_url(row))
        } else {
            RoleValue::Invalid
        }
    }

    /// Ask for one row's cover as its card appears: rows out of range and
    /// albums without indexed tracks ask nothing; otherwise the album id
    /// goes to the deduplicating resolver.
    pub fn request_art(&mut self, row: i32) -> (ask: ArtRequest)
        ensures
            ({
                let at = row_position(row);
                if at < old(self).albums@.len() && old(self).albums@[at].art_source@.len() > 0 {
                    let token = old(self).albums@[at].album_id as i64;
                    &&& old(self).art.knows(token) ==> ask == ArtRequest::Ignore
                    &&& !old(self).art.knows(token) ==> ask == (ArtRequest::Send {
                        start_worker: !old(self).art.has_worker(),
                    }) && final(self).art.in_flight() == old(self).art.in_flight().insert(token)
                    &&& final(self).art.knows(token)
                } else {
                    ask == ArtRequest::Ignore && final(self).art.in_flight() == old(
                        self,
                    ).art.in_flight() && final(self).art.answers() == old(self).art.answers()
                }
            }),
            final(self).albums == old(self).albums,
    {
        let at = row_to_position(row);
        if at >= self.albums.len() {
            return ArtRequest::Ignore;
        }
        if self.albums[at].art_source.as_str().is_empty() {
            return ArtRequest::Ignore;
        }
        let token = self.albums[at].album_id as i64;
        self.art.request(token)
    }

    /// Drain landed covers (in arrival order) and return the rows that now
    /// have one to show.
    pub fn poll_art(&mut self, arrived: Vec<(i64, Option<CachedArt>)>) -> (rows: Vec<usize>)
        ensures
            old(self).art.has_worker() ==> rows@.map_values(|r: usize| r as int)
                == rows_for_tokens(
                old(self).albums@,
                arrived@.map_values(|a: (i64, Option<CachedArt>)| a.0),
            ),
            !old(self).art.has_worker() ==> rows@.len() == 0,
            final(self).albums == old(self).albums,
    {
        let settled = self.art.poll(arrived);
        let mut out: Vec<usize> = Vec::new();
        let mut i: usize = 0;
        while i < settled.len()
            invariant
                i <= settled@.len(),
                self.albums == old(self).albums,
                out@.map_values(|r: usize| r as int) == rows_for_tokens(
                    self.albums@,
                    settled@.take(i as int),
                ),
            decreases settled@.len() - i,
        {
            let token = settled[i];
            assert(settled@.take(i + 1).drop_last() =~= settled@.take(i as int));
            let found = first_album_row(&self.albums, token);
            let ghost before = out@;
            match found {
                Some(at) => {
                    out.push(at);
                    assert(out@.map_values(|r: usize| r as int) =~= before.map_values(
                        |r: usize| r as int,
                    ) + seq![at as int]);
                },
                None => {},
            }
            i = i + 1;
        }
        assert(settled@.take(settled@.len() as int) =~= settled@);
        out
    }

    /// Whether any cover lookup is still in flight.
    pub fn art_pending(&self) -> (b: bool)
        ensures
            b == !self.art.in_flight().is_empty(),
    {
        self.art.pending()
    }

    /// Whether a submitted query is still waiting on the worker.
    pub fn is_searching(&self) -> (b: bool)
        ensures
            b == (self.search.settled < self.search.submitted),
    {
        self.search.is_searching()
    }

    /// One settled result set as display rows, taken once; `None` while the
    /// worker runs or idles.
    pub fn poll_search_rows(&mut self) -> (rows: Option<Vec<AlbumRow>>)
        ensures
            match old(self).search.delivered {
                None => rows is None,
                Some(found) => rows matches Some(r) && r@.len() == found@.len() && forall|k: int|
                    0 <= k < found@.len() ==> display_album_spec(found@[k], #[trigger] r@[k]),
            },
            final(self).search.delivered is None,
            final(self).search.submitted == old(self).search.submitted,
            final(self).search.settled == old(self).search.settled,
            final(self).albums == old(self).albums,
    {
        let found = match self.search.take_results() {
            None => return None,
            Some(f) => f,
        };
        let mut out: Vec<AlbumRow> = Vec::new();
        let mut i: usize = 0;
        while i < found.len()
            invariant
                i <= found@.len(),
                out@.len() == i,
                forall|k: int| 0 <= k < i ==> display_album_spec(found@[k], #[trigger] out@[k]),
            decreases found@.len() - i,
        {
            out.push(display_album(&found[i]));
            i = i + 1;
        }
        Some(out)
    }

    /// Take a settled result set into the grid; false (rows untouched) when
    /// none is waiting.
    pub fn poll_search(&mut self) -> (replaced: bool)
        ensures
            replaced == old(self).search.delivered is Some,
            match old(self).search.delivered {
                None => final(self).albums == old(self).albums,
                Some(found) => final(self).albums@.len() == found@.len() && forall|k: int|
                    0 <= k < found@.len() ==> display_album_spec(
                        found@[k],
                        #[trigger] final(self).albums@[k],
                    ),
            },
            final(self).search.delivered is None,
            final(self).search.submitted == old(self).search.submitted,
            final(self).search.settled == old(self).search.settled,
    {
        match self.poll_search_rows() {
            None => false,
            Some(rows) => {
                self.albums = rows;
                true
            },
        }
    }

    /// Last search failure, if any.
    pub fn error_text(&self) -> (m: Option<String>)
        ensures
            m == self.search.last_error,
    {
        self.search.error_text()
    }
}

} // verus!
