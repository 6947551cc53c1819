//! Role-name tables: the name under which the view reads each role of a list
//! model, indexed by the role's number.

use vstd::prelude::*;

use crate::browse::{
    AlbumListModel, ArtistListModel, FacetListModel, FolderListModel, LibraryTrackModel,
    RoleValue, SongRow, TrackListModelRust, song_value, track_list_value,
};
use crate::playlists::{EntryRow, PlaylistModel, PlaylistTrackModel, entry_value};
use crate::queue_model::QueueModel;
use crate::text::{chars_of, push_all, string_of};

verus! {

/// Owned copies of `names`, in order.
fn role_table(names: &[&str]) -> (out: Vec<String>)
    ensures
        out@.len() == names@.len(),
        forall|i: int| 0 <= i < names@.len() ==> #[trigger] out@[i]@ == names@[i]@,
{
    let mut out: Vec<String> = Vec::new();
    let mut i: usize = 0;
    while i < names.len()
        invariant
            i <= names@.len(),
            out@.len() == i,
            forall|k: int| 0 <= k < i ==> #[trigger] out@[k]@ == names@[k]@,
        decreases names@.len() - i,
    {
        out.push(string_of(chars_of(names[i]).as_slice()));
        i = i + 1;
    }
    out
}

/// Whether `names` spells out `table`, one name per role number.
pub open spec fn names_are(names: Seq<String>, table: Seq<Seq<char>>) -> bool {
    &&& names.len() == table.len()
    &&& forall|i: int| 0 <= i < table.len() ==> #[trigger] names[i]@ == table[i]
}

/// Track-list roles: title, artist.
pub open spec fn track_list_role_names() -> Seq<Seq<char>> {
    seq!["title"@, "artist"@]
}

/// Genre and composer roles: name, track count.
pub open spec fn facet_role_names() -> Seq<Seq<char>> {
    seq!["name"@, "trackCount"@]
}

/// Artist roles: name, album count, track count.
pub open spec fn artist_role_names() -> Seq<Seq<char>> {
    seq!["name"@, "albumCount"@, "trackCount"@]
}

/// Folder roles: path, name, track count.
pub open spec fn folder_role_names() -> Seq<Seq<char>> {
    seq!["path"@, "name"@, "trackCount"@]
}

/// Song roles: title, artist, album, track number, duration, missing, id.
pub open spec fn song_role_names() -> Seq<Seq<char>> {
    seq!["title"@, "artist"@, "album"@, "trackNumber"@, "durationMs"@, "missing"@, "trackId"@]
}

/// Album roles: id, title, artist, year, track count, cover URL.
pub open spec fn album_role_names() -> Seq<Seq<char>> {
    seq!["albumId"@, "title"@, "artist"@, "year"@, "trackCount"@, "artUrl"@]
}

/// Playlist roles: id, name, track count.
pub open spec fn playlist_role_names() -> Seq<Seq<char>> {
    seq!["playlistId"@, "name"@, "trackCount"@]
}

/// Playlist entry roles: entry id, track id, title, artist, duration,
/// missing, dangling.
pub open spec fn entry_role_names() -> Seq<Seq<char>> {
    seq!["entryId"@, "trackId"@, "title"@, "artist"@, "durationMs"@, "missing"@, "dangling"@]
}

/// Queue roles: title, artist, album, duration, current, track id, missing.
pub open spec fn queue_role_names() -> Seq<Seq<char>> {
    seq!["title"@, "artist"@, "album"@, "durationMs"@, "isCurrent"@, "trackId"@, "missing"@]
}

/// On a row that exists, a track-list role reads data exactly when the
/// role-name table names it.
pub proof fn lemma_track_list_roles_read_data(tracks: Seq<(String, String)>, row: int, repr: i32)
    requires
        0 <= row < tracks.len(),
    ensures
        !(track_list_value(tracks, row, repr) is Invalid)
            <==> 0 <= repr < track_list_role_names().len(),
{
}

/// A song role reads data exactly when the role-name table names it.
pub proof fn lemma_song_roles_read_data(r: SongRow, repr: i32)
    ensures
        !(song_value(r, repr) is Invalid) <==> 0 <= repr < song_role_names().len(),
{
}

/// A playlist entry role reads data exactly when the role-name table names
/// it.
pub proof fn lemma_entry_roles_read_data(r: EntryRow, repr: i32)
    ensures
        !(entry_value(r, repr) is Invalid) <==> 0 <= repr < entry_role_names().len(),
{
}

/// `kind::Variant` for a role number, `kind::Unknown` past the table.
pub open spec fn role_debug_spec(kind: Seq<char>, variants: Seq<Seq<char>>, repr: i32) -> Seq<char> {
    kind + "::"@ + if 0 <= repr < variants.len() {
        variants[repr as int]
    } else {
        "Unknown"@
    }
}

/// Debug text of role `repr` of the enum `kind` whose variants are `variants`.
fn role_debug(kind: &str, variants: &[&str], repr: i32) -> (out: String)
    ensures
        out@ == role_debug_spec(kind@, variants@.map_values(|v: &str| v@), repr),
{
    let mut text: Vec<char> = chars_of(kind);
    push_all(&mut text, chars_of("::").as_slice());
    if 0 <= repr && (repr as usize) < variants.len() {
        push_all(&mut text, chars_of(variants[repr as usize]).as_slice());
    } else {
        push_all(&mut text, chars_of("Unknown").as_slice());
    }
    string_of(text.as_slice())
}

/// Variant names of [`AlbumRoles`], by role number.
pub open spec fn album_role_variants() -> Seq<Seq<char>> {
    seq!["AlbumId"@, "Title"@, "Artist"@, "Year"@, "TrackCount"@, "ArtUrl"@]
}

/// A role of the album list, by number.
#[derive(Clone, Copy, Debug, PartialEq, Eq, Structural)]
pub struct AlbumRoles {
    pub repr: i32,
}

impl AlbumRoles {
    /// Readable name, as debug output shows it.
    pub fn debug_name(&self) -> (name: String)
        ensures
            name@ == role_debug_spec("AlbumRoles"@, album_role_variants(), self.repr),
    {
        let variants: [&str; 6] = ["AlbumId", "Title", "Artist", "Year", "TrackCount", "ArtUrl"];
        let name = role_debug("AlbumRoles", &variants, self.repr);
        proof {
            assert(variants@.map_values(|v: &str| v@) =~= album_role_variants());
        }
        name
    }
}

/// Variant names of [`ArtistRoles`], by role number.
pub open spec fn artist_role_variants() -> Seq<Seq<char>> {
    seq!["Name"@, "AlbumCount"@, "TrackCount"@]
}

/// A role of the artist list, by number.
#[derive(Clone, Copy, Debug, PartialEq, Eq, Structural)]
pub struct ArtistRoles {
    pub repr: i32,
}

impl ArtistRoles {
    /// Readable name, as debug output shows it.
    pub fn debug_name(&self) -> (name: String)
        ensures
            name@ == role_debug_spec("ArtistRoles"@, artist_role_variants(), self.repr),
    {
        let variants: [&str; 3] = ["Name", "AlbumCount", "TrackCount"];
        let name = role_debug("ArtistRoles", &variants, self.repr);
        proof {
            assert(variants@.map_values(|v: &str| v@) =~= artist_role_variants());
        }
        name
    }
}

/// Variant names of [`FacetRoles`], by role number.
pub open spec fn facet_role_variants() -> Seq<Seq<char>> {
    seq!["Name"@, "TrackCount"@]
}

/// A role of the facet list, by number.
#[derive(Clone, Copy, Debug, PartialEq, Eq, Structural)]
pub struct FacetRoles {
    pub repr: i32,
}

impl FacetRoles {
    /// Readable name, as debug output shows it.
    pub fn debug_name(&self) -> (name: String)
        ensures
            name@ == role_debug_spec("FacetRoles"@, facet_role_variants(), self.repr),
    {
        let variants: [&str; 2] = ["Name", "TrackCount"];
        let name = role_debug("FacetRoles", &variants, self.repr);
        proof {
            assert(variants@.map_values(|v: &str| v@) =~= facet_role_variants());
        }
        name
    }
}

/// Variant names of [`FolderRoles`], by role number.
pub open spec fn folder_role_variants() -> Seq<Seq<char>> {
    seq!["Path"@, "Name"@, "TrackCount"@]
}

/// A role of the folder list, by number.
#[derive(Clone, Copy, Debug, PartialEq, Eq, Structural)]
pub struct FolderRoles {
    pub repr: i32,
}

impl FolderRoles {
    /// Readable name, as debug output shows it.
    pub fn debug_name(&self) -> (name: String)
        ensures
            name@ == role_debug_spec("FolderRoles"@, folder_role_variants(), self.repr),
    {
        let variants: [&str; 3] = ["Path", "Name", "TrackCount"];
        let name = role_debug("FolderRoles", &variants, self.repr);
        proof {
            assert(variants@.map_values(|v: &str| v@) =~= folder_role_variants());
        }
        name
    }
}

/// Variant names of [`LibraryTrackRoles`], by role number.
pub open spec fn song_role_variants() -> Seq<Seq<char>> {
    seq!["Title"@, "Artist"@, "Album"@, "TrackNumber"@, "DurationMs"@, "Missing"@, "TrackId"@]
}

/// A role of the song list, by number.
#[derive(Clone, Copy, Debug, PartialEq, Eq, Structural)]
pub struct LibraryTrackRoles {
    pub repr: i32,
}

impl LibraryTrackRoles {
    /// Readable name, as debug output shows it.
    pub fn debug_name(&self) -> (name: String)
        ensures
            name@ == role_debug_spec("LibraryTrackRoles"@, song_role_variants(), self.repr),
    {
        let variants: [&str; 7] = ["Title", "Artist", "Album", "TrackNumber", "DurationMs", "Missing", "TrackId"];
        let name = role_debug("LibraryTrackRoles", &variants, self.repr);
        proof {
            assert(variants@.map_values(|v: &str| v@) =~= song_role_variants());
        }
        name
    }
}

/// Variant names of [`PlaylistRoles`], by role number.
pub open spec fn playlist_role_variants() -> Seq<Seq<char>> {
    seq!["PlaylistId"@, "Name"@, "TrackCount"@]
}

/// A role of the playlist list, by number.
#[derive(Clone, Copy, Debug, PartialEq, Eq, Structural)]
pub struct PlaylistRoles {
    pub repr: i32,
}

impl PlaylistRoles {
    /// Readable name, as debug output shows it.
    pub fn debug_name(&self) -> (name: String)
        ensures
            name@ == role_debug_spec("PlaylistRoles"@, playlist_role_variants(), self.repr),
    {
        let variants: [&str; 3] = ["PlaylistId", "Name", "TrackCount"];
        let name = role_debug("PlaylistRoles", &variants, self.repr);
        proof {
            assert(variants@.map_values(|v: &str| v@) =~= playlist_role_variants());
        }
        name
    }
}

/// Variant names of [`PlaylistTrackRoles`], by role number.
pub open spec fn entry_role_variants() -> Seq<Seq<char>> {
    seq!["EntryId"@, "TrackId"@, "Title"@, "Artist"@, "DurationMs"@, "Missing"@, "Dangling"@]
}

/// A role of the entry list, by number.
#[derive(Clone, Copy, Debug, PartialEq, Eq, Structural)]
pub struct PlaylistTrackRoles {
    pub repr: i32,
}

impl PlaylistTrackRoles {
    /// Readable name, as debug output shows it.
    pub fn debug_name(&self) -> (name: String)
        ensures
            name@ == role_debug_spec("PlaylistTrackRoles"@, entry_role_variants(), self.repr),
    {
        let variants: [&str; 7] = ["EntryId", "TrackId", "Title", "Artist", "DurationMs", "Missing", "Dangling"];
        let name = role_debug("PlaylistTrackRoles", &variants, self.repr);
        proof {
            assert(variants@.map_values(|v: &str| v@) =~= entry_role_variants());
        }
        name
    }
}

/// Variant names of [`QueueRoles`], by role number.
pub open spec fn queue_role_variants() -> Seq<Seq<char>> {
    seq!["Title"@, "Artist"@, "Album"@, "DurationMs"@, "IsCurrent"@, "TrackId"@, "Missing"@]
}

/// A role of the queue list, by number.
#[derive(Clone, Copy, Debug, PartialEq, Eq, Structural)]
pub struct QueueRoles {
    pub repr: i32,
}

impl QueueRoles {
    /// Readable name, as debug output shows it.
    pub fn debug_name(&self) -> (name: String)
        ensures
            name@ == role_debug_spec("QueueRoles"@, queue_role_variants(), self.repr),
    {
        let variants: [&str; 7] = ["Title", "Artist", "Album", "DurationMs", "IsCurrent", "TrackId", "Missing"];
        let name = role_debug("QueueRoles", &variants, self.repr);
        proof {
            assert(variants@.map_values(|v: &str| v@) =~= queue_role_variants());
        }
        name
    }
}

impl TrackListModelRust {
    /// Names of the track-list roles.
    pub fn role_names(&self) -> (names: Vec<String>)
        ensures
            names_are(names@, track_list_role_names()),
    {
        role_table(&["title", "artist"])
    }
}

impl FacetListModel {
    /// Names of the genre and composer roles.
    pub fn role_names_facets(&self) -> (names: Vec<String>)
        ensures
            names_are(names@, facet_role_names()),
    {
        role_table(&["name", "trackCount"])
    }
}

impl ArtistListModel {
    /// Names of the artist roles.
    pub fn role_names_artists(&self) -> (names: Vec<String>)
        ensures
            names_are(names@, artist_role_names()),
    {
        role_table(&["name", "albumCount", "trackCount"])
    }
}

impl FolderListModel {
    /// Names of the folder roles.
    pub fn role_names_folders(&self) -> (names: Vec<String>)
        ensures
            names_are(names@, folder_role_names()),
    {
        role_table(&["path", "name", "trackCount"])
    }
}

impl LibraryTrackModel {
    /// Names of the song roles.
    pub fn role_names_tracks(&self) -> (names: Vec<String>)
        ensures
            names_are(names@, song_role_names()),
    {
        role_table(&["title", "artist", "album", "trackNumber", "durationMs", "missing", "trackId"])
    }
}

impl AlbumListModel {
    /// Names of the album roles.
    pub fn role_names_albums(&self) -> (names: Vec<String>)
        ensures
            names_are(names@, album_role_names()),
    {
        role_table(&["albumId", "title", "artist", "year", "trackCount", "artUrl"])
    }
}

impl PlaylistModel {
    /// Names of the playlist roles.
    pub fn role_names_playlists(&self) -> (names: Vec<String>)
        ensures
            names_are(names@, playlist_role_names()),
    {
        role_table(&["playlistId", "name", "trackCount"])
    }
}

impl PlaylistTrackModel {
    /// Names of the playlist entry roles.
    pub fn role_names_playlist_tracks(&self) -> (names: Vec<String>)
        ensures
            names_are(names@, entry_role_names()),
    {
        role_table(&["entryId", "trackId", "title", "artist", "durationMs", "missing", "dangling"])
    }
}

impl QueueModel {
    /// Names of the queue roles.
    pub fn role_names_queue(&self) -> (names: Vec<String>)
        ensures
            names_are(names@, queue_role_names()),
    {
        role_table(&["title", "artist", "album", "durationMs", "isCurrent", "trackId", "missing"])
    }
}

} // verus!
