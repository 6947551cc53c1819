use tunex::art::ArtCore;
use tunex::browse::{
    AlbumListModel, ArtistListModel, FacetListModel, FolderListModel, LibraryTrackModel,
    RoleValue, TrackListModelRust, TrackListRoles, ALBUM_ART_URL, ALBUM_ID,
};
use tunex::config::TunexConfig;
use tunex::playlists::{PlaylistModel, PlaylistTrackModel, ENTRY_DANGLING, PLAYLIST_ID};
use tunex::queue_enqueue::{QUEUE_IS_CURRENT, QUEUE_MISSING};
use tunex::queue_model::QueueModel;
use tunex::roles::{
    AlbumRoles, ArtistRoles, FacetRoles, FolderRoles, LibraryTrackRoles, PlaylistRoles,
    PlaylistTrackRoles, QueueRoles,
};
use tunex::search::SearchCore;

#[test]
fn queue_roles_are_named_in_role_order() {
    let model = QueueModel::new(TunexConfig::default(), String::new());
    let names = model.role_names_queue();
    assert_eq!(
        names,
        ["title", "artist", "album", "durationMs", "isCurrent", "trackId", "missing"]
    );
    assert_eq!(names[QUEUE_IS_CURRENT as usize], "isCurrent");
    assert_eq!(names[QUEUE_MISSING as usize], "missing");
}

#[test]
fn album_and_song_roles_are_named_in_role_order() {
    let albums = AlbumListModel {
        albums: Vec::new(),
        art: ArtCore::with_cache_dir("/cache".to_owned()),
        search: SearchCore::with_db_path(String::new()),
    };
    let names = albums.role_names_albums();
    assert_eq!(names, ["albumId", "title", "artist", "year", "trackCount", "artUrl"]);
    assert_eq!(names[ALBUM_ID as usize], "albumId");
    assert_eq!(names[ALBUM_ART_URL as usize], "artUrl");

    let songs = LibraryTrackModel {
        tracks: Vec::new(),
        search: SearchCore::with_db_path(String::new()),
    };
    assert_eq!(
        songs.role_names_tracks(),
        ["title", "artist", "album", "trackNumber", "durationMs", "missing", "trackId"]
    );
}

#[test]
fn browse_panel_roles_are_named() {
    let artists = ArtistListModel {
        artists: Vec::new(),
        search: SearchCore::with_db_path(String::new()),
    };
    assert_eq!(artists.role_names_artists(), ["name", "albumCount", "trackCount"]);
    let folders = FolderListModel { folders: Vec::new() };
    assert_eq!(folders.role_names_folders(), ["path", "name", "trackCount"]);
    assert_eq!(FacetListModel::new().role_names_facets(), ["name", "trackCount"]);
    assert_eq!(TrackListModelRust::new().role_names(), ["title", "artist"]);
}

#[test]
fn playlist_roles_are_named() {
    let playlists = PlaylistModel::new(String::new());
    let names = playlists.role_names_playlists();
    assert_eq!(names, ["playlistId", "name", "trackCount"]);
    assert_eq!(names[PLAYLIST_ID as usize], "playlistId");
    let entries = PlaylistTrackModel::new(String::new());
    let names = entries.role_names_playlist_tracks();
    assert_eq!(
        names,
        ["entryId", "trackId", "title", "artist", "durationMs", "missing", "dangling"]
    );
    assert_eq!(names[ENTRY_DANGLING as usize], "dangling");
}

#[test]
fn a_named_role_reads_data_and_an_unnamed_one_does_not() {
    let mut model = TrackListModelRust::new();
    model.tracks.push(("Song".to_owned(), "Band".to_owned()));
    let names = model.role_names();
    for repr in 0..names.len() {
        assert_ne!(model.row_data(0, TrackListRoles { repr: repr as i32 }), RoleValue::Invalid);
    }
    assert_eq!(model.row_data(0, TrackListRoles { repr: names.len() as i32 }), RoleValue::Invalid);
}

#[test]
fn role_debug_names_spell_the_enum_and_variant() {
    assert_eq!(AlbumRoles { repr: 5 }.debug_name(), "AlbumRoles::ArtUrl");
    assert_eq!(ArtistRoles { repr: 1 }.debug_name(), "ArtistRoles::AlbumCount");
    assert_eq!(FacetRoles { repr: 0 }.debug_name(), "FacetRoles::Name");
    assert_eq!(FolderRoles { repr: 2 }.debug_name(), "FolderRoles::TrackCount");
    assert_eq!(LibraryTrackRoles { repr: 3 }.debug_name(), "LibraryTrackRoles::TrackNumber");
    assert_eq!(PlaylistRoles { repr: 0 }.debug_name(), "PlaylistRoles::PlaylistId");
    assert_eq!(PlaylistTrackRoles { repr: 6 }.debug_name(), "PlaylistTrackRoles::Dangling");
    assert_eq!(QueueRoles { repr: 4 }.debug_name(), "QueueRoles::IsCurrent");
}

#[test]
fn role_debug_names_past_the_table_are_unknown() {
    assert_eq!(QueueRoles { repr: 7 }.debug_name(), "QueueRoles::Unknown");
    assert_eq!(AlbumRoles { repr: -1 }.debug_name(), "AlbumRoles::Unknown");
    assert_eq!(FacetRoles { repr: i32::MAX }.debug_name(), "FacetRoles::Unknown");
}
