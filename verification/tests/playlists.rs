use tunex::browse::RoleValue;
use tunex::error::Error;
use tunex::playlists::{
    EntriesRead, EntryListing, EntryTrack, IndexRead, PlaylistModel, PlaylistRow,
    PlaylistSummary, PlaylistTrackModel, TrackFound, ENTRY_DANGLING, ENTRY_DURATION_MS, ENTRY_ID,
    PLAYLIST_ID, PLAYLIST_NAME, PLAYLIST_TRACK_COUNT, auto_playlist_name, display_entry,
    friendly_error,
};

#[test]
fn playlist_list_model_row_data_returns_every_role() {
    let mut model = PlaylistModel::new("/data/library.db".to_owned());
    model.playlists.push(PlaylistRow {
        playlist_id: 3,
        name: "Evening".to_owned(),
        track_count: 12,
    });
    assert_eq!(model.row_count(), 1);
    assert_eq!(model.row_data(0, PLAYLIST_ID), RoleValue::Int(3));
    assert_eq!(model.row_data(0, PLAYLIST_NAME), RoleValue::Text("Evening".to_owned()));
    assert_eq!(model.row_data(0, PLAYLIST_TRACK_COUNT), RoleValue::Int(12));
    assert_eq!(model.row_data(0, i32::MAX), RoleValue::Invalid);
    assert_eq!(model.row_data(99, PLAYLIST_NAME), RoleValue::Invalid);
    assert_eq!(model.playlist_id_at(0), 3);
    assert_eq!(model.playlist_id_at(1), -1);
    assert_eq!(model.playlist_name_at(0), "Evening");
}

#[test]
fn auto_create_numbers_freely() {
    let mut existing: Vec<String> = Vec::new();
    let first = auto_playlist_name(&existing);
    assert_eq!(first, "New playlist");
    existing.push(first);
    let second = auto_playlist_name(&existing);
    assert_eq!(second, "New playlist 2");
    existing.push("New playlist 3".to_owned());
    existing.push(second);
    assert_eq!(auto_playlist_name(&existing), "New playlist 4");
}

#[test]
fn missing_index_reads_empty_and_blocks_writes() {
    let mut model = PlaylistModel::new("/nowhere/library.db".to_owned());
    assert!(model.refresh_rows(IndexRead::NoIndex));
    assert_eq!(model.row_count(), 0);
    assert!(!model.open_writable(IndexRead::NoIndex));
    assert!(model.error_message().is_some_and(|text| text.contains("empty")));
    assert!(!model.refresh_rows(IndexRead::Unreadable));
    assert_eq!(
        model.error_message().as_deref(),
        Some("The music library cannot be read.")
    );
}

#[test]
fn refresh_maps_listed_playlists() {
    let mut model = PlaylistModel::new(String::new());
    assert!(model.refresh_rows(IndexRead::Read(vec![PlaylistSummary {
        id: 5_000_000_000,
        name: "Mix".to_owned(),
        track_count: 4,
    }])));
    assert_eq!(model.playlist_id_at(0), i32::MAX, "ids saturate");
    assert!(model.error_message().is_none());
}

#[test]
fn create_rename_delete_surface_backend_reasons() {
    let mut model = PlaylistModel::new(String::new());
    assert_eq!(model.created(Ok(7)), 7);
    let dup = Error::Database("a playlist named Evening already exists".to_owned());
    assert_eq!(model.created(Err(dup)), -1);
    assert_eq!(
        model.error_message().as_deref(),
        Some("a playlist named Evening already exists")
    );
    model.edit_failed(&Error::Config("blank".to_owned()));
    assert_eq!(
        model.error_message().as_deref(),
        Some("invalid configuration: blank"),
        "only the database lead is stripped"
    );
}

#[test]
fn adding_refuses_missing_and_gone_tracks() {
    let mut model = PlaylistModel::new(String::new());
    assert!(!model.check_track(TrackFound::Missing));
    assert_eq!(model.error_message().as_deref(), Some("That file is missing from disk."));
    assert!(!model.check_track(TrackFound::Absent));
    assert_eq!(
        model.error_message().as_deref(),
        Some("That track is no longer in the library.")
    );
    assert!(model.check_track(TrackFound::Present));
    assert_eq!(model.track_added(Ok(())), 1);
    assert!(model.error_message().is_none());
    assert!(model.is_smart(IndexRead::Read(true)));
    assert!(!model.is_smart(IndexRead::NoIndex));
}

#[test]
fn friendly_error_strips_only_the_database_lead() {
    assert_eq!(friendly_error(&Error::Database("x".to_owned())), "x");
    assert_eq!(friendly_error(&Error::Cancelled), "operation cancelled");
}

fn entry(id: i64, track: Option<EntryTrack>) -> EntryListing {
    EntryListing {
        id,
        track_id: id + 100,
        track,
    }
}

fn present(missing: bool) -> EntryTrack {
    EntryTrack {
        title: Some("Midnight".to_owned()),
        artist: None,
        duration_ms: Some(273_000),
        missing,
    }
}

#[test]
fn playlist_track_model_row_data_returns_every_role() {
    let mut model = PlaylistTrackModel::new(String::new());
    assert!(model.refresh_rows(1, EntriesRead::Entries(vec![entry(11, Some(present(false)))])));
    assert_eq!(model.row_count(), 1);
    assert_eq!(model.row_data(0, ENTRY_ID), RoleValue::Int(11));
    assert_eq!(model.row_data(0, ENTRY_DURATION_MS), RoleValue::Int(273_000));
    assert_eq!(model.row_data(0, ENTRY_DANGLING), RoleValue::Flag(false));
    assert_eq!(model.row_data(0, i32::MAX), RoleValue::Invalid);
    assert_eq!(model.row_data(99, ENTRY_ID), RoleValue::Invalid);
}

#[test]
fn dangling_entries_render_placeholders() {
    let row = display_entry(&entry(4, None));
    assert!(row.dangling, "dangling flag set");
    assert_eq!(row.title, "Unavailable track");
    assert_eq!(row.artist, "Removed from library");
    let known = display_entry(&entry(5, Some(present(false))));
    assert_eq!(known.artist, "Unknown Artist");
}

#[test]
fn playable_guard_rejects_dangling() {
    let mut model = PlaylistTrackModel::new(String::new());
    assert!(model.refresh_rows(
        2,
        EntriesRead::Entries(vec![
            entry(1, Some(present(false))),
            entry(2, Some(present(true))),
            entry(3, None),
        ])
    ));
    assert!(model.is_playable_at(0));
    assert!(!model.is_playable_at(1), "missing files never play");
    assert!(!model.is_playable_at(2), "dangling rows never play");
    assert!(!model.is_playable_at(99));
    assert_eq!(model.entry_id_at(2), 3);
    assert_eq!(model.track_id_at(0), 101);
    assert_eq!(model.track_id_at(-1), -1);
    assert_eq!(model.edit_target(1), Some((2, 2)));
    assert_eq!(model.edit_target(99), None);
}

#[test]
fn playlist_track_model_missing_index_loads_zero_rows() {
    let mut model = PlaylistTrackModel::new("/nowhere/library.db".to_owned());
    assert!(!model.refresh_rows(1, EntriesRead::NoIndex));
    assert_eq!(model.row_count(), 0);
    assert!(model.error_message().is_some_and(|text| !text.is_empty()));
    assert!(!model.refresh_rows(1, EntriesRead::PlaylistGone));
    assert_eq!(
        model.error_message().as_deref(),
        Some("That playlist is no longer in the library.")
    );
}

#[test]
fn adding_to_the_detail_needs_an_open_playlist() {
    let mut model = PlaylistTrackModel::new(String::new());
    assert_eq!(model.add_target(true, TrackFound::Present), None);
    assert_eq!(model.error_message().as_deref(), Some("Open a playlist first."));
    model.refresh_rows(6, EntriesRead::Entries(Vec::new()));
    assert_eq!(model.add_target(false, TrackFound::Present), None);
    assert_eq!(model.add_target(true, TrackFound::Present), Some(6));
    assert_eq!(model.track_added(Err(IndexRead::Unreadable)), 0);
    assert_eq!(
        model.error_message().as_deref(),
        Some("The music library cannot be read.")
    );
    assert_eq!(model.track_added(Ok(())), 1);
}
