use tunex::art::{ArtCore, ArtRequest, CachedArt};
use tunex::browse::{
    AlbumListModel, AlbumRow, AlbumSummary, ArtistListModel, ArtistSummary, FacetGroup,
    FacetKind, FacetListModel, FolderListModel, IndexedTrack, LibraryTrackModel, RoleValue,
    TrackListModelRust, TrackListRoles, ALBUM_ART_URL, ALBUM_ID, ALBUM_TITLE, FACET_NAME,
    FACET_TRACK_COUNT, TRACK_LIST_ARTIST, TRACK_LIST_TITLE, display_album, display_artist,
    display_row, display_facet, display_folder, FolderGroup, ARTIST_ALBUM_COUNT, ARTIST_NAME,
    ARTIST_TRACK_COUNT, FOLDER_NAME, FOLDER_PATH, FOLDER_TRACK_COUNT, artist_album_exclusion,
};
use tunex::search::SearchCore;

fn model_with_two_tracks() -> TrackListModelRust {
    let mut model = TrackListModelRust::new();
    model.push_row("Midnight".to_owned(), "Nova Rae".to_owned());
    model.push_row("Solace".to_owned(), "Nove".to_owned());
    model
}

#[test]
fn track_list_model_push_row_returns_sequential_indices() {
    let mut model = TrackListModelRust::new();
    assert_eq!(model.push_row("A".to_owned(), "B".to_owned()), 0);
    assert_eq!(model.push_row("C".to_owned(), "D".to_owned()), 1);
}

#[test]
fn track_list_model_row_count_tracks_push_and_drop() {
    let mut model = model_with_two_tracks();
    assert_eq!(model.row_count(), 2);
    model.drop_rows();
    assert_eq!(model.row_count(), 0);
}

#[test]
fn row_data_returns_title_and_artist() {
    let model = model_with_two_tracks();
    assert_ne!(
        model.row_data(1, TrackListRoles { repr: TRACK_LIST_TITLE }),
        RoleValue::Invalid
    );
    assert_eq!(
        model.row_data(1, TrackListRoles { repr: TRACK_LIST_ARTIST }),
        RoleValue::Text("Nove".to_owned())
    );
}

#[test]
fn track_list_model_row_data_for_unknown_role_yields_default() {
    let model = model_with_two_tracks();
    assert_eq!(
        model.row_data(0, TrackListRoles { repr: i32::MAX }),
        RoleValue::Invalid
    );
}

#[test]
fn track_list_model_row_data_out_of_range_yields_default() {
    let model = model_with_two_tracks();
    assert_eq!(
        model.row_data(99, TrackListRoles { repr: TRACK_LIST_TITLE }),
        RoleValue::Invalid
    );
}

#[test]
fn roles_debug_names_known_and_unknown_variants() {
    assert_eq!(
        TrackListRoles { repr: TRACK_LIST_TITLE }.debug_name(),
        "TrackListRoles::Title"
    );
    assert_eq!(
        TrackListRoles { repr: TRACK_LIST_ARTIST }.debug_name(),
        "TrackListRoles::Artist"
    );
    assert_eq!(
        TrackListRoles { repr: i32::MAX }.debug_name(),
        "TrackListRoles::Unknown"
    );
}

fn untagged(id: i64) -> IndexedTrack {
    IndexedTrack {
        id,
        title: None,
        artist: None,
        album: None,
        track_number: None,
        duration_ms: None,
        missing: true,
    }
}

#[test]
fn display_row_keeps_unknowns_visible() {
    let row = display_row(&untagged(1));
    assert_eq!(row.track_id, 1);
    assert_eq!(row.title, "Unknown Title");
    assert_eq!(row.artist, "Unknown Artist");
    assert_eq!(row.album, "Unknown Album");
    assert_eq!((row.track_number, row.duration_ms, row.missing), (0, 0, true));
}

#[test]
fn display_row_saturates_large_numbers() {
    let mut t = untagged(i64::MAX);
    t.track_number = Some(i64::from(i32::MAX) + 1);
    t.duration_ms = Some(273_000);
    let row = display_row(&t);
    assert_eq!(row.track_id, i32::MAX);
    assert_eq!(row.track_number, 0, "out-of-range numbers show as 0");
    assert_eq!(row.duration_ms, 273_000);
}

#[test]
fn track_id_at_resolves_rows_or_negative() {
    let model = LibraryTrackModel {
        tracks: vec![display_row(&untagged(7)), display_row(&untagged(9))],
        search: SearchCore::with_db_path(String::new()),
    };
    assert_eq!(model.track_id_at(0), 7);
    assert_eq!(model.track_id_at(1), 9);
    assert_eq!(model.track_id_at(2), -1);
    assert_eq!(model.track_id_at(-1), -1);
    assert_eq!(model.row_data(0, 6), RoleValue::Int(7));
    assert_eq!(model.row_data(0, 5), RoleValue::Flag(true));
    assert_eq!(model.row_data(0, 99), RoleValue::Invalid);
}

#[test]
fn song_search_settles_into_display_rows_once() {
    let mut model = LibraryTrackModel {
        tracks: Vec::new(),
        search: SearchCore::with_db_path(String::new()),
    };
    let generation = model.search.submit();
    assert!(model.is_searching());
    assert!(model.search.receive(generation, Ok(vec![untagged(3)]), Vec::new()));
    assert!(!model.is_searching());
    let rows = model.poll_search_rows().expect("results land");
    assert_eq!(rows.len(), 1);
    assert_eq!(rows[0].title, "Unknown Title");
    assert!(model.poll_search_rows().is_none(), "taken once");
}

#[test]
fn artist_rows_saturate_counts() {
    let row = display_artist(&ArtistSummary {
        name: "Nova Rae".to_owned(),
        album_count: 2,
        track_count: i64::MAX,
    });
    assert_eq!(row.name, "Nova Rae");
    assert_eq!((row.album_count, row.track_count), (2, i32::MAX));
    let model = ArtistListModel {
        artists: Vec::new(),
        search: SearchCore::with_db_path(String::new()),
    };
    assert!(!model.is_searching());
}

#[test]
fn row_data_returns_name_and_count() {
    let mut model = FacetListModel::new();
    assert_eq!(model.refresh_composers(), FacetKind::Composers);
    assert_eq!(model.refresh_genres(), FacetKind::Genres);
    model.load(&vec![FacetGroup {
        name: "Ambient".to_owned(),
        track_count: 12,
    }]);
    assert_eq!(model.row_count(), 1);
    assert_eq!(model.name_at(0), "Ambient");
    assert_eq!(model.name_at(1), "");
    assert_eq!(model.row_data(0, FACET_NAME), RoleValue::Text("Ambient".to_owned()));
    assert_eq!(model.row_data(0, FACET_TRACK_COUNT), RoleValue::Int(12));
    assert_eq!(model.row_data(0, i32::MAX), RoleValue::Invalid);
}

#[test]
fn folder_list_model_push_row_returns_sequential_indices() {
    let mut model = FolderListModel { folders: Vec::new() };
    assert_eq!(model.push_row("/music/a".to_owned(), "a".to_owned(), 3), 0);
    assert_eq!(model.push_row("/music/b".to_owned(), "b".to_owned(), 1), 1);
    assert_eq!(model.path_at(1), "/music/b");
    assert_eq!(model.name_at(0), "a");
    assert_eq!(model.path_at(5), "");
}

fn album(id: i64, art: Option<&str>) -> AlbumSummary {
    AlbumSummary {
        id,
        title: format!("Album {id}"),
        artist: None,
        year: Some(2024),
        track_count: 2,
        art_source: art.map(str::to_owned),
    }
}

fn album_model(rows: Vec<AlbumRow>) -> AlbumListModel {
    AlbumListModel {
        albums: rows,
        art: ArtCore::with_cache_dir("/cache".to_owned()),
        search: SearchCore::with_db_path(String::new()),
    }
}

#[test]
fn display_album_names_unknown_artist() {
    let row = display_album(&album(4, Some("/music/a1.flac")));
    assert_eq!(row.album_id, 4);
    assert_eq!(row.artist, "Unknown Artist");
    assert_eq!(row.year, 2024);
    assert_eq!(row.art_source, "/music/a1.flac");
}

#[test]
fn album_list_model_push_row_returns_sequential_indices() {
    let mut model = album_model(Vec::new());
    assert_eq!(model.push_row(display_album(&album(1, None))), 0);
    assert_eq!(model.push_row(display_album(&album(2, None))), 1);
    assert_eq!(model.album_id_at(1), 2);
    assert_eq!(model.album_id_at(9), -1);
    assert_eq!(model.title_at(0), "Album 1");
    assert_eq!(model.row_data(0, ALBUM_ID), RoleValue::Int(1));
    assert_eq!(model.row_data(0, ALBUM_TITLE), RoleValue::Text("Album 1".to_owned()));
    assert_eq!(model.row_data(5, ALBUM_ID), RoleValue::Invalid);
}

#[test]
fn art_url_is_empty_until_a_cover_resolves() {
    let mut model = album_model(vec![display_album(&album(7, Some("/music/a1.flac")))]);
    assert_eq!(model.row_data(0, ALBUM_ART_URL), RoleValue::Text(String::new()));
    assert_eq!(model.request_art(0), ArtRequest::Send { start_worker: true });
    assert!(model.art_pending());
    let landed = model.poll_art(vec![(
        7,
        Some(CachedArt {
            thumb256: "/cache/7.png".to_owned(),
            thumb512: "/cache/7@512.png".to_owned(),
        }),
    )]);
    assert_eq!(landed, vec![0]);
    assert!(!model.art_pending());
    assert_eq!(model.art_url(0), "file:///cache/7.png");
    assert_eq!(model.request_art(0), ArtRequest::Ignore, "answered rows never ask again");
}

#[test]
fn an_album_without_indexed_tracks_never_asks_for_art() {
    let mut model = album_model(vec![display_album(&album(3, None))]);
    assert_eq!(model.request_art(0), ArtRequest::Ignore);
    assert_eq!(model.request_art(-1), ArtRequest::Ignore);
    assert_eq!(model.request_art(40), ArtRequest::Ignore);
    assert!(!model.art_pending());
}

#[test]
fn a_track_without_art_answers_once_and_stays_answered() {
    let mut core = ArtCore::with_cache_dir("/cache".to_owned());
    assert_eq!(core.request(1), ArtRequest::Send { start_worker: true });
    assert_eq!(core.request(1), ArtRequest::Ignore, "in flight");
    assert_eq!(core.poll(vec![(1, None)]), vec![1]);
    assert!(core.art(1).is_none(), "no art resolves to the placeholder");
    assert_eq!(core.request(1), ArtRequest::Ignore);
    assert!(core.poll(Vec::new()).is_empty(), "an answered token is never re-asked");
}

#[test]
fn a_dead_worker_is_restarted_by_the_next_request() {
    let mut core = ArtCore::with_cache_dir("/cache".to_owned());
    assert_eq!(core.request(5), ArtRequest::Send { start_worker: true });
    assert_eq!(core.request(6), ArtRequest::Send { start_worker: false });
    core.send_failed(6);
    assert_eq!(core.request(6), ArtRequest::Send { start_worker: true });
    assert!(core.pending());
    assert_eq!(core.cache_dir(), "/cache");
}

#[test]
fn artist_search_results_replace_the_rows_once() {
    let mut model = ArtistListModel {
        artists: Vec::new(),
        search: SearchCore::with_db_path(String::new()),
    };
    model.push_row(display_artist(&ArtistSummary {
        name: "Old".to_owned(),
        album_count: 1,
        track_count: 1,
    }));
    assert!(!model.poll_search(), "nothing settled yet");
    assert_eq!(model.row_count(), 1);
    let generation = model.search.submit();
    let found = vec![
        ArtistSummary { name: "Nova Rae".to_owned(), album_count: 3, track_count: 30 },
        ArtistSummary { name: "Harbor".to_owned(), album_count: 1, track_count: i64::MAX },
    ];
    assert!(model.search.receive(generation, Ok(found), Vec::new()));
    assert!(model.poll_search());
    assert_eq!(model.row_count(), 2);
    assert_eq!(model.row_data(0, ARTIST_NAME), RoleValue::Text("Nova Rae".to_owned()));
    assert_eq!(model.row_data(0, ARTIST_ALBUM_COUNT), RoleValue::Int(3));
    assert_eq!(model.row_data(1, ARTIST_TRACK_COUNT), RoleValue::Int(i32::MAX));
    assert_eq!(model.row_data(1, 3), RoleValue::Invalid);
    assert_eq!(model.row_data(2, ARTIST_NAME), RoleValue::Invalid);
    assert!(!model.poll_search(), "taken once");
    assert_eq!(model.error_text(), None);
    model.drop_rows();
    assert_eq!(model.row_count(), 0);
}

#[test]
fn folder_groups_load_as_display_rows() {
    let mut model = FolderListModel::new();
    model.load(&vec![
        FolderGroup { path: "/music/a".to_owned(), name: "a".to_owned(), track_count: 12 },
        FolderGroup { path: "/music/b".to_owned(), name: "b".to_owned(), track_count: -1 },
        FolderGroup {
            path: "/music/c".to_owned(),
            name: "c".to_owned(),
            track_count: i64::from(i32::MAX) + 1,
        },
    ]);
    assert_eq!(model.row_count(), 3);
    assert_eq!(model.row_data(0, FOLDER_PATH), RoleValue::Text("/music/a".to_owned()));
    assert_eq!(model.row_data(1, FOLDER_NAME), RoleValue::Text("b".to_owned()));
    assert_eq!(model.row_data(1, FOLDER_TRACK_COUNT), RoleValue::Int(-1));
    assert_eq!(model.row_data(2, FOLDER_TRACK_COUNT), RoleValue::Int(i32::MAX));
    assert_eq!(model.row_data(0, 3), RoleValue::Invalid);
    assert_eq!(model.path_at(2), "/music/c");
    model.drop_rows();
    assert_eq!(model.row_count(), 0);
    let row = display_folder(&FolderGroup {
        path: "/x".to_owned(),
        name: "x".to_owned(),
        track_count: i64::MIN,
    });
    assert_eq!(row, ("/x".to_owned(), "x".to_owned(), i32::MAX), "out of range reads as the maximum");
}

#[test]
fn facet_rows_saturate_their_counts() {
    let row = display_facet(&FacetGroup { name: "Jazz".to_owned(), track_count: i64::MAX });
    assert_eq!(row, ("Jazz".to_owned(), i32::MAX));
}

#[test]
fn song_and_album_searches_land_in_their_rows() {
    let mut songs = LibraryTrackModel {
        tracks: vec![display_row(&untagged(1))],
        search: SearchCore::with_db_path(String::new()),
    };
    assert!(!songs.poll_search());
    let generation = songs.search.submit();
    assert!(songs.search.receive(generation, Ok(vec![untagged(5), untagged(6)]), Vec::new()));
    assert!(songs.poll_search());
    assert_eq!(songs.track_id_at(1), 6);
    assert_eq!(songs.row_count(), 2);
    songs.drop_rows();
    assert_eq!(songs.row_count(), 0);
    let generation = songs.search.submit();
    assert!(songs.search.receive(generation, Err("index busy".to_owned()), Vec::new()));
    assert_eq!(songs.error_text(), Some("index busy".to_owned()));

    let mut albums = album_model(Vec::new());
    let generation = albums.search.submit();
    assert!(albums.search.receive(generation, Ok(vec![album(3, None)]), Vec::new()));
    assert!(albums.poll_search());
    assert_eq!(albums.album_id_at(0), 3);
    assert_eq!(albums.title_at(0), "Album 3");
    assert!(!albums.poll_search());
}

#[test]
fn more_by_artist_excludes_only_a_real_album() {
    assert_eq!(artist_album_exclusion(-1), None);
    assert_eq!(artist_album_exclusion(i32::MIN), None);
    assert_eq!(artist_album_exclusion(0), Some(0));
    assert_eq!(artist_album_exclusion(42), Some(42));
}
