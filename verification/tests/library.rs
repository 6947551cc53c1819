use tunex::config::{LibraryProfile, TunexConfig};
use tunex::error::Error;
use tunex::library::{
    LibraryCore, RescanDecision, ScanStats, combine_stats, fresh_profile_id, parent_dir_for_path,
    profiles,
    switch_target, track_value, TrackTags,
};

#[test]
fn parent_dir_for_path_strips_the_file() {
    assert_eq!(parent_dir_for_path("/music/album/track.flac"), "/music/album");
    assert_eq!(parent_dir_for_path("/lonely.flac"), "/");
}

#[test]
fn parent_dir_falls_back_to_the_path_itself() {
    assert_eq!(parent_dir_for_path("/"), "/");
    assert_eq!(parent_dir_for_path("track.flac"), "track.flac");
}

fn fresh_core() -> LibraryCore {
    LibraryCore::with_paths("/cfg/config.toml".to_owned(), "/data/library.db".to_owned())
}

#[test]
fn fresh_core_is_idle_with_no_folders() {
    let core = fresh_core();
    assert!(!core.is_scanning());
    assert!(core.folders().is_empty());
    assert_eq!(core.status_text(), "Idle");
    assert!(core.error_text().is_none());
}

#[test]
fn a_scan_request_while_busy_runs_once_afterwards() {
    let mut core = fresh_core();
    assert_eq!(core.add_folder(Ok("/music".to_owned())).ok(), Some(true));
    assert!(matches!(core.rescan(), RescanDecision::Start(_)));
    assert!(matches!(core.rescan(), RescanDecision::Queued));
    let progress = vec![ScanStats { files_seen: 3, tracks_added: 2, ..ScanStats::zero() }];
    assert_eq!(core.status_text(), "Scanning… 0 files · 0 tracks");
    let next = core.poll(0, &progress, true);
    assert!(matches!(next, Some(RescanDecision::Start(_))), "queued run starts");
    assert!(core.is_scanning());
    assert!(core.take_finished(), "the run that ended is reported");
    assert!(!core.take_finished(), "the follow-up run is not finished yet");
    assert!(core.poll(0, &Vec::new(), true).is_none());
    assert!(core.take_finished());
    assert!(!core.take_finished(), "reported exactly once");
    assert_eq!(core.status_text(), "Up to date · 2 tracks from 3 files");
}

#[test]
fn watcher_batch_triggers_a_follow_up_scan() {
    let mut core = fresh_core();
    core.startup(vec!["/music".to_owned()]);
    assert!(core.is_scanning());
    assert!(core.poll(1, &Vec::new(), false).is_none(), "busy: queued");
    assert!(matches!(core.poll(0, &Vec::new(), true), Some(RescanDecision::Start(_))));
}

#[test]
fn non_directory_pick_errors_loudly() {
    let mut core = fresh_core();
    let err = Error::Config("/music/song.flac is not a directory".to_owned());
    assert!(core.add_folder(Err(err)).is_err());
    assert_eq!(
        core.error_text().as_deref(),
        Some("invalid configuration: /music/song.flac is not a directory")
    );
    assert!(core.folders().is_empty());
}

#[test]
fn duplicate_folders_are_not_added_twice() {
    let mut core = fresh_core();
    assert_eq!(core.add_folder(Ok("/music".to_owned())).ok(), Some(true));
    assert_eq!(core.add_folder(Ok("/music".to_owned())).ok(), Some(false));
    assert_eq!(core.remove_folder("/music"), Some("/music".to_owned()));
    assert_eq!(core.remove_folder("/music"), None);
    assert!(core.folders().is_empty());
}

#[test]
fn create_profile_and_musicbrainz_stay_off() {
    let mut core = fresh_core();
    let mut config = TunexConfig::default();
    assert!(!config.enrichment.musicbrainz, "`MusicBrainz` stays off until the user opts in");
    let id = core.create_profile(&mut config.profiles, "Work Music").expect("create");
    assert_eq!(id, "work-music");
    let rows = profiles(&config);
    assert_eq!(rows[0], (String::new(), "Default".to_owned()));
    assert_eq!(rows[1], ("work-music".to_owned(), "Work Music".to_owned()));
    assert!(core.create_profile(&mut config.profiles, "").is_err());
    assert_eq!(
        core.error_text().as_deref(),
        Some("invalid configuration: profile name must not be blank")
    );
}

#[test]
fn repeated_profile_names_get_numbered_ids() {
    let mut core = fresh_core();
    let mut config = TunexConfig::default();
    assert_eq!(core.create_profile(&mut config.profiles, "Mix").unwrap(), "mix");
    assert_eq!(core.create_profile(&mut config.profiles, " Mix ").unwrap(), "mix-2");
    assert_eq!(core.create_profile(&mut config.profiles, "mix").unwrap(), "mix-3");
    assert_eq!(core.create_profile(&mut config.profiles, "Default").unwrap(), "default-2");
    assert_eq!(config.profiles[1].name, "Mix");
}

#[test]
fn fresh_profile_id_skips_taken_ids() {
    let taken = vec![
        LibraryProfile { id: "a".to_owned(), name: "A".to_owned(), library_roots: Vec::new() },
        LibraryProfile { id: "a-2".to_owned(), name: "A".to_owned(), library_roots: Vec::new() },
    ];
    assert_eq!(fresh_profile_id(&taken, "a"), "a-3");
    assert_eq!(fresh_profile_id(&taken, "b"), "b");
}

#[test]
fn switching_to_a_missing_profile_is_refused() {
    let mut core = fresh_core();
    let mut config = TunexConfig::default();
    assert!(core.switch_profile(&mut config, "ghost", "/data").is_err());
    assert_eq!(
        core.error_text().as_deref(),
        Some("invalid configuration: profile ghost is gone")
    );
    assert_eq!(switch_target("default"), "");
    assert_eq!(switch_target("Work Music"), "work-music");
}

#[test]
fn switching_profiles_moves_index_and_folders() {
    let mut core = fresh_core();
    let mut config = TunexConfig::default();
    config.profiles.push(LibraryProfile {
        id: "work".to_owned(),
        name: "Work".to_owned(),
        library_roots: vec!["/work/music".to_owned()],
    });
    let step = core.switch_profile(&mut config, "work", "/data").expect("switch");
    assert!(matches!(step, Some(RescanDecision::Start(_))));
    assert_eq!(config.active_profile, "work");
    assert_eq!(core.db_path, "/data/profiles/work/library.db");
    assert_eq!(core.folders(), vec!["/work/music".to_owned()]);
    assert!(core.switch_profile(&mut config, "work", "/data").expect("same").is_none());
}

#[test]
fn track_value_reads_one_field() {
    let tags = TrackTags {
        title: Some("One".to_owned()),
        artist: None,
        album: None,
        genre: None,
        composer: None,
        year: Some(2024),
        track_number: Some(-1),
        disc_number: None,
    };
    assert_eq!(track_value(Some(tags), "title"), "One");
    assert_eq!(track_value(None, "title"), "");
    let tags = TrackTags {
        title: None,
        artist: None,
        album: None,
        genre: None,
        composer: None,
        year: Some(2024),
        track_number: Some(-1),
        disc_number: None,
    };
    assert_eq!(track_value(Some(tags), "year"), "2024");
}

#[test]
fn a_created_profile_can_be_switched_to() {
    let mut core = fresh_core();
    let mut config = TunexConfig::default();
    core.create_profile(&mut config.profiles, "Road Trip").unwrap();
    let id = core.create_profile(&mut config.profiles, "road trip").unwrap();
    assert_eq!(id, "road-trip-2");
    assert!(core.switch_profile(&mut config, &id, "/data").expect("switch").is_some());
    assert_eq!(config.active_profile, "road-trip-2");
    assert_eq!(core.db_path, "/data/profiles/road-trip-2/library.db");
}

#[test]
fn progress_across_roots_adds_counter_by_counter() {
    let total = ScanStats {
        files_seen: 10,
        tracks_added: 7,
        tracks_unchanged: 2,
        metadata_failed: 1,
        renamed: 0,
        missing_marked: 3,
    };
    let snapshot = ScanStats {
        files_seen: 5,
        tracks_added: 4,
        tracks_unchanged: 1,
        metadata_failed: 0,
        renamed: 2,
        missing_marked: 0,
    };
    let s = combine_stats(total, snapshot);
    assert_eq!(
        (s.files_seen, s.tracks_added, s.tracks_unchanged, s.metadata_failed, s.renamed, s.missing_marked),
        (15, 11, 3, 1, 2, 3)
    );
}

#[test]
fn a_run_that_ends_as_a_queued_rescan_starts_is_still_reported() {
    let mut core = LibraryCore::with_paths("/cfg/config.toml".to_owned(), "/data/library.db".to_owned());
    assert_eq!(core.add_folder(Ok("/music".to_owned())).ok(), Some(true));
    assert!(matches!(core.rescan(), RescanDecision::Start(_)));
    assert!(matches!(core.rescan(), RescanDecision::Queued));
    let next = core.poll(0, &Vec::new(), true);
    assert!(matches!(next, Some(RescanDecision::Start(_))), "the queued rescan starts");
    assert!(core.is_scanning());
    assert!(core.take_finished(), "the run that just ended is reported");
    assert!(!core.take_finished(), "once");
}
