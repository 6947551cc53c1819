use tunex::browse::{AlbumSummary, ArtistSummary};
use tunex::config::{LibraryProfile, TunexConfig, WindowConfig};
use tunex::error::Error;
use tunex::library::{LibraryCore, RescanDecision};
use tunex::library_manager::LibraryManager;
use tunex::tray::TrayHub;
use tunex::tray_controller::{TrayController, TrayControllerRust};

fn controller() -> TrayController {
    TrayController {
        rust: TrayControllerRust {
            window: WindowConfig::default(),
        },
    }
}

#[test]
fn close_to_tray_persists() {
    let mut ctl = controller();
    let hub = TrayHub::new();
    assert!(ctl.close_to_tray(), "default is on");
    ctl.set_close_to_tray(false);
    assert!(!ctl.close_to_tray());
    assert!(!ctl.rust.window.close_to_tray);
    assert!(!ctl.hide_on_close(&hub), "no tray host: close still quits");
}

#[test]
fn window_geometry_persists() {
    let mut ctl = controller();
    assert_eq!(ctl.window_width(), 1280);
    assert_eq!(ctl.window_height(), 800);
    assert!(!ctl.has_window_position());
    ctl.set_window_geometry(48, 64, 1100, 760);
    assert!(ctl.has_window_position());
    assert_eq!(ctl.window_x(), 48);
    assert_eq!(ctl.window_y(), 64);
    assert_eq!(ctl.window_width(), 1100);
    assert_eq!(ctl.window_height(), 760);
    assert_eq!(ctl.rust.window.width, 1100);
    assert_eq!(ctl.rust.window.x, Some(48));
    ctl.set_window_geometry(0, 0, -5, 10);
    assert_eq!(ctl.rust.window.width, 0, "negative sizes store as zero");
    assert_eq!(ctl.window_width(), 1280, "unset restores the default");
    assert_eq!(ctl.window_height(), 640, "small sizes clamp up");
}

#[test]
fn tray_controller_publishes_now_playing() {
    let ctl = controller();
    let mut hub = TrayHub::new();
    assert!(!ctl.set_now_playing(&mut hub, "Blue Hour".to_owned(), "Nova Rae".to_owned(), true));
    hub.install();
    assert!(ctl.set_now_playing(&mut hub, "Blue Hour".to_owned(), "Nova Rae".to_owned(), true));
    assert!(!ctl.set_now_playing(&mut hub, "Blue Hour".to_owned(), "Nova Rae".to_owned(), true));
    assert!(ctl.poll(&mut hub).is_empty());
    hub.set_available(true);
    assert!(ctl.is_available(&hub));
    assert!(ctl.hide_on_close(&hub));
}

fn manager() -> LibraryManager {
    LibraryManager {
        core: LibraryCore::with_paths("/cfg/config.toml".to_owned(), "/data/library.db".to_owned()),
        settings: TunexConfig::default(),
    }
}

#[test]
fn manager_folders_and_scans() {
    let mut m = manager();
    m.settings.library_roots = vec!["/music".to_owned()];
    assert!(matches!(m.startup(), RescanDecision::Start(_)));
    assert!(m.is_scanning());
    assert_eq!(m.folder_count(), 1);
    assert_eq!(m.folder_at(0), "/music");
    assert_eq!(m.folder_at(3), "");
    assert!(m.poll(0, &Vec::new(), true).is_none());
    assert!(m.take_finished());
    assert!(!m.take_finished());
    assert!(!m.is_watching());
    assert!(matches!(m.rescan(), RescanDecision::Start(_)));
}

#[test]
fn view_prefs_persist() {
    let mut m = manager();
    m.remember_search("  Nova  ");
    m.remember_search("x");
    assert_eq!(m.recent_search_count(), 1);
    assert_eq!(m.recent_search_at(0), "Nova");
    assert_eq!(m.recent_search_at(1), "");
}

#[test]
fn album_and_artist_headers_fill_unknowns() {
    let m = manager();
    let album = Some(AlbumSummary {
        id: 3,
        title: "Night Tapes".to_owned(),
        artist: None,
        year: Some(5_000_000_000),
        track_count: 2,
        art_source: None,
    });
    assert_eq!(m.album_title(&album), "Night Tapes");
    assert_eq!(m.album_artist(&album), "Unknown Artist");
    assert_eq!(m.album_year(&album), 0, "years outside i32 show as unknown");
    assert_eq!(m.album_track_count(&album), 2);
    assert_eq!(m.album_track_count(&None), 0);
    assert_eq!(m.album_duration_ms(i64::MAX), 0);
    assert_eq!(m.album_duration_ms(600_000), 600_000);
    let artist = Some(ArtistSummary {
        name: "Nova Rae".to_owned(),
        album_count: 2,
        track_count: 3,
    });
    assert_eq!(m.artist_album_count(&artist), 2);
    assert_eq!(m.artist_track_count(&artist), 3);
}

#[test]
fn manager_profiles_list_default_first() {
    let mut m = manager();
    assert_eq!(m.profile_count(), 1);
    assert_eq!(m.create_profile("Work Music"), "work-music");
    assert_eq!(m.profile_count(), 2);
    assert_eq!(m.profile_id_at(0), "");
    assert_eq!(m.profile_name_at(0), "Default");
    assert_eq!(m.profile_id_at(1), "work-music");
    assert_eq!(m.profile_name_at(1), "Work Music");
    assert_eq!(m.profile_name_at(2), "");
    assert_eq!(m.create_profile("   "), "");
    assert_eq!(m.error_text(), "invalid configuration: profile name must not be blank");
    assert!(!m.musicbrainz_on());
    m.set_musicbrainz_on(true);
    assert!(m.musicbrainz_on());
}

#[test]
fn save_track_tags_reports_failures() {
    let mut m = manager();
    let edit = m.tag_edit("Title\u{1f}\u{1f}Album\u{1f}4");
    assert_eq!(edit.title.as_deref(), Some("Title"));
    assert_eq!(edit.artist, None);
    assert_eq!(edit.track_number, Some(4));
    assert_eq!(m.tags_saved(Ok(())), 1);
    assert_eq!(m.tags_saved(Err(Error::Database("read only".to_owned()))), 0);
    assert_eq!(m.error_text(), "database error: read only");
}

#[test]
fn remove_track_and_reveal_surface_failures() {
    let mut m = manager();
    assert!(!m.remove_track(Err(Error::Database("no such row".to_owned()))));
    assert_eq!(m.error_text(), "database error: no such row");
    assert!(m.remove_track(Ok(())));
    assert_eq!(m.error_text(), "");
    assert_eq!(
        m.reveal_track(7, true, Ok(Some("/music/album/01.flac".to_owned()))),
        Some("/music/album".to_owned())
    );
    assert_eq!(m.error_text(), "");
    assert_eq!(m.reveal_track(7, false, Ok(None)), None);
    assert_eq!(m.error_text(), "invalid configuration: library index is not ready");
    assert_eq!(m.reveal_track(42, true, Ok(None)), None);
    assert_eq!(m.error_text(), "invalid configuration: track 42 is not in the library");
    assert_eq!(m.reveal_track(-3, true, Ok(None)), None);
    assert_eq!(m.error_text(), "invalid configuration: track -3 is not in the library");
    assert_eq!(m.reveal_track(7, true, Err(Error::Database("locked".to_owned()))), None);
    assert_eq!(m.error_text(), "database error: locked");
}

#[test]
fn watcher_follows_the_folders() {
    let mut m = manager();
    assert!(!m.is_watching(), "a fresh manager watches nothing");
    m.core.restart_watcher(true);
    assert!(!m.is_watching(), "no folders, no watcher");
    assert_eq!(m.add_folder(Ok("/music".to_owned())).ok(), Some(true));
    m.core.restart_watcher(true);
    assert!(m.is_watching(), "watcher follows folders");
    m.core.restart_watcher(false);
    assert!(!m.is_watching(), "a watcher that fails to start leaves it unwatched");
}

#[test]
fn startup_scans_exactly_when_folders_are_configured() {
    let mut m = manager();
    assert!(matches!(m.startup(), RescanDecision::NothingToScan));
    assert!(!m.is_scanning());
    assert_eq!(m.folder_count(), 0);
}

#[test]
fn manager_remembers_tab_and_sort_choices() {
    let mut m = manager();
    assert_eq!(m.library_tab(), "");
    m.set_library_tab("albums".to_owned());
    m.set_songs_sort("date".to_owned());
    m.set_albums_sort("year".to_owned());
    m.set_artists_sort("name".to_owned());
    assert_eq!(m.library_tab(), "albums");
    assert_eq!(m.songs_sort(), "date");
    assert_eq!(m.albums_sort(), "year");
    assert_eq!(m.artists_sort(), "name");
    m.set_songs_sort("title".to_owned());
    assert_eq!(m.songs_sort(), "title");
    assert_eq!(m.library_tab(), "albums", "other choices stay");
}

#[test]
fn manager_poll_with_no_folders_reports_nothing_to_scan() {
    let mut m = manager();
    assert!(matches!(m.poll(1, &Vec::new(), false), Some(RescanDecision::NothingToScan)));
    assert!(!m.is_scanning());
}

#[test]
fn manager_folders_persist_as_the_default_profile_roots() {
    let mut m = manager();
    assert_eq!(m.add_folder(Ok("/music".to_owned())).ok(), Some(true));
    assert_eq!(m.add_folder(Ok("/podcasts".to_owned())).ok(), Some(true));
    assert_eq!(m.settings.library_roots, ["/music", "/podcasts"]);
    assert_eq!(m.add_folder(Ok("/music".to_owned())).ok(), Some(false));
    assert_eq!(m.remove_folder("/music"), Some("/music".to_owned()));
    assert_eq!(m.settings.library_roots, ["/podcasts"]);
    assert_eq!(m.remove_folder("/elsewhere"), None);
    assert_eq!(m.settings.library_roots, ["/podcasts"]);
}

#[test]
fn manager_folders_persist_as_the_named_profile_roots() {
    let mut m = manager();
    m.settings.profiles.push(LibraryProfile {
        id: "work-music".to_owned(),
        name: "Work Music".to_owned(),
        library_roots: Vec::new(),
    });
    let step = m.switch_profile("work-music", "/data").expect("profile exists");
    assert!(step.is_some());
    assert_eq!(m.settings.active_profile, "work-music");
    assert_eq!(m.add_folder(Ok("/office".to_owned())).ok(), Some(true));
    assert_eq!(m.settings.profiles[0].library_roots, ["/office"]);
    assert!(m.settings.library_roots.is_empty(), "the default profile keeps its roots");
    assert!(m.switch_profile("ghost", "/data").is_err());
    assert_eq!(m.settings.active_profile, "work-music");
}
