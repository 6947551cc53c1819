use tunex::config::{
    DEFAULT_HEIGHT, DEFAULT_WIDTH, MIN_HEIGHT, MIN_WIDTH, TunexConfig, WindowConfig, config_dir,
    cache_dir, config_file, data_dir, join_path, library_db_path, remember_search,
    sanitize_profile_id,
    sort_dir_is_desc,
};

#[test]
fn window_geometry_clamps_and_defaults() {
    let unset = WindowConfig::default();
    assert_eq!(unset.restored_width(), DEFAULT_WIDTH);
    assert_eq!(unset.restored_height(), DEFAULT_HEIGHT);
    let tiny = WindowConfig {
        close_to_tray: true,
        width: 12,
        height: 12,
        x: Some(0),
        y: Some(0),
    };
    assert_eq!(tiny.restored_width(), MIN_WIDTH);
    assert_eq!(tiny.restored_height(), MIN_HEIGHT);
    let mut loaded = TunexConfig::default();
    loaded.window.width = 100;
    loaded.window.height = 50;
    loaded.playback.crossfade_secs = 99;
    loaded.normalize();
    assert_eq!(loaded.window.width, MIN_WIDTH);
    assert_eq!(loaded.window.height, MIN_HEIGHT);
    assert_eq!(loaded.playback.crossfade_secs, 12);
}

#[test]
fn close_to_tray_defaults_on() {
    assert!(TunexConfig::default().window.close_to_tray, "default keeps playback in the tray");
    assert!(!TunexConfig::default().enrichment.musicbrainz, "MusicBrainz is opt-in");
}

#[test]
fn library_db_lives_under_the_data_dir() {
    let data = data_dir(None, Some("/home/ana"));
    assert_eq!(data, "/home/ana/.local/share/tunex");
    assert_eq!(library_db_path(&TunexConfig::default(), &data), "/home/ana/.local/share/tunex/library.db");
    let named = TunexConfig {
        active_profile: "Work Music".to_owned(),
        ..TunexConfig::default()
    };
    assert_eq!(
        library_db_path(&named, &data),
        "/home/ana/.local/share/tunex/profiles/work-music/library.db"
    );
    assert_eq!(sanitize_profile_id("Work Music"), "work-music");
    assert!(data.ends_with("tunex"), "data dir carries the app leaf");
}

#[test]
fn user_dirs_prefer_xdg_then_home_then_local() {
    assert_eq!(config_dir(Some("/xdg"), Some("/home/ana")), "/xdg/tunex");
    assert_eq!(config_dir(None, Some("/home/ana/")), "/home/ana/.config/tunex");
    assert_eq!(config_dir(None, None), ".config/tunex");
    assert_eq!(config_file("/xdg/tunex"), "/xdg/tunex/config.toml");
    assert_eq!(join_path("/a", "/b"), "/b", "absolute leaves replace the base");
}

#[test]
fn profile_slugs_trim_hyphens_and_fall_back() {
    assert_eq!(sanitize_profile_id("  --Rock & Roll!!  "), "rock---roll");
    assert_eq!(sanitize_profile_id("!!!"), "library");
    assert_eq!(sanitize_profile_id(&"a".repeat(50)).len(), 40);
}

#[test]
fn view_prefs_sort_direction_defaults() {
    assert!(sort_dir_is_desc("date", ""), "date sorts newest first by default");
    assert!(!sort_dir_is_desc("title", ""));
    assert!(sort_dir_is_desc("title", "desc"));
}

#[test]
fn recent_searches_dedupe_ignoring_case_and_cap_at_ten() {
    let mut recent: Vec<String> = Vec::new();
    for i in 0..12 {
        recent = remember_search(&recent, &format!("query {i}"));
    }
    assert_eq!(recent.len(), 10);
    assert_eq!(recent[0], "query 11");
    recent = remember_search(&recent, "  QUERY 5 ");
    assert_eq!(recent[0], "QUERY 5");
    assert_eq!(recent.iter().filter(|q| q.eq_ignore_ascii_case("query 5")).count(), 1);
    assert_eq!(remember_search(&recent, " x "), recent, "one byte changes nothing");
}

#[test]
fn normalizing_twice_changes_nothing_more() {
    let mut config = TunexConfig::default();
    config.window.width = 300;
    config.window.height = 2000;
    config.normalize();
    let (w, h) = (config.window.width, config.window.height);
    config.normalize();
    assert_eq!((config.window.width, config.window.height), (w, h));
    assert_eq!((w, h), (MIN_WIDTH, 2000));
}

#[test]
fn remembering_the_same_query_twice_changes_nothing() {
    let once = remember_search(&vec!["old".to_owned()], " Nova ");
    let twice = remember_search(&once, " Nova ");
    assert_eq!(once, twice);
    assert_eq!(twice, vec!["Nova".to_owned(), "old".to_owned()]);
}

#[test]
fn cache_dir_follows_xdg_then_home() {
    assert_eq!(cache_dir(Some("/xdg/cache"), Some("/home/ana")), "/xdg/cache/tunex");
    assert_eq!(cache_dir(None, Some("/home/ana")), "/home/ana/.cache/tunex");
    assert_eq!(cache_dir(None, None), ".cache/tunex");
}
