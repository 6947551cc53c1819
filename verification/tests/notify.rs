use tunex::notify::{should_notify, should_notify_error, track_body};

#[test]
fn track_body_joins_known_parts_only() {
    assert_eq!(
        track_body(Some("Nova Rae"), Some("Night Tapes")),
        "Nova Rae — Night Tapes"
    );
    assert_eq!(track_body(Some("Nova Rae"), None), "Nova Rae");
    assert_eq!(track_body(None, Some("Night Tapes")), "Night Tapes");
    assert_eq!(track_body(None, None), "");
}

#[test]
fn should_notify_fires_only_on_new_tracks() {
    assert!(
        !should_notify(None, None, false, true, true),
        "nothing loaded, no toast"
    );
    assert!(
        should_notify(None, Some("file:///a.flac"), false, true, true),
        "first track while unfocused"
    );
    assert!(
        !should_notify(
            Some("file:///a.flac"),
            Some("file:///a.flac"),
            false,
            true,
            true
        ),
        "repeat is not a change"
    );
    assert!(
        should_notify(
            Some("file:///a.flac"),
            Some("file:///b.flac"),
            false,
            true,
            true
        ),
        "advance notifies when unfocused"
    );
    assert!(
        !should_notify(
            Some("file:///a.flac"),
            Some("file:///b.flac"),
            true,
            true,
            true
        ),
        "focused skip stays silent"
    );
    assert!(
        !should_notify(Some("file:///a.flac"), None, false, true, true),
        "stops never notify"
    );
    assert!(
        !should_notify(
            Some("file:///a.flac"),
            Some("file:///b.flac"),
            false,
            false,
            true
        ),
        "master off"
    );
    assert!(
        !should_notify(
            Some("file:///a.flac"),
            Some("file:///b.flac"),
            false,
            true,
            false
        ),
        "track-change off"
    );
}

#[test]
fn should_notify_error_ignores_focus() {
    assert!(should_notify_error(true, true));
    assert!(!should_notify_error(false, true));
    assert!(!should_notify_error(true, false));
}
