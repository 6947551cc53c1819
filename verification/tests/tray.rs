use tunex::tray::{
    TrayEvent, TrayHub, TraySnapshot, is_available, publish, should_hide_on_close, take_events,
    tooltip_body, tooltip_title, EVENT_CHANNEL_DEPTH,
};

#[test]
fn hide_on_close_needs_both_setting_and_host() {
    assert!(should_hide_on_close(true, true), "setting on + host → hide");
    assert!(!should_hide_on_close(true, false), "no host must still quit");
    assert!(!should_hide_on_close(false, true), "setting off always quits");
    assert!(!should_hide_on_close(false, false));
}

#[test]
fn tooltip_uses_track_when_present() {
    assert_eq!(tooltip_title(""), "TuneX");
    assert_eq!(tooltip_title("Blue Hour"), "Blue Hour");
    assert_eq!(tooltip_body("Nova Rae", true, true), "Nova Rae");
    assert_eq!(tooltip_body("", false, false), "Nothing playing");
    assert_eq!(tooltip_body("", true, true), "Playing");
    assert_eq!(tooltip_body("", false, true), "Paused");
}

#[test]
fn take_events_is_empty_before_spawn() {
    let mut hub = TrayHub::new();
    assert!(take_events(&mut hub).is_empty());
    assert!(!is_available(&hub));
}

#[test]
fn publishing_the_same_copy_twice_changes_nothing() {
    let mut hub = TrayHub::new();
    hub.install();
    let copy = || TraySnapshot {
        title: "Blue Hour".to_owned(),
        artist: "Nova Rae".to_owned(),
        playing: true,
    };
    assert!(publish(&mut hub, copy()));
    assert!(hub.take_dirty());
    assert!(!publish(&mut hub, copy()));
    assert!(!hub.take_dirty());
    assert_eq!(hub.snapshot().title, "Blue Hour");
}

#[test]
fn host_events_drain_oldest_first_and_overflow_drops_new_ones() {
    let mut hub = TrayHub::new();
    hub.install();
    assert!(hub.push(TrayEvent::PlayPause));
    assert!(hub.push(TrayEvent::Popup { x: 3, y: 4 }));
    let drained = take_events(&mut hub);
    assert_eq!(drained.len(), 2);
    assert!(matches!(drained[0], TrayEvent::PlayPause));
    assert!(matches!(drained[1], TrayEvent::Popup { x: 3, y: 4 }));
    assert!(take_events(&mut hub).is_empty());
    for _ in 0..EVENT_CHANNEL_DEPTH {
        assert!(hub.push(TrayEvent::PlayPause));
    }
    assert!(!hub.push(TrayEvent::Menu { x: 0, y: 0 }), "full queue drops");
    assert_eq!(take_events(&mut hub).len(), EVENT_CHANNEL_DEPTH);
}

#[test]
fn publishing_before_the_tray_runs_does_nothing() {
    let mut hub = TrayHub::new();
    let copy = TraySnapshot {
        title: "Blue Hour".to_owned(),
        artist: "Nova Rae".to_owned(),
        playing: true,
    };
    assert!(!publish(&mut hub, copy));
    assert!(!hub.take_dirty());
    assert_eq!(hub.snapshot().title, "", "the idle copy is what the tray starts with");
    hub.set_available(true);
    assert!(!is_available(&hub), "no tray thread, no host");
    hub.install();
    assert!(is_available(&hub));
}
