use tunex::error::Error;
use tunex::playback::{
    PlaybackState, PlayerEvent, RepeatMode, duration_to_us, next_repeat, repeat_to_int,
    state_to_int, us_to_ms_saturating,
};

#[test]
fn config_error_display_carries_message() {
    let err = Error::Config("music folder is not a directory".to_owned());
    assert_eq!(
        err.message(),
        "invalid configuration: music folder is not a directory"
    );
}

#[test]
fn cancelled_error_display_is_stable() {
    assert_eq!(Error::Cancelled.message(), "operation cancelled");
}

#[test]
fn io_error_names_path_and_cause() {
    let err = Error::Io {
        path: "/music".to_owned(),
        detail: "permission denied".to_owned(),
    };
    assert_eq!(err.message(), "cannot access `/music`: permission denied");
    assert_eq!(
        Error::Database("locked".to_owned()).message(),
        "database error: locked"
    );
    assert_eq!(
        Error::Player("no sink".to_owned()).message(),
        "playback error: no sink"
    );
}

#[test]
fn default_state_is_stopped() {
    assert_eq!(PlaybackState::default(), PlaybackState::Stopped);
}

#[test]
fn state_changed_event_carries_state() {
    let event = PlayerEvent::StateChanged(PlaybackState::Playing);
    assert!(matches!(
        event,
        PlayerEvent::StateChanged(PlaybackState::Playing)
    ));
}

#[test]
fn repeat_cycles_off_all_one_off() {
    let mut mode = RepeatMode::default();
    let mut codes = Vec::new();
    for _ in 0..3 {
        mode = next_repeat(mode);
        codes.push(repeat_to_int(mode));
    }
    assert_eq!(codes, vec![1, 2, 0]);
    assert_eq!(mode, RepeatMode::Off);
}

#[test]
fn state_codes_follow_the_panel_numbering() {
    assert_eq!(state_to_int(PlaybackState::Stopped), 0);
    assert_eq!(state_to_int(PlaybackState::Loading), 1);
    assert_eq!(state_to_int(PlaybackState::Playing), 2);
    assert_eq!(state_to_int(PlaybackState::Paused), 3);
}

#[test]
fn microsecond_conversions_saturate() {
    assert_eq!(duration_to_us(1_500_000), 1_500_000);
    assert_eq!(duration_to_us(u128::MAX), i64::MAX);
    assert_eq!(us_to_ms_saturating(-5), 0);
    assert_eq!(us_to_ms_saturating(2_500_999), 2_500);
    assert_eq!(us_to_ms_saturating(i64::MAX), i32::MAX);
}
