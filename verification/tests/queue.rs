use tunex::art::{ArtRequest, CachedArt};
use tunex::config::TunexConfig;
use tunex::playback::{PlaybackState, RepeatMode};
use tunex::queue_model::{
    EngineView, Gone, PlaylistEntry, QueueItem, QueueModel, QueueStep, TrackLookup, count_to_i32,
    mpris_seek_target,
};
use tunex::queue_mpris::{LoopStatus, MprisAction, MprisCommand, map_loop, track_suffix, unmap_loop};
use tunex::queue_enqueue::{QUEUE_IS_CURRENT, QUEUE_TITLE};
use tunex::queue_session::{SavedQueue, SavedQueueItem, item_to_saved, saved_to_item};
use tunex::rows::{QueueRow, RowChange, row_change};

fn row(track_id: i32, current: bool) -> QueueRow {
    QueueRow {
        title: format!("Track {track_id}"),
        artist: "Artist".to_owned(),
        album: "Album".to_owned(),
        duration_ms: 1_000,
        is_current: current,
        track_id,
        missing: false,
    }
}

#[test]
fn row_change_announces_nothing_when_the_rows_match() {
    let rows = vec![row(1, true), row(2, false)];
    assert_eq!(row_change(&rows, &rows), RowChange::Unchanged);
}

#[test]
fn row_change_announces_an_appended_row() {
    let before = vec![row(1, true)];
    let after = vec![row(1, true), row(2, false)];
    assert_eq!(row_change(&before, &after), RowChange::Inserted(1));
}

#[test]
fn row_change_announces_a_row_inserted_mid_queue() {
    let before = vec![row(1, true), row(3, false)];
    let after = vec![row(1, true), row(2, false), row(3, false)];
    assert_eq!(row_change(&before, &after), RowChange::Inserted(1));
}

#[test]
fn row_change_announces_a_removed_row() {
    let before = vec![row(1, true), row(2, false), row(3, false)];
    let after = vec![row(1, true), row(3, false)];
    assert_eq!(row_change(&before, &after), RowChange::Removed(1));
}

#[test]
fn row_change_resets_when_the_cursor_moves() {
    let before = vec![row(1, true), row(2, false)];
    let after = vec![row(1, false), row(2, true)];
    assert_eq!(row_change(&before, &after), RowChange::Reset);
}

#[test]
fn row_change_resets_when_a_whole_album_arrives() {
    let before = vec![row(1, true)];
    let after = vec![row(1, true), row(2, false), row(3, false)];
    assert_eq!(row_change(&before, &after), RowChange::Reset);
}

fn item(n: i64) -> QueueItem {
    QueueItem {
        uri: format!("file:///music/{n}.flac"),
        title: format!("Track {n}"),
        artist: Some("Nova Rae".to_owned()),
        album: None,
        duration_ms: Some(200_000),
        track_id: Some(n),
        missing: false,
    }
}

fn engine(items: Vec<QueueItem>, cursor: Option<usize>, state: PlaybackState) -> EngineView {
    EngineView {
        items,
        cursor,
        state,
        position_ms: Some(1_500),
        duration_ms: Some(200_000),
        volume_pct: 80,
        muted: false,
        shuffle: false,
        repeat: RepeatMode::Off,
        restore_pending: false,
        equalizer_missing: false,
    }
}

#[test]
fn mpris_snapshot_without_engine_is_honest() {
    let model = QueueModel::new(TunexConfig::default(), String::new());
    let snapshot = model.mpris_snapshot(0, None);
    assert_eq!(snapshot.status, PlaybackState::Stopped);
    assert!(snapshot.track.is_none());
    assert!(!snapshot.capabilities.play);
    assert!(!snapshot.capabilities.pause);
    assert!(!snapshot.capabilities.seek);
    assert!(!snapshot.capabilities.next);
    assert!(!snapshot.capabilities.previous);
}

#[test]
fn mpris_snapshot_reports_the_loaded_track() {
    let mut model = QueueModel::new(TunexConfig::default(), String::new());
    model.sync_rows(engine(vec![item(4), item(5)], Some(0), PlaybackState::Playing));
    let snapshot = model.mpris_snapshot(1_500_000, Some(200_000_000));
    let track = snapshot.track.expect("track loaded");
    assert_eq!(track.id_suffix, "db4");
    assert_eq!(track.title, "Track 4");
    assert_eq!(track.length_us, Some(200_000_000));
    assert!(snapshot.capabilities.next && snapshot.capabilities.pause);
    assert!(snapshot.capabilities.seek && snapshot.capabilities.previous);
    assert_eq!(track_suffix(None, Some(3)), "q3");
    assert_eq!(track_suffix(Some(-2), None), "db-2");
}

#[test]
fn mpris_play_pause_on_empty_queue_stays_stopped() {
    let mut model = QueueModel::new(TunexConfig::default(), String::new());
    assert_eq!(model.apply_mpris_command(MprisCommand::PlayPause, 0), MprisAction::Play);
    assert_eq!(model.apply_mpris_command(MprisCommand::Stop, 0), MprisAction::Stop);
    assert_eq!(model.mpris_snapshot(0, None).status, PlaybackState::Stopped);
    assert_eq!(
        model.apply_mpris_command(MprisCommand::Seek { offset_us: 5 }, 0),
        MprisAction::Nothing
    );
}

#[test]
fn mpris_set_volume_drives_engine_and_persists() {
    let mut model = QueueModel::new(TunexConfig::default(), String::new());
    model.sync_rows(engine(vec![item(1)], Some(0), PlaybackState::Playing));
    // Half volume (0.5 on the bus) arrives as 50 %.
    assert_eq!(
        model.apply_mpris_command(MprisCommand::SetVolume { pct: 50 }, 0),
        MprisAction::Volume(50)
    );
    assert_eq!(model.volume_pct(), 50);
    assert_eq!(model.settings.playback.last_uri.as_deref(), Some("file:///music/1.flac"));
    assert_eq!(
        model.apply_mpris_command(MprisCommand::SetVolume { pct: 150 }, 0),
        MprisAction::Volume(100)
    );
    assert_eq!(model.volume_pct(), 100);
    assert_eq!(
        model.apply_mpris_command(MprisCommand::PlayPause, 0),
        MprisAction::Pause
    );
    assert_eq!(
        model.apply_mpris_command(MprisCommand::SetLoop(LoopStatus::Track), 0),
        MprisAction::Repeat(RepeatMode::One)
    );
    assert_eq!(model.settings.playback.repeat_mode, RepeatMode::One);
    assert_eq!(
        model.apply_mpris_command(MprisCommand::Seek { offset_us: 2_000_000 }, 1_000_000),
        MprisAction::Seek(3_000)
    );
    assert_eq!(
        model.apply_mpris_command(MprisCommand::Previous, 4_500_000),
        MprisAction::Previous(4_500)
    );
}

#[test]
fn loop_status_round_trips() {
    for mode in [RepeatMode::Off, RepeatMode::All, RepeatMode::One] {
        assert_eq!(unmap_loop(map_loop(mode)), mode);
    }
    assert_eq!(mpris_seek_target(i64::MAX, i64::MAX), i32::MAX);
    assert_eq!(mpris_seek_target(1_000, -5_000), 0);
}

#[test]
fn enqueue_unknown_track_surfaces_text() {
    let mut model = QueueModel::new(TunexConfig::default(), String::new());
    assert!(model.enqueue_track(Ok(TrackLookup::Absent)).is_none());
    assert_eq!(
        model.error_text(),
        "That track is no longer in the library."
    );
    assert!(model.play_track_next(Ok(TrackLookup::Missing)).is_none());
    assert_eq!(model.error_text(), "That file is missing from disk.");
    assert!(model.play_track_now(Ok(TrackLookup::Playable(item(2)))).is_some());
}

#[test]
fn enqueue_without_index_surfaces_empty_library() {
    let mut model = QueueModel::new(TunexConfig::default(), String::new());
    assert!(model.enqueue_track(Err(true)).is_none());
    assert_eq!(
        model.error_text(),
        "Your library is empty — add a music folder first."
    );
    let added = model.enqueue_album(Ok(Err(())), engine(Vec::new(), None, PlaybackState::Stopped));
    assert_eq!(added, 0);
    assert_eq!(model.error_text(), "That album is no longer in the library.");
}

#[test]
fn enqueue_track_syncs_one_row() {
    let mut model = QueueModel::new(TunexConfig::default(), String::new());
    let added = model.enqueued(1, engine(vec![item(7)], None, PlaybackState::Stopped));
    assert_eq!(added, 1);
    assert_eq!(model.row_count(), 1);
    assert_eq!(model.track_id_at(0), 7);
    assert_eq!(model.track_id_at(1), -1);
    assert_eq!(model.pending_change(), RowChange::Inserted(0));
    model.mark_published();
    assert_eq!(model.pending_change(), RowChange::Unchanged);
}

#[test]
fn enqueue_playlist_plays_entries_in_order_skipping_dangling() {
    let items = QueueModel::enqueue_playlist(vec![
        PlaylistEntry::Playable(item(1)),
        PlaylistEntry::Dangling,
        PlaylistEntry::Missing,
        PlaylistEntry::Playable(item(3)),
        PlaylistEntry::Unplayable,
    ]);
    let ids: Vec<Option<i64>> = items.iter().map(|i| i.track_id).collect();
    assert_eq!(ids, vec![Some(1), Some(3)]);
}

#[test]
fn insert_ids_at_position_keeps_order() {
    assert_eq!(QueueModel::enqueue_track_ids_at(1, 2, 2), vec![1, 2]);
    assert_eq!(QueueModel::enqueue_track_ids_at(9, 2, 1), vec![2], "clamped to the end");
}

#[test]
fn queue_ops_reorder_and_remove_rows() {
    let mut model = QueueModel::new(TunexConfig::default(), String::new());
    assert_eq!(model.remove_at(0), QueueStep::Skip, "no engine, no call");
    model.sync_rows(engine(vec![item(1), item(2), item(3)], Some(0), PlaybackState::Paused));
    assert_eq!(model.remove_at(1), QueueStep::Call(1));
    assert_eq!(model.remove_at(-1), QueueStep::Resync);
    assert_eq!(model.move_to_end(0), QueueStep::Call((0, 2)));
    assert_eq!(model.current_title(), "Track 1");
    assert_eq!(model.current_index(), 0);
}

#[test]
fn current_track_reads_from_playing_row() {
    let mut model = QueueModel::new(TunexConfig::default(), String::new());
    model.sync_rows(engine(vec![item(1), item(2)], Some(1), PlaybackState::Playing));
    assert_eq!(model.current_title(), "Track 2");
    assert_eq!(model.current_artist(), "Nova Rae");
    assert_eq!(model.duration_ms(), 200_000);
    assert_eq!(model.position_ms(), 1_500);
    assert_eq!(model.playback_state(), 2);
}

#[test]
fn transport_failures_surface_and_success_clears() {
    let mut model = QueueModel::new(TunexConfig::default(), String::new());
    model.play(Err("no audio sink".to_owned()), engine(Vec::new(), None, PlaybackState::Stopped));
    assert_eq!(model.error_text(), "no audio sink");
    model.next_track(Ok(()), engine(vec![item(1)], Some(0), PlaybackState::Playing));
    assert_eq!(model.error_text(), "");
    assert!(model.play_pause(), "playing: the toggle pauses");
    model.pause(Err("stuck".to_owned()), engine(vec![item(1)], Some(0), PlaybackState::Playing));
    assert_eq!(model.error_text(), "stuck");
}

#[test]
fn last_track_persists_after_play() {
    let mut model = QueueModel::new(TunexConfig::default(), String::new());
    model.sync_rows(engine(vec![item(1)], Some(0), PlaybackState::Playing));
    assert!(model.maybe_persist_session(false, 10_000), "a new track writes at once");
    assert_eq!(model.settings.playback.last_uri.as_deref(), Some("file:///music/1.flac"));
    assert_eq!(model.settings.playback.last_position_ms, 1_500);
    assert!(!model.maybe_persist_session(false, 10_100), "nothing moved");
    let mut moved = engine(vec![item(1)], Some(0), PlaybackState::Playing);
    moved.position_ms = Some(2_000);
    model.sync_rows(moved);
    assert!(!model.maybe_persist_session(false, 11_000), "ticks coalesce");
    assert!(model.maybe_persist_session(false, 12_000), "after the interval");
    assert!(model.maybe_persist_session(true, 12_001), "forced writes");
}

#[test]
fn saved_queue_restores_paused_without_autoplay() {
    let mut model = QueueModel::new(TunexConfig::default(), String::new());
    model.restored_queue(engine(vec![item(1), item(2)], Some(1), PlaybackState::Paused), 5_000, 7);
    assert_eq!(model.last_notified_uri.as_deref(), Some("file:///music/2.flac"));
    assert_eq!(model.saved_position_ms, 5_000);
    assert_eq!(model.row_count(), 0, "rows wait for the next poll");
    let changed = model.poll(
        engine(vec![item(1), item(2)], Some(1), PlaybackState::Paused),
        &Vec::new(),
        false,
    );
    assert!(changed, "the poll after a restore reports rows changed");
    assert!(!model.track_toast(Some("file:///music/2.flac".to_owned())), "resume is silent");
}

#[test]
fn last_track_restores_paused_on_new_model() {
    let mut config = TunexConfig::default();
    config.playback.last_uri = Some("file:///music/9.flac".to_owned());
    config.playback.last_position_ms = 1_500;
    let mut model = QueueModel::new(config, String::new());
    let uri = model.last_track_to_restore().expect("stored");
    model.restored_last_track(uri, engine(vec![item(9)], Some(0), PlaybackState::Paused), 1);
    assert_eq!(model.saved_uri, "file:///music/9.flac");
    assert_eq!(model.saved_position_ms, 1_500);
    assert_eq!(model.error_message(), None);
    assert_eq!(model.last_notified_uri.as_deref(), Some("file:///music/9.flac"), "no startup toast");
    assert!(model.poll(engine(vec![item(9)], Some(0), PlaybackState::Paused), &Vec::new(), false));
    assert_eq!(model.row_count(), 1);
    assert_eq!(model.pending_change(), RowChange::Unchanged, "the poll announced the row");
    assert_eq!(model.error_message(), None);
    assert_ne!(model.playback_state(), 2, "never autoplays");
    let mut empty = TunexConfig::default();
    empty.playback.last_uri = Some(String::new());
    assert!(QueueModel::new(empty, String::new()).last_track_to_restore().is_none());
}

#[test]
fn counts_saturate_into_i32() {
    assert_eq!(count_to_i32(3), 3);
    assert_eq!(count_to_i32(usize::MAX), i32::MAX);
}

#[test]
fn play_all_keeps_list_order_and_reports_failures() {
    let mut model = QueueModel::new(TunexConfig::default(), String::new());
    let lookups = vec![
        TrackLookup::Playable(item(1)),
        TrackLookup::Missing,
        TrackLookup::Playable(item(2)),
        TrackLookup::Playable(item(3)),
    ];
    let items = model.playable_from(&lookups);
    assert_eq!(items.len(), 3);
    assert_eq!(model.error_text(), "That file is missing from disk.");
    let (first, rest) = model.play_track_ids(lookups.len(), items).expect("something to play");
    assert_eq!(first.track_id, Some(1));
    let rest_ids: Vec<Option<i64>> = rest.iter().map(|i| i.track_id).collect();
    assert_eq!(rest_ids, vec![Some(3), Some(2)], "reversed for play-next inserts");
    assert!(model.play_track_ids(2, Vec::new()).is_none());
    assert_eq!(model.error_text(), "Nothing playable in that list.");
    assert!(model.play_track_ids_next(2, Vec::new()).is_empty());
    let added = model.ids_enqueued(2, engine(vec![item(1), item(2)], Some(0), PlaybackState::Playing));
    assert_eq!(added, 2);
    assert_eq!(model.error_text(), "");
    assert_eq!(model.row_data(0, QUEUE_TITLE), tunex::browse::RoleValue::Text("Track 1".to_owned()));
    assert_eq!(model.row_data(0, QUEUE_IS_CURRENT), tunex::browse::RoleValue::Flag(true));
    assert_eq!(model.row_data(7, QUEUE_TITLE), tunex::browse::RoleValue::Invalid);
}

#[test]
fn enqueue_album_and_artist_collect_in_order() {
    let mut model = QueueModel::new(TunexConfig::default(), String::new());
    let e = || engine(vec![item(1), item(2)], None, PlaybackState::Stopped);
    assert_eq!(model.enqueue_album(Ok(Ok(2)), e()), 2);
    assert_eq!(model.row_count(), 2);
    assert_eq!(model.list_enqueued(Ok(0), Gone::Artists, e()), 0);
    assert_eq!(model.error_text(), "Nothing playable in that list.");
    assert_eq!(model.list_enqueued(Err(()), Gone::Artists, e()), 0);
    assert_eq!(model.error_text(), "Those artists are no longer in the library.");
    assert_eq!(model.list_enqueued(Err(()), Gone::List, e()), 0);
    assert_eq!(model.error_text(), "That list is no longer in the library.");
    assert_eq!(model.list_enqueued(Err(()), Gone::Albums, e()), 0);
    assert_eq!(model.error_text(), "Those albums are no longer in the library.");
    assert_eq!(model.group_enqueued(Err(()), Gone::Folder, e()), 0);
    assert_eq!(model.error_text(), "That folder is no longer in the library.");
}

#[test]
fn a_fresh_engine_starts_from_the_settings() {
    let mut config = TunexConfig::default();
    config.playback.muted = true;
    config.playback.repeat_mode = RepeatMode::All;
    config.playback.crossfade_secs = 4;
    let model = QueueModel::new(config, String::new());
    let setup = model.engine_setup();
    assert!(setup.muted);
    assert_eq!(setup.repeat, RepeatMode::All);
    assert_eq!(setup.crossfade_secs, 4);
    assert!(setup.output_device.is_none(), "empty output keeps the default");
}

fn saved(n: i64, duration_ms: Option<i64>) -> SavedQueueItem {
    SavedQueueItem {
        uri: format!("file:///music/{n}.flac"),
        track_id: Some(n),
        title: format!("Track {n}"),
        artist: None,
        album: Some("Harbor".to_owned()),
        duration_ms,
    }
}

#[test]
fn up_next_is_persisted_in_order_with_cursor_and_position() {
    let mut model = QueueModel::new(TunexConfig::default(), String::new());
    assert!(model.queue_to_persist().is_none(), "no engine, nothing to write");
    model.sync_rows(engine(vec![item(4), item(5), item(6)], Some(1), PlaybackState::Paused));
    let stored = model.queue_to_persist().expect("engine exists");
    let uris: Vec<&str> = stored.items.iter().map(|i| i.uri.as_str()).collect();
    assert_eq!(uris, ["file:///music/4.flac", "file:///music/5.flac", "file:///music/6.flac"]);
    assert_eq!(stored.items[0].duration_ms, Some(200_000));
    assert_eq!(stored.items[2].track_id, Some(6));
    assert_eq!(stored.cursor, 1);
    assert_eq!(stored.position_ms, 1_500);
}

#[test]
fn up_next_is_not_persisted_while_a_restore_loads() {
    let mut model = QueueModel::new(TunexConfig::default(), String::new());
    let mut view = engine(vec![item(4)], None, PlaybackState::Stopped);
    view.restore_pending = true;
    model.sync_rows(view);
    assert!(model.queue_to_persist().is_none());
    let mut view = engine(vec![item(4)], None, PlaybackState::Stopped);
    view.position_ms = None;
    model.sync_rows(view);
    let stored = model.queue_to_persist().expect("restore finished");
    assert_eq!((stored.cursor, stored.position_ms), (0, 0));
}

#[test]
fn stored_up_next_restores_entries_in_order() {
    let restored = QueueModel::queue_to_restore(SavedQueue {
        items: vec![saved(7, Some(180_000)), saved(8, Some(0)), saved(9, None)],
        cursor: 1,
        position_ms: 42_000,
    })
    .expect("entries stored");
    assert_eq!(restored.len(), 3);
    assert_eq!(restored[0].title, "Track 7");
    assert_eq!(restored[0].duration_ms, Some(180_000));
    assert_eq!(restored[1].duration_ms, None, "zero reads back as unknown");
    assert_eq!(restored[2].track_id, Some(9));
    assert_eq!(restored[1].album.as_deref(), Some("Harbor"));
    assert!(!restored[2].missing);
    let empty = SavedQueue { items: Vec::new(), cursor: 0, position_ms: 0 };
    assert!(QueueModel::queue_to_restore(empty).is_none());
}

#[test]
fn a_stored_entry_reads_back_as_it_was_written() {
    let original = item(12);
    let back = saved_to_item(item_to_saved(original.duplicate()));
    assert_eq!(back.uri, original.uri);
    assert_eq!(back.title, original.title);
    assert_eq!(back.artist, original.artist);
    assert_eq!(back.album, original.album);
    assert_eq!(back.duration_ms, original.duration_ms);
    assert_eq!(back.track_id, original.track_id);
    let mut long = item(13);
    long.duration_ms = Some(u64::MAX);
    assert_eq!(item_to_saved(long).duration_ms, None);
}

#[test]
fn resetting_the_equalizer_picks_flat() {
    let mut model = QueueModel::new(TunexConfig::default(), String::new());
    model.set_eq_preset("electronic");
    assert_eq!(model.reset_eq(), vec![0; 10]);
    assert_eq!(model.eq_preset(), "flat");
}

#[test]
fn announcing_rows_signals_once_then_nothing() {
    let mut model = QueueModel::new(TunexConfig::default(), String::new());
    model.enqueued(1, engine(vec![item(7)], None, PlaybackState::Stopped));
    assert_eq!(model.apply_rows(), RowChange::Inserted(0));
    assert_eq!(model.apply_rows(), RowChange::Unchanged);
    model.enqueued(1, engine(vec![item(7), item(8)], None, PlaybackState::Stopped));
    assert_eq!(model.apply_rows(), RowChange::Inserted(1));
    assert_eq!(model.row_count(), 2);
    model.enqueued(0, engine(vec![item(8), item(7)], Some(0), PlaybackState::Playing));
    assert_eq!(model.apply_rows(), RowChange::Reset);
    assert_eq!(model.pending_change(), RowChange::Unchanged);
}

#[test]
fn rewound_rows_show_the_published_shape_until_restored() {
    let mut model = QueueModel::new(TunexConfig::default(), String::new());
    model.enqueued(1, engine(vec![item(7)], None, PlaybackState::Stopped));
    let current = model.rewind_rows();
    assert_eq!(model.row_count(), 0);
    assert_eq!(current.len(), 1);
    model.restore_rows(current);
    assert_eq!(model.track_id_at(0), 7);
}

#[test]
fn lyric_line_count_counts_synced_lines_only() {
    let mut model = QueueModel::new(TunexConfig::default(), String::new());
    model.load_lyrics(
        "file:///music/1.flac".to_owned(),
        "la la".to_owned(),
        vec![(None, "la".to_owned()), (None, "la".to_owned())],
    );
    assert_eq!(model.lyrics_line_count(), 0, "unsynced-only lyrics");
    assert!(!model.lyrics_synced());
    model.load_lyrics(
        "file:///music/2.flac".to_owned(),
        String::new(),
        vec![(Some(0), "one".to_owned()), (None, "aside".to_owned()), (Some(1_500), "two".to_owned())],
    );
    assert_eq!(model.lyrics_line_count(), 2);
    assert!(model.lyrics_synced());
}

#[test]
fn an_empty_id_list_is_no_request() {
    let mut model = QueueModel::new(TunexConfig::default(), String::new());
    assert!(model.play_track_ids(0, Vec::new()).is_none());
    assert_eq!(model.error_message(), None, "nothing asked, nothing reported");
    assert!(model.play_track_ids_next(0, Vec::new()).is_empty());
    assert_eq!(model.error_message(), None);
}

#[test]
fn now_playing_cover_comes_from_the_art_cache() {
    let mut model = QueueModel::new(TunexConfig::default(), "/cache/art".to_owned());
    assert_eq!(model.current_art_token(), None);
    assert_eq!(model.current_art_url(), "");
    model.sync_rows(engine(vec![item(4), item(5)], Some(1), PlaybackState::Playing));
    assert_eq!(model.current_art_token(), Some(5));
    assert_eq!(model.current_art_url(), "", "unresolved");
    assert_eq!(model.art.request(5), ArtRequest::Send { start_worker: true });
    let landed = model.art.poll(vec![(
        5,
        Some(CachedArt { thumb256: "/cache/art/5.png".to_owned(), thumb512: "/cache/art/5@2x.png".to_owned() }),
    )]);
    assert_eq!(landed, vec![5]);
    assert_eq!(model.current_art_url(), "file:///cache/art/5@2x.png");
    let snapshot = model.mpris_snapshot(0, None);
    assert_eq!(
        snapshot.track.expect("loaded").art_url.as_deref(),
        Some("file:///cache/art/5@2x.png")
    );
    model.sync_rows(engine(vec![item(4), item(5)], Some(0), PlaybackState::Playing));
    assert_eq!(model.current_art_url(), "", "the next track has no answer yet");
    assert_eq!(model.mpris_snapshot(0, None).track.expect("loaded").art_url, None);
}

#[test]
fn a_failed_batch_leaves_the_queue_as_it_was() {
    let mut model = QueueModel::new(TunexConfig::default(), String::new());
    model.enqueued(2, engine(vec![item(1), item(2)], Some(0), PlaybackState::Playing));
    assert_eq!(model.list_enqueued(Err(()), Gone::List, engine(Vec::new(), None, PlaybackState::Stopped)), 0);
    assert_eq!(model.row_count(), 2);
    assert_eq!(model.track_id_at(1), 2);
    assert_eq!(model.playback_state(), 2, "the engine view is kept");
    assert_eq!(model.list_enqueued(Ok(0), Gone::List, engine(vec![item(1), item(2)], Some(0), PlaybackState::Playing)), 0);
    assert_eq!(model.row_count(), 2);
    assert_eq!(model.error_text(), "Nothing playable in that list.");
}
