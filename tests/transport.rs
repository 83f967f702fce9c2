use sanctum::keys::{Key, KeyPress};
use sanctum::{Action, Config, MprisState, PlaybackStatus, Player, SinkReport, Song, TransportError};

fn track(title: &str, duration: u64) -> Song {
    Song::from_tags(
        Some(title.to_string()),
        Some("Artist".to_string()),
        Some("Album".to_string()),
        None,
        format!("/music/{}.flac", title),
        duration,
        None,
    )
}

fn catalog(n: usize) -> Vec<Song> {
    (0..n).map(|i| track(&format!("T{}", i), 60 + i as u64)).collect()
}

fn playing(position: u64) -> SinkReport {
    SinkReport { empty: false, paused: false, position }
}

fn empty_at(position: u64) -> SinkReport {
    SinkReport { empty: true, paused: false, position }
}

#[test]
fn skip_wraps_around_the_catalog() {
    let songs = catalog(4);
    let mut p = Player::default();
    let mut seen = Vec::new();
    for _ in 0..4 {
        p.skip(&songs).unwrap();
        seen.push(p.current_index);
    }
    assert_eq!(seen, vec![1, 2, 3, 0]);
    assert!(p.skip);
}

#[test]
fn previous_wraps_at_zero() {
    let songs = catalog(5);
    let mut p = Player::default();
    p.previous(&songs).unwrap();
    assert_eq!(p.current_index, 4);
    p.previous(&songs).unwrap();
    assert_eq!(p.current_index, 3);
    assert!(p.skip);
}

#[test]
fn previous_ignores_queue_and_shuffle() {
    let songs = catalog(5);
    let mut p = Player::default();
    p.current_index = 2;
    p.shuffle = true;
    p.enqueue_next(&songs, 4).unwrap();
    p.previous(&songs).unwrap();
    assert_eq!(p.current_index, 1);
    assert_eq!(p.queue, vec![4]);
}

#[test]
fn repeat_requeues_same_track() {
    let songs = catalog(3);
    let mut p = Player::default();
    p.current_index = 1;
    p.prev_index = 1;
    p.repeat();
    for _ in 0..5 {
        let acts = p.process(&songs, empty_at(61)).unwrap();
        assert_eq!(acts, vec![Action::Enqueue(1)]);
        assert_eq!(p.current_index, 1);
        assert_eq!(p.prev_index, 1);
    }
}

#[test]
fn manual_queue_comes_first() {
    let songs = catalog(8);
    let mut p = Player::default();
    p.enqueue_next(&songs, 3).unwrap();
    p.enqueue_next(&songs, 5).unwrap();
    p.skip(&songs).unwrap();
    assert_eq!(p.current_index, 3);
    p.skip(&songs).unwrap();
    assert_eq!(p.current_index, 5);
    p.skip(&songs).unwrap();
    assert_eq!(p.current_index, 6);
}

#[test]
fn natural_end_takes_queue_front() {
    let songs = catalog(8);
    let mut p = Player::default();
    p.enqueue_next(&songs, 6).unwrap();
    let acts = p.process(&songs, empty_at(60)).unwrap();
    assert_eq!(acts, vec![Action::Enqueue(6)]);
    assert_eq!(p.current_index, 6);
    assert!(p.queue.is_empty());
}

#[test]
fn shuffle_picks_uniformly() {
    let n = 10;
    let songs = catalog(n);
    let mut counts = vec![0u32; n];
    let trials = 10_000;
    let mut p = Player::default();
    p.set_shuffle(true);
    for _ in 0..trials {
        p.skip(&songs).unwrap();
        // force a change every time, whatever the previous pick was
        p.prev_index = usize::MAX;
        let acts = p.process(&songs, playing(1)).unwrap();
        assert!(p.current_index < n);
        assert_eq!(acts[0], Action::Enqueue(p.current_index));
        counts[p.current_index] += 1;
    }
    let expected = trials as f64 / n as f64;
    let chi: f64 = counts
        .iter()
        .map(|&c| {
            let d = c as f64 - expected;
            d * d / expected
        })
        .sum();
    // 9 degrees of freedom: 27.88 is the 0.001 critical value
    assert!(chi < 27.88, "chi-square {} over {:?}", chi, counts);
}

#[test]
fn shuffle_overrides_skip() {
    let songs = catalog(1);
    let mut p = Player::default();
    p.set_shuffle(true);
    assert!(p.is_shuffled());
    p.prev_index = 7;
    let acts = p.process(&songs, playing(0)).unwrap();
    assert_eq!(p.current_index, 0);
    assert_eq!(acts, vec![Action::Enqueue(0)]);
}

#[test]
fn volume_is_set_once() {
    let mut p = Player::default();
    let mut device_calls = 0;
    for _ in 0..2 {
        for a in p.volume(40) {
            if let Action::SetVolume(v) = a {
                assert_eq!(v, 40);
                device_calls += 1;
            }
        }
    }
    assert_eq!(device_calls, 1);
    assert!(p.volume(100).len() == 1);
}

#[test]
fn quiet_process_does_nothing() {
    let songs = catalog(3);
    let mut p = Player::default();
    p.current_index = 2;
    p.prev_index = 2;
    for pos in [5, 5, 5, 6] {
        let acts = p.process(&songs, playing(pos)).unwrap();
        assert!(acts.is_empty());
        assert_eq!(p.prev_index, 2);
        assert_eq!(p.current_index, 2);
    }
    assert_eq!(p.track_pos, 6);
}

#[test]
fn concrete_scenario() {
    let songs = vec![track("A", 30), track("B", 45), track("C", 20)];
    let mut p = Player::default();
    let acts = p.process(&songs, empty_at(30)).unwrap();
    assert_eq!(p.current_index, 1);
    assert_eq!(acts, vec![Action::Enqueue(1)]);
    p.skip(&songs).unwrap();
    assert_eq!(p.current_index, 2);
    assert!(p.skip);
    let acts = p.process(&songs, playing(4)).unwrap();
    assert_eq!(acts, vec![Action::Enqueue(2), Action::SkipOne]);
    assert_eq!(p.prev_index, 2);
    assert!(!p.skip);
}

#[test]
fn skip_on_empty_sink_does_not_discard() {
    let songs = catalog(3);
    let mut p = Player::default();
    p.skip(&songs).unwrap();
    let acts = p.process(&songs, empty_at(0)).unwrap();
    assert_eq!(acts, vec![Action::Enqueue(1)]);
}

#[test]
fn empty_catalog_is_an_error() {
    let songs: Vec<Song> = Vec::new();
    let mut p = Player::default();
    assert_eq!(p.skip(&songs), Err(TransportError::EmptyCatalog));
    assert_eq!(p.previous(&songs), Err(TransportError::EmptyCatalog));
    assert_eq!(p.process(&songs, playing(0)), Err(TransportError::EmptyCatalog));
    assert_eq!(p.set_index(&songs, 0), Err(TransportError::EmptyCatalog));
    assert_eq!(p.enqueue_next(&songs, 0), Err(TransportError::EmptyCatalog));
    assert_eq!(p.current_index, 0);
}

#[test]
fn stale_index_is_an_error() {
    let songs = catalog(2);
    let mut p = Player::default();
    p.current_index = 5;
    assert_eq!(p.skip(&songs), Err(TransportError::IndexOutOfRange));
    assert_eq!(p.process(&songs, playing(0)), Err(TransportError::IndexOutOfRange));
    assert_eq!(p.current_index, 5);
    assert_eq!(p.set_index(&songs, 2), Err(TransportError::IndexOutOfRange));
    assert_eq!(p.enqueue_next(&songs, 9), Err(TransportError::IndexOutOfRange));
    p.current_index = 0;
    p.queue = vec![7];
    assert_eq!(p.skip(&songs), Err(TransportError::IndexOutOfRange));
    assert_eq!(p.queue, vec![7]);
}

#[test]
fn set_index_while_playing_discards() {
    let songs = catalog(4);
    let mut p = Player::default();
    p.sink.empty = false;
    let acts = p.set_index(&songs, 2).unwrap();
    assert_eq!(acts, vec![Action::SkipOne]);
    assert_eq!(p.current_index, 2);
    assert!(p.done());
    let acts = p.process(&songs, empty_at(0)).unwrap();
    assert_eq!(acts, vec![Action::Enqueue(2)]);
}

#[test]
fn set_index_while_paused_resumes() {
    let songs = catalog(4);
    let mut p = Player::default();
    p.sink.paused = true;
    p.sink.empty = false;
    let acts = p.set_index(&songs, 0).unwrap();
    assert_eq!(acts, vec![Action::Resume, Action::SkipOne, Action::Enqueue(0)]);
    assert!(!p.idle());
}

#[test]
fn playback_toggles_and_notifies() {
    let mut p = Player::default();
    p.sink.empty = false;
    assert_eq!(p.playback(), vec![Action::Pause, Action::Notify(PlaybackStatus::Paused)]);
    assert!(p.idle());
    assert_eq!(p.playback(), vec![Action::Resume, Action::Notify(PlaybackStatus::Playing)]);
    assert_eq!(p.status(), PlaybackStatus::Playing);
}

#[test]
fn stop_rewinds() {
    let mut p = Player::default();
    p.sink.empty = false;
    p.track_pos = 33;
    assert_eq!(p.stop(), vec![Action::Stop, Action::Notify(PlaybackStatus::Stopped)]);
    assert_eq!(p.track_pos, 0);
    assert!(p.done());
}

#[test]
fn seeking() {
    let mut p = Player::default();
    p.track_pos = 10;
    assert_eq!(p.seek(), vec![Action::Seek(10)]);
    assert_eq!(p.seek_to(42), Ok(vec![Action::Seek(42)]));
    assert_eq!(p.seek_to(-1), Err(TransportError::InvalidPosition));
    assert_eq!(p.seek_relative(5), vec![Action::Seek(15)]);
    assert_eq!(p.seek_relative(-30), vec![Action::Seek(0)]);
}

#[test]
fn bridge_commands() {
    let songs = catalog(3);
    let mut p = Player::default();
    p.sink.empty = false;
    let acts = p.handle_mpris(MprisState::Next, &songs).unwrap();
    assert_eq!(acts, vec![Action::Notify(PlaybackStatus::Playing)]);
    assert_eq!(p.current_index, 1);
    let acts = p.handle_mpris(MprisState::Pause, &songs).unwrap();
    assert_eq!(acts, vec![Action::Pause, Action::Notify(PlaybackStatus::Paused)]);
    let acts = p.handle_mpris(MprisState::PlayPause, &songs).unwrap();
    assert_eq!(acts, vec![Action::Resume, Action::Notify(PlaybackStatus::Playing)]);
    let acts = p.handle_mpris(MprisState::Volume(30), &songs).unwrap();
    assert_eq!(acts, vec![Action::SetVolume(30), Action::Notify(PlaybackStatus::Playing)]);
    let acts = p.handle_mpris(MprisState::Metadata, &songs).unwrap();
    assert!(acts.is_empty());
    p.handle_mpris(MprisState::Shuffle(true), &songs).unwrap();
    assert!(p.shuffle);
    p.handle_mpris(MprisState::Loop, &songs).unwrap();
    assert!(p.repeat);
    p.track_pos = 20;
    let acts = p.handle_mpris(MprisState::Seek(-5), &songs).unwrap();
    assert_eq!(acts, vec![Action::Seek(15), Action::Notify(PlaybackStatus::Playing)]);
    assert_eq!(
        p.handle_mpris(MprisState::Position(-3), &songs),
        Err(TransportError::InvalidPosition)
    );
    let acts = p.handle_mpris(MprisState::Previous, &songs).unwrap();
    assert_eq!(acts, vec![Action::Notify(PlaybackStatus::Playing)]);
    assert_eq!(p.current_index, 0);
    let acts = p.handle_mpris(MprisState::Stop, &songs).unwrap();
    assert_eq!(acts, vec![Action::Stop, Action::Notify(PlaybackStatus::Stopped)]);
    let acts = p.handle_mpris(MprisState::Play, &songs).unwrap();
    assert_eq!(acts, vec![Action::Resume, Action::Notify(PlaybackStatus::Stopped)]);
}

fn config(volume: u32) -> Config {
    Config::new(0, Vec::new(), 0, volume, String::from("/tmp/cache"))
}

#[test]
fn keys_drive_the_player() {
    let songs = catalog(3);
    let mut p = Player::default();
    let mut volume = 100;
    let mut cfg = config(100);
    let ctrl = |key| KeyPress { key, ctrl: true, repeat: false };
    assert!(p.handle_keybinds(ctrl(Key::ArrowUp), &mut volume, &mut cfg, &songs).unwrap().is_empty());
    assert_eq!(volume, 100);
    let acts = p.handle_keybinds(ctrl(Key::ArrowDown), &mut volume, &mut cfg, &songs).unwrap();
    assert_eq!(acts, vec![Action::SetVolume(99)]);
    assert_eq!(volume, 99);
    assert_eq!(cfg.get_volume(), 99);
    p.handle_keybinds(ctrl(Key::ArrowRight), &mut volume, &mut cfg, &songs).unwrap();
    assert_eq!(p.current_index, 1);
    p.handle_keybinds(ctrl(Key::ArrowLeft), &mut volume, &mut cfg, &songs).unwrap();
    p.handle_keybinds(ctrl(Key::ArrowLeft), &mut volume, &mut cfg, &songs).unwrap();
    assert_eq!(p.current_index, 2);
    p.handle_keybinds(ctrl(Key::S), &mut volume, &mut cfg, &songs).unwrap();
    assert!(p.shuffle);
    let held = KeyPress { key: Key::S, ctrl: true, repeat: true };
    p.handle_keybinds(held, &mut volume, &mut cfg, &songs).unwrap();
    assert!(p.shuffle);
    let plain_right = KeyPress { key: Key::ArrowRight, ctrl: false, repeat: false };
    p.handle_keybinds(plain_right, &mut volume, &mut cfg, &songs).unwrap();
    assert_eq!(p.current_index, 2);
    let space = KeyPress { key: Key::Space, ctrl: false, repeat: false };
    let acts = p.handle_keybinds(space, &mut volume, &mut cfg, &songs).unwrap();
    assert_eq!(acts[0], Action::Pause);
}

#[test]
fn volume_keys_stop_at_bounds() {
    let songs = catalog(1);
    let mut p = Player::default();
    let mut volume = 0;
    let mut cfg = config(0);
    let down = KeyPress { key: Key::ArrowDown, ctrl: true, repeat: true };
    p.handle_keybinds(down, &mut volume, &mut cfg, &songs).unwrap();
    assert_eq!(volume, 0);
    let up = KeyPress { key: Key::ArrowUp, ctrl: true, repeat: true };
    p.handle_keybinds(up, &mut volume, &mut cfg, &songs).unwrap();
    assert_eq!(volume, 1);
    assert_eq!(cfg.get_volume(), 1);
}

#[test]
fn startup_and_shutdown() {
    let mut cfg = Config::new(0, Vec::new(), 2, 40, String::new());
    let (mut p, acts) = Player::restore(&cfg);
    assert_eq!(acts, vec![Action::Pause, Action::SetVolume(40)]);
    assert_eq!(p.current_index, 2);
    assert!(p.sink.paused);
    let songs = catalog(3);
    let acts = p.process(&songs, SinkReport { empty: true, paused: true, position: 0 }).unwrap();
    assert_eq!(acts, vec![Action::Enqueue(2)]);
    p.skip(&songs).unwrap();
    p.volume(55);
    p.store(&mut cfg);
    assert_eq!(cfg.get_last_track(), 0);
    assert_eq!(cfg.get_volume(), 55);
    let full = Config::new(0, Vec::new(), 0, 100, String::new());
    let (_, acts) = Player::restore(&full);
    assert_eq!(acts, vec![Action::Pause]);
}

#[test]
fn revalidate_after_catalog_swap() {
    let mut p = Player::default();
    p.current_index = 7;
    p.queue = vec![1, 9, 2, 4];
    let songs = catalog(3);
    p.revalidate(&songs);
    assert_eq!(p.current_index, 0);
    assert_eq!(p.queue, vec![1, 2]);
    assert!(p.skip(&songs).is_ok());
    p.current_index = 2;
    p.revalidate(&catalog(5));
    assert_eq!(p.current_index, 2);
    p.revalidate(&Vec::new());
    assert!(p.queue.is_empty());
}

#[test]
fn previous_does_not_read_the_queue() {
    let songs = catalog(3);
    let mut p = Player::default();
    p.queue = vec![9, 1];
    p.previous(&songs).unwrap();
    assert_eq!(p.current_index, 2);
    assert_eq!(p.queue, vec![9, 1]);
    p.current_index = 3;
    assert_eq!(p.previous(&songs), Err(TransportError::IndexOutOfRange));
}

#[test]
fn skip_reads_only_the_queue_front() {
    let songs = catalog(3);
    let mut p = Player::default();
    p.current_index = 8;
    p.queue = vec![1, 9];
    p.skip(&songs).unwrap();
    assert_eq!(p.current_index, 1);
    assert_eq!(p.queue, vec![9]);
    assert_eq!(p.skip(&songs), Err(TransportError::IndexOutOfRange));
    assert_eq!(p.current_index, 1);
}

#[test]
fn process_reads_queue_only_at_track_end() {
    let songs = catalog(3);
    let mut p = Player::default();
    p.queue = vec![9];
    assert!(p.process(&songs, playing(10)).unwrap().is_empty());
    assert_eq!(p.process(&songs, empty_at(60)), Err(TransportError::IndexOutOfRange));
    assert_eq!(p.queue, vec![9]);
    assert_eq!(p.track_pos, 10);
}

#[test]
fn recover_moves_past_failed_track() {
    let songs = catalog(4);
    let mut p = Player::default();
    p.sink.empty = false;
    p.skip(&songs).unwrap();
    let before = p.clone();
    let acts = p.process(&songs, playing(5)).unwrap();
    assert_eq!(acts, vec![Action::Enqueue(1), Action::SkipOne]);
    // the device could not decode track 1
    p.recover(before, &songs).unwrap();
    assert_eq!(p.current_index, 2);
    assert_eq!(p.prev_index, 0);
    assert!(p.skip);
    let acts = p.process(&songs, playing(6)).unwrap();
    assert_eq!(acts, vec![Action::Enqueue(2), Action::SkipOne]);
}

#[test]
fn second_tick_after_change_is_quiet() {
    let songs = catalog(3);
    let mut p = Player::default();
    let first = p.process(&songs, empty_at(60)).unwrap();
    assert_eq!(first, vec![Action::Enqueue(1)]);
    let again = SinkReport { empty: p.sink.empty, paused: p.sink.paused, position: 60 };
    assert!(p.process(&songs, again).unwrap().is_empty());
    assert_eq!((p.current_index, p.prev_index), (1, 1));
}
