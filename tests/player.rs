use radio::player::{MAX_VOLUME, MIN_VOLUME};
use radio::{PlaybackError, PlaybackWorker, VLCMediaPlayer, VolumeError, WorkerAction, WorkerPhase};

fn playing_worker(player: &mut VLCMediaPlayer) -> PlaybackWorker {
    let start = player.play().expect("playback was not wanted yet");
    let mut worker = PlaybackWorker::new(start);
    worker.started();
    worker
}

#[test]
fn new_player_is_stopped_with_given_volume() {
    let player = VLCMediaPlayer::new(50);
    assert!(!player.is_playing());
    assert!(!player.is_volume_changed());
    assert_eq!(player.volume(), 50);
    assert_eq!(player.src(), "");
    assert_eq!(player.generation(), 0);
    assert_eq!(player.last_error(), None);
}

#[test]
fn new_player_clamps_volume() {
    assert_eq!(VLCMediaPlayer::new(150).volume(), 100);
    assert_eq!(VLCMediaPlayer::new(-5).volume(), 0);
    assert_eq!(VLCMediaPlayer::new(i32::MIN).volume(), MIN_VOLUME);
    assert_eq!(VLCMediaPlayer::new(i32::MAX).volume(), MAX_VOLUME);
}

#[test]
fn validate_volume_accepts_range_only() {
    assert_eq!(VLCMediaPlayer::validate_volume(0), Ok(0));
    assert_eq!(VLCMediaPlayer::validate_volume(100), Ok(100));
    assert_eq!(VLCMediaPlayer::validate_volume(37), Ok(37));
    assert_eq!(VLCMediaPlayer::validate_volume(-1), Err(VolumeError::OutOfRange(-1)));
    assert_eq!(VLCMediaPlayer::validate_volume(101), Err(VolumeError::OutOfRange(101)));
}

#[test]
fn clamp_volume_goes_to_nearest_bound() {
    assert_eq!(VLCMediaPlayer::clamp_volume(-20), 0);
    assert_eq!(VLCMediaPlayer::clamp_volume(20), 20);
    assert_eq!(VLCMediaPlayer::clamp_volume(120), 100);
}

#[test]
fn set_volume_in_range_is_applied_once() {
    for v in 0..=100 {
        let mut player = VLCMediaPlayer::new(50);
        let mut worker = playing_worker(&mut player);
        assert_eq!(player.set_volume(v), Ok(()));
        assert!(player.is_volume_changed());
        assert_eq!(worker.poll(&mut player), WorkerAction::SetVolume(v));
        assert!(!player.is_volume_changed());
        assert_eq!(player.volume(), v);
        assert_eq!(worker.poll(&mut player), WorkerAction::Continue);
    }
}

#[test]
fn set_volume_out_of_range_is_refused_without_panic() {
    for v in [-1, 101, 1000, -1000, i32::MIN, i32::MAX] {
        let mut player = VLCMediaPlayer::new(40);
        let mut worker = playing_worker(&mut player);
        assert_eq!(player.set_volume(v), Err(VolumeError::OutOfRange(v)));
        assert_eq!(player.volume(), 40);
        assert!(!player.is_volume_changed());
        assert_eq!(worker.poll(&mut player), WorkerAction::Continue);
    }
}

#[test]
fn volume_error_has_message() {
    assert_eq!(VolumeError::OutOfRange(300).message(), "the volume must lie between 0 and 100");
}

#[test]
fn pause_stops_worker_once() {
    let mut player = VLCMediaPlayer::new(50);
    let mut worker = playing_worker(&mut player);
    assert_eq!(worker.poll(&mut player), WorkerAction::Continue);
    player.pause();
    assert!(!player.is_playing());
    assert_eq!(worker.poll(&mut player), WorkerAction::Stop);
    assert_eq!(worker.phase(), WorkerPhase::Stopping);
    assert_eq!(worker.poll(&mut player), WorkerAction::Exit);
    assert_eq!(worker.phase(), WorkerPhase::Terminated);
    assert_eq!(worker.poll(&mut player), WorkerAction::Exit);
    // Playing again later does not revive the finished worker.
    assert!(player.play().is_some());
    assert_eq!(worker.poll(&mut player), WorkerAction::Exit);
}

#[test]
fn second_play_starts_no_worker() {
    let mut player = VLCMediaPlayer::new(50);
    let first = player.play();
    assert!(first.is_some());
    assert_eq!(player.generation(), 1);
    assert!(player.play().is_none());
    assert!(player.play().is_none());
    assert_eq!(player.generation(), 1);
    assert!(player.is_playing());
}

#[test]
fn pause_then_play_supersedes_old_worker() {
    let mut player = VLCMediaPlayer::new(50);
    let mut old = playing_worker(&mut player);
    player.pause();
    let mut new = playing_worker(&mut player);
    assert_eq!(old.generation(), 1);
    assert_eq!(new.generation(), 2);
    assert_eq!(player.set_volume(70), Ok(()));
    // The old worker never sees the volume meant for the new one.
    assert_eq!(old.poll(&mut player), WorkerAction::Stop);
    assert!(player.is_playing());
    assert!(player.is_volume_changed());
    assert_eq!(new.poll(&mut player), WorkerAction::SetVolume(70));
    assert_eq!(old.poll(&mut player), WorkerAction::Exit);
}

#[test]
fn set_src_then_play_opens_that_url() {
    let url = "https://ice5.somafm.com/dubstep-128-mp3";
    let mut player = VLCMediaPlayer::new(50);
    player.set_src(url);
    assert_eq!(player.src(), url);
    let start = player.play().unwrap();
    assert_eq!(start.url(), url);
    assert_eq!(start.generation(), 1);
    let worker = PlaybackWorker::new(start);
    assert_eq!(worker.media_url(), url);
    assert_eq!(worker.phase(), WorkerPhase::Starting);
}

#[test]
fn set_src_does_not_change_running_worker() {
    let mut player = VLCMediaPlayer::new(50);
    player.set_src("http://a.example/stream");
    let worker = playing_worker(&mut player);
    player.set_src("http://b.example/stream");
    assert_eq!(worker.media_url(), "http://a.example/stream");
    assert_eq!(player.src(), "http://b.example/stream");
}

#[test]
fn rapid_volume_changes_last_write_wins() {
    let mut player = VLCMediaPlayer::new(50);
    let mut worker = playing_worker(&mut player);
    assert_eq!(worker.poll(&mut player), WorkerAction::Continue);
    assert_eq!(player.set_volume(0), Ok(()));
    assert_eq!(player.set_volume(80), Ok(()));
    assert_eq!(player.set_volume(30), Ok(()));
    assert_eq!(worker.poll(&mut player), WorkerAction::SetVolume(30));
    assert_eq!(worker.poll(&mut player), WorkerAction::Continue);
    assert_eq!(player.volume(), 30);
}

#[test]
fn toggle_flips_playing_state() {
    let mut player = VLCMediaPlayer::new(50);
    player.set_src("http://radio.example/live");
    let (playing, start) = player.toggle_play_and_get_is_playing();
    assert!(playing);
    assert_eq!(start.unwrap().url(), "http://radio.example/live");
    let (playing, start) = player.toggle_play_and_get_is_playing();
    assert!(!playing);
    assert!(start.is_none());
    assert!(!player.is_playing());
}

#[test]
fn play_station_restarts_with_new_url() {
    let mut player = VLCMediaPlayer::new(50);
    player.set_src("http://a.example/stream");
    let mut old = playing_worker(&mut player);
    let start = player.play_station("http://b.example/stream").unwrap();
    assert_eq!(start.url(), "http://b.example/stream");
    assert_eq!(start.generation(), 2);
    assert_eq!(player.src(), "http://b.example/stream");
    assert!(player.is_playing());
    assert_eq!(old.poll(&mut player), WorkerAction::Stop);
}

#[test]
fn startup_failure_is_reported() {
    let mut player = VLCMediaPlayer::new(50);
    let start = player.play().unwrap();
    let mut worker = PlaybackWorker::new(start);
    worker.fail(&mut player, PlaybackError::MediaRejected);
    assert_eq!(worker.phase(), WorkerPhase::Terminated);
    assert!(!player.is_playing());
    assert_eq!(player.last_error(), Some(PlaybackError::MediaRejected));
    assert_eq!(worker.poll(&mut player), WorkerAction::Exit);
    // A new request clears the error and may start again.
    assert!(player.play().is_some());
    assert_eq!(player.last_error(), None);
}

#[test]
fn failure_while_playing_leads_to_stop() {
    let mut player = VLCMediaPlayer::new(50);
    let mut worker = playing_worker(&mut player);
    worker.fail(&mut player, PlaybackError::VolumeRejected);
    assert_eq!(worker.phase(), WorkerPhase::Playing);
    assert!(!player.is_playing());
    assert_eq!(worker.poll(&mut player), WorkerAction::Stop);
    assert_eq!(worker.poll(&mut player), WorkerAction::Exit);
}

#[test]
fn failure_of_old_worker_is_ignored() {
    let mut player = VLCMediaPlayer::new(50);
    let mut old = playing_worker(&mut player);
    player.pause();
    let _new = playing_worker(&mut player);
    old.fail(&mut player, PlaybackError::StartRejected);
    assert!(player.is_playing());
    assert_eq!(player.last_error(), None);
    player.report_failure(1, PlaybackError::InstanceUnavailable);
    assert_eq!(player.last_error(), None);
    player.report_failure(2, PlaybackError::PlayerUnavailable);
    assert_eq!(player.last_error(), Some(PlaybackError::PlayerUnavailable));
    assert!(!player.is_playing());
}

#[test]
fn poll_before_start_does_nothing() {
    let mut player = VLCMediaPlayer::new(50);
    let start = player.play().unwrap();
    let mut worker = PlaybackWorker::new(start);
    assert_eq!(player.set_volume(10), Ok(()));
    assert_eq!(worker.poll(&mut player), WorkerAction::Continue);
    assert!(player.is_volume_changed());
    worker.started();
    assert_eq!(worker.phase(), WorkerPhase::Playing);
    assert_eq!(worker.poll(&mut player), WorkerAction::SetVolume(10));
}

#[test]
fn playback_error_messages() {
    assert_eq!(PlaybackError::InstanceUnavailable.message(), "the native player could not be initialised");
    assert_eq!(PlaybackError::PlayerUnavailable.message(), "no native media player could be created");
    assert_eq!(PlaybackError::MediaRejected.message(), "the station URL could not be opened");
    assert_eq!(PlaybackError::StartRejected.message(), "the station could not be played");
    assert_eq!(PlaybackError::VolumeRejected.message(), "the volume could not be changed");
}
