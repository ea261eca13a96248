use png2t::bitmap::{Bitmap, Pixel};
use png2t::media::{Args, Media};
use png2t::playback::{Action, Event, KeyPress, Phase, Playback};

fn key(symbol: char, control: bool, others: bool) -> Event {
    Event::Key(KeyPress { symbol, control, others })
}

fn primed() -> Event {
    Event::Primed { column: 3, row: 7 }
}

fn video(frames: usize, looping: bool, audio: bool) -> Playback {
    let mut session = Playback::begin(frames, 16, looping, audio);
    assert_eq!(session.due(), Action::Prime { rows: 16 });
    assert_eq!(session.advance(primed()), Action::Probe);
    let first = session.advance(Event::Rate { millis: 33 });
    if audio {
        assert_eq!(first, Action::StartAudio);
        assert_eq!(session.advance(Event::AudioStarted), Action::Draw { frame: 0 });
    } else {
        assert_eq!(first, Action::Draw { frame: 0 });
    }
    session
}

#[test]
fn still_image_is_primed_drawn_and_finished() {
    let mut session = Playback::begin(1, 16, true, true);
    let mut seen = vec![session.due()];
    seen.push(session.advance(primed()));
    seen.push(session.advance(Event::Drawn));
    assert_eq!(seen, vec![Action::Prime { rows: 16 }, Action::Draw { frame: 0 }, Action::Finish]);
    assert!(session.over());
    assert_eq!(session.phase, Phase::Finished);
}

#[test]
fn still_image_ignores_what_it_does_not_await() {
    let mut session = Playback::begin(1, 4, false, false);
    assert_eq!(session.advance(Event::Rate { millis: 5 }), Action::Prime { rows: 4 });
    assert_eq!(session.advance(key('q', false, false)), Action::Prime { rows: 4 });
    assert_eq!(session.advance(primed()), Action::Draw { frame: 0 });
    assert_eq!(session.advance(Event::Quiet), Action::Draw { frame: 0 });
    assert_eq!(session.advance(Event::AudioStarted), Action::Draw { frame: 0 });
    assert_eq!(session.advance(Event::Drawn), Action::Finish);
    assert_eq!(session.advance(Event::Drawn), Action::Finish);
}

#[test]
fn video_plays_each_frame_once_without_loop() {
    let mut session = video(3, false, false);
    let pause = Action::Pause { millis: 33, column: 3, row: 7 };
    assert_eq!(session.advance(Event::Drawn), pause);
    assert_eq!(session.advance(Event::Quiet), Action::Draw { frame: 1 });
    assert_eq!(session.advance(Event::Drawn), pause);
    assert_eq!(session.advance(key('x', false, false)), Action::Draw { frame: 2 });
    assert_eq!(session.advance(Event::Drawn), pause);
    assert_eq!(session.advance(Event::Quiet), Action::Finish);
    assert_eq!(session.phase, Phase::Finished);
    assert!(session.over());
}

#[test]
fn looping_video_restarts_audio_with_every_pass() {
    let mut session = video(2, true, true);
    for _ in 0..3 {
        assert!(matches!(session.advance(Event::Drawn), Action::Pause { .. }));
        assert_eq!(session.advance(Event::Quiet), Action::Draw { frame: 1 });
        assert!(matches!(session.advance(Event::Drawn), Action::Pause { .. }));
        assert_eq!(session.advance(Event::Quiet), Action::StartAudio);
        assert_eq!(session.advance(Event::AudioStarted), Action::Draw { frame: 0 });
    }
    assert!(!session.over());
}

#[test]
fn looping_video_without_audio_starts_over() {
    let mut session = video(2, true, false);
    session.advance(Event::Drawn);
    session.advance(Event::Quiet);
    session.advance(Event::Drawn);
    assert_eq!(session.advance(Event::Quiet), Action::Draw { frame: 0 });
}

#[test]
fn cancel_stops_playback_even_when_looping() {
    let mut session = video(3, true, true);
    session.advance(Event::Drawn);
    assert_eq!(session.advance(key('q', false, false)), Action::Finish);
    assert_eq!(session.phase, Phase::Cancelled);
    assert!(session.over());
    assert_eq!(session.advance(Event::Quiet), Action::Finish);
    assert_eq!(session.advance(Event::Drawn), Action::Finish);
    assert_eq!(session.advance(Event::AudioStarted), Action::Finish);
    assert_eq!(session.advance(Event::Failed), Action::Finish);
    assert_eq!(session.phase, Phase::Cancelled);
}

#[test]
fn control_c_cancels_too() {
    let mut session = video(2, false, false);
    session.advance(Event::Drawn);
    assert_eq!(session.advance(key('c', true, false)), Action::Finish);
    assert_eq!(session.phase, Phase::Cancelled);
}

#[test]
fn which_keys_cancel() {
    let press = |symbol, control, others| KeyPress { symbol, control, others };
    assert!(press('q', false, false).is_cancel());
    assert!(press('c', true, false).is_cancel());
    assert!(!press('c', false, false).is_cancel());
    assert!(!press('q', true, false).is_cancel());
    assert!(!press('q', false, true).is_cancel());
    assert!(!press('c', true, true).is_cancel());
    assert!(!press('Q', false, false).is_cancel());
}

#[test]
fn failure_aborts_a_running_session() {
    let mut session = video(2, false, false);
    assert_eq!(session.advance(Event::Failed), Action::Abort);
    assert_eq!(session.phase, Phase::Failed);
    assert_eq!(session.advance(Event::Drawn), Action::Abort);

    let mut probing = Playback::begin(2, 4, false, false);
    probing.advance(primed());
    assert_eq!(probing.advance(Event::Failed), Action::Abort);
}

#[test]
fn media_begins_a_session_over_its_frames() {
    let config = Args {
        file: String::from("clip.mp4"),
        invert: false,
        flip_h: false,
        flip_v: false,
        size: None,
        preserve_dims: false,
        loop_video: true,
        mute: false,
    };
    let clear = Pixel { r: 0, g: 0, b: 0, a: 0 };
    let mut media = Media::new(config);
    media.unpack_file(vec![Bitmap::new(4, 10, clear), Bitmap::new(4, 10, clear)], true);
    let session = media.render();
    assert_eq!(session.frames, 2);
    assert_eq!(session.rows, 5);
    assert!(session.looping);
    assert!(session.audio);
    assert_eq!(session.due(), Action::Prime { rows: 5 });
}

#[test]
fn description_with_a_rate_starts_the_first_pass() {
    let mut session = Playback::begin(2, 4, false, false);
    session.advance(primed());
    let (action, message) = session.describe("Stream #0:0: Video: h264, 640x480, 25 fps, 25 tbr");
    assert_eq!(action, Action::Draw { frame: 0 });
    assert_eq!(message, None);
    assert_eq!(session.delay, 40);
    assert_eq!(session.advance(Event::Drawn), Action::Pause { millis: 40, column: 3, row: 7 });
}

#[test]
fn description_without_a_rate_aborts_before_any_frame() {
    let mut session = Playback::begin(2, 4, true, true);
    session.advance(primed());
    let (action, message) = session.describe("Stream #0:0: Audio: mp3, 44100 Hz");
    assert_eq!(action, Action::Abort);
    assert_eq!(message, Some(String::from("Could not determine framerate of video!")));
    assert_eq!(session.phase, Phase::Failed);
    assert_eq!(session.advance(Event::Drawn), Action::Abort);
}
