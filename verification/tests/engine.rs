use rusic::Command;
use rusic::Engine;
use rusic::Session;
use rusic::Step;
use rusic::Transport;
use rusic::BUFFER_SIZE;

fn buffer() -> Vec<(i16, i16)> {
    vec![(0, 0); BUFFER_SIZE]
}

/// A track of `seconds` whole seconds at `rate`: flat samples packed as
/// stereo pairs, so `2 * rate * seconds` samples.
fn fixture(rate: u32, seconds: u32, value: i16) -> Session {
    let samples = vec![value; (2 * rate * seconds) as usize];
    Session::from_parts(rate, samples).unwrap()
}

#[test]
fn load_command_asks_for_the_stream() {
    let mut engine = Engine::new();
    match engine.handle_command(Command::Load("a.mp3".to_owned())) {
        Step::OpenStream(path) => assert_eq!(path, "a.mp3"),
        _ => panic!("a load must ask for its byte stream"),
    }
    assert!(!engine.is_playing());
}

#[test]
fn stop_and_shutdown_steps() {
    let mut engine = Engine::new();
    assert!(matches!(engine.handle_command(Command::Stop), Step::Stopped));
    assert!(matches!(engine.handle_command(Command::Shutdown), Step::Exit));
}

#[test]
fn install_binds_sink_to_new_rate_only() {
    let mut engine = Engine::new();
    // the default sink rate is 44100: a matching track keeps the sink
    assert_eq!(engine.install_session(fixture(44100, 1, 0)), None);
    // a differing rate asks for the sink to be recreated
    assert_eq!(engine.install_session(fixture(22050, 1, 0)), Some(22050));
    assert_eq!(engine.install_session(fixture(22050, 1, 0)), None);
}

#[test]
fn playing_three_seconds_reaches_three_thousand_millis() {
    let mut engine = Engine::new();
    let mut transport = Transport::new();
    assert!(transport.stopped());

    let sink = engine.install_session(fixture(44100, 3, 5));
    assert_eq!(sink, None);
    engine.sync_transport(&mut transport);
    assert!(engine.is_playing());
    assert!(!transport.stopped());
    assert_eq!(transport.current_time(), 0);

    let mut buf = buffer();
    let mut last_time = 0;
    loop {
        let frames = engine.fill_frames(&mut buf);
        engine.sync_transport(&mut transport);
        if frames == 0 {
            break;
        }
        // the published position never goes backwards within the episode
        assert!(transport.current_time() >= last_time);
        last_time = transport.current_time();
    }
    assert_eq!(last_time, 3000);
    assert!(!engine.is_playing());
    assert!(transport.stopped());
}

#[test]
fn end_of_track_stops_without_external_stop() {
    let mut engine = Engine::new();
    let mut transport = Transport::new();
    engine.install_session(fixture(44100, 1, 1));
    engine.sync_transport(&mut transport);
    assert!(!transport.stopped());

    let mut buf = buffer();
    while engine.fill_frames(&mut buf) > 0 {}
    engine.sync_transport(&mut transport);
    assert!(!engine.is_playing());
    assert!(transport.stopped());
}

#[test]
fn failed_load_leaves_engine_idle() {
    let mut engine = Engine::new();
    let mut transport = Transport::new();
    let step = engine.handle_command(Command::Load("missing.mp3".to_owned()));
    assert!(matches!(step, Step::OpenStream(_)));
    // the byte stream cannot be read: no session is installed
    engine.sync_transport(&mut transport);
    assert!(!engine.is_playing());
    assert!(transport.stopped());
    assert_eq!(transport.current_time(), 0);
}

#[test]
fn second_load_supersedes_first_session() {
    let mut engine = Engine::new();
    let mut transport = Transport::new();

    engine.install_session(fixture(44100, 3, 1));
    let mut buf = buffer();
    let mut switch_point = 0;
    for _ in 0..5 {
        assert!(engine.fill_frames(&mut buf) > 0);
        engine.sync_transport(&mut transport);
        switch_point = transport.current_time();
    }
    assert!(switch_point > 0);

    // a new load before the first track completes supersedes its session
    match engine.handle_command(Command::Load("b.mp3".to_owned())) {
        Step::OpenStream(path) => assert_eq!(path, "b.mp3"),
        _ => panic!("a load must ask for its byte stream"),
    }
    assert!(!engine.is_playing());
    engine.install_session(fixture(44100, 1, 7));
    engine.sync_transport(&mut transport);

    // the clock restarts for the new episode: the first track never moves
    // it past the switch point
    assert_eq!(transport.current_time(), 0);

    // only the new track's samples are handed to the device from here on
    let frames = engine.fill_frames(&mut buf);
    assert!(frames > 0);
    for k in 0..frames {
        assert_eq!(buf[k], (7, 7));
    }
}

#[test]
fn stop_command_tears_the_session_down() {
    let mut engine = Engine::new();
    let mut transport = Transport::new();
    engine.install_session(fixture(44100, 1, 1));
    engine.sync_transport(&mut transport);
    assert!(!transport.stopped());

    assert!(matches!(engine.handle_command(Command::Stop), Step::Stopped));
    engine.sync_transport(&mut transport);
    assert!(!engine.is_playing());
    assert!(transport.stopped());
}
