use media_fetcher::protocol::encode_status;
use media_fetcher::protocol::parse_request;
use media_fetcher::runtime::BridgeState;
use media_fetcher::runtime::poll_step;
use media_fetcher::runtime::run_poll_cycles;
use media_fetcher::status::PlaybackStatus;

fn playing(title: &str, elapsed_ms: u64) -> PlaybackStatus {
    let mut s = PlaybackStatus::absent();
    s.title = title.to_string();
    s.artist = "A".to_string();
    s.elapsed_ms = elapsed_ms;
    s.duration_ms = 60_000;
    s.playing = true;
    s
}

#[test]
fn first_absent_poll_emits_nothing() {
    let mut state = BridgeState::new();
    assert_eq!(poll_step(&mut state, PlaybackStatus::absent()), None);
}

#[test]
fn a_new_session_is_announced() {
    let mut state = BridgeState::new();
    let s = playing("Song", 0);
    let line = poll_step(&mut state, s.clone());
    assert_eq!(line, Some(encode_status(&s)));
}

#[test]
fn drift_within_tolerance_is_suppressed() {
    let mut state = BridgeState::new();
    assert!(poll_step(&mut state, playing("Song", 1000)).is_some());
    assert_eq!(poll_step(&mut state, playing("Song", 1099)), None);
    assert_eq!(poll_step(&mut state, playing("Song", 1001)), None);
}

#[test]
fn real_movement_is_announced_once() {
    let mut state = BridgeState::new();
    assert!(poll_step(&mut state, playing("Song", 1000)).is_some());
    let moved = playing("Song", 2000);
    assert_eq!(poll_step(&mut state, moved.clone()), Some(encode_status(&moved)));
    assert_eq!(poll_step(&mut state, playing("Song", 2050)), None);
}

#[test]
fn session_end_is_announced() {
    let mut state = BridgeState::new();
    assert!(poll_step(&mut state, playing("Song", 0)).is_some());
    let line = poll_step(&mut state, PlaybackStatus::absent());
    assert_eq!(line, Some(encode_status(&PlaybackStatus::absent())));
}

#[test]
fn no_two_consecutive_emissions_are_equal() {
    let mut state = BridgeState::new();
    let polls = vec![
        PlaybackStatus::absent(),
        playing("Song", 1000),
        playing("Song", 1050),
        playing("Song", 5000),
        playing("Song", 5020),
        playing("Other", 5020),
    ];
    let lines = run_poll_cycles(&mut state, polls);
    assert_eq!(
        lines,
        vec![
            encode_status(&playing("Song", 1000)),
            encode_status(&playing("Song", 5000)),
            encode_status(&playing("Other", 5020)),
        ]
    );
    for pair in lines.windows(2) {
        assert_ne!(pair[0], pair[1]);
    }
}

#[test]
fn malformed_lines_do_not_stop_command_handling() {
    // The command activity skips what it cannot read and goes on.
    let lines = ["not json", "{\"broken", "{\"type\":\"Play\"}"];
    let mut handled = 0;
    let mut skipped = 0;
    for line in lines {
        match parse_request(line) {
            Some(_) => handled += 1,
            None => skipped += 1,
        }
    }
    assert_eq!(handled, 1);
    assert_eq!(skipped, 2);
}
