use media_fetcher::protocol::Request;
use media_fetcher::protocol::Response;
use media_fetcher::protocol::encode_album_art;
use media_fetcher::protocol::encode_response;
use media_fetcher::protocol::encode_status;
use media_fetcher::protocol::parse_request;
use media_fetcher::status::PlaybackStatus;
use media_fetcher::status::RepeatMode;

#[test]
fn parses_bare_type_requests() {
    assert_eq!(parse_request("{\"type\":\"GetAlbumArt\"}"), Some(Request::GetAlbumArt));
    assert_eq!(parse_request("{\"type\":\"Play\"}"), Some(Request::Play));
    assert_eq!(parse_request("{\"type\":\"Pause\"}"), Some(Request::Pause));
    assert_eq!(parse_request("{\"type\":\"SkipBackward\"}"), Some(Request::SkipBackward));
    assert_eq!(parse_request("{\"type\":\"SkipForward\"}"), Some(Request::SkipForward));
}

#[test]
fn parses_set_repeat_mode() {
    assert_eq!(
        parse_request("{\"type\":\"SetRepeatMode\",\"mode\":\"All\"}"),
        Some(Request::SetRepeatMode { mode: RepeatMode::All })
    );
    assert_eq!(
        parse_request("{\"type\":\"SetRepeatMode\",\"mode\":\"None\"}"),
        Some(Request::SetRepeatMode { mode: RepeatMode::Off })
    );
    assert_eq!(
        parse_request("{\"type\":\"SetRepeatMode\",\"mode\":\"One\"}"),
        Some(Request::SetRepeatMode { mode: RepeatMode::One })
    );
}

#[test]
fn parses_set_shuffle() {
    assert_eq!(
        parse_request("{\"type\":\"SetShuffle\",\"shuffle\":true}"),
        Some(Request::SetShuffle { shuffle: true })
    );
    assert_eq!(
        parse_request("{\"type\":\"SetShuffle\",\"shuffle\":false}"),
        Some(Request::SetShuffle { shuffle: false })
    );
}

#[test]
fn parses_seek_to_milliseconds() {
    assert_eq!(
        parse_request("{\"type\":\"Seek\",\"position\":12.5}"),
        Some(Request::Seek { position_ms: 12_500 })
    );
    assert_eq!(
        parse_request("{\"type\":\"Seek\",\"position\":7}"),
        Some(Request::Seek { position_ms: 7_000 })
    );
    assert_eq!(
        parse_request("{\"type\":\"Seek\",\"position\":0.001}"),
        Some(Request::Seek { position_ms: 1 })
    );
    assert_eq!(
        parse_request("{\"type\":\"Seek\",\"position\":1.23456}"),
        Some(Request::Seek { position_ms: 1_234 })
    );
}

#[test]
fn parses_argument_before_tag() {
    assert_eq!(
        parse_request("{\"mode\":\"All\",\"type\":\"SetRepeatMode\"}"),
        Some(Request::SetRepeatMode { mode: RepeatMode::All })
    );
}

#[test]
fn parses_with_whitespace_and_newline() {
    assert_eq!(
        parse_request(" { \"type\" : \"Play\" } \n"),
        Some(Request::Play)
    );
    assert_eq!(
        parse_request("{\"type\":\"Seek\", \"position\": 2.25}\n"),
        Some(Request::Seek { position_ms: 2_250 })
    );
}

#[test]
fn rejects_malformed_lines() {
    assert_eq!(parse_request("not json"), None);
    assert_eq!(parse_request(""), None);
    assert_eq!(parse_request("{"), None);
    assert_eq!(parse_request("{}"), None);
    assert_eq!(parse_request("{\"type\":\"Play\""), None);
    assert_eq!(parse_request("{\"type\":\"Play\"} trailing"), None);
    assert_eq!(parse_request("{\"type\":42}"), None);
}

#[test]
fn rejects_unknown_vocabulary() {
    assert_eq!(parse_request("{\"type\":\"Stop\"}"), None);
    assert_eq!(parse_request("{\"kind\":\"Play\"}"), None);
    assert_eq!(parse_request("{\"type\":\"SetRepeatMode\",\"mode\":\"Some\"}"), None);
    assert_eq!(parse_request("{\"type\":\"Play\",\"extra\":true}"), None);
    assert_eq!(parse_request("{\"type\":\"SetRepeatMode\"}"), None);
    assert_eq!(parse_request("{\"type\":\"Seek\",\"position\":-1}"), None);
}

#[test]
fn rejects_overflowing_seek() {
    // One more second than a millisecond u64 can carry.
    assert_eq!(parse_request("{\"type\":\"Seek\",\"position\":18446744073709551}"), None);
    assert_eq!(
        parse_request("{\"type\":\"Seek\",\"position\":18446744073709550}"),
        Some(Request::Seek { position_ms: 18_446_744_073_709_550_000 })
    );
}

#[test]
fn encodes_status_line_exactly() {
    let mut s = PlaybackStatus::absent();
    s.player_name = "AppName".to_string();
    s.title = "Song".to_string();
    s.artist = "Artist".to_string();
    s.album = "Al".to_string();
    s.album_artist = "AA".to_string();
    s.elapsed_ms = 12_500;
    s.duration_ms = 200_000;
    s.playing = true;
    s.repeat = RepeatMode::All;
    s.shuffle = false;
    s.track_number = 3;
    s.total_tracks = 12;
    let line = encode_status(&s);
    assert_eq!(
        line,
        "{\"type\":\"PlaybackStatus\",\"title\":\"Song\",\"artist\":\"Artist\",\
         \"album\":\"Al\",\"album_artist\":\"AA\",\"elapsed\":12.5,\"duration\":200.0,\
         \"playing\":true,\"repeat\":\"All\",\"shuffle\":false,\
         \"track_number\":3,\"total_tracks\":12}"
    );
}

#[test]
fn encodes_default_status_line() {
    let line = encode_status(&PlaybackStatus::absent());
    assert_eq!(
        line,
        "{\"type\":\"PlaybackStatus\",\"title\":\"\",\"artist\":\"\",\
         \"album\":\"\",\"album_artist\":\"\",\"elapsed\":0.0,\"duration\":0.0,\
         \"playing\":false,\"repeat\":\"None\",\"shuffle\":false,\
         \"track_number\":0,\"total_tracks\":0}"
    );
}

#[test]
fn encodes_fractional_times() {
    let mut s = PlaybackStatus::absent();
    s.elapsed_ms = 12_050;
    s.duration_ms = 12_345;
    let line = encode_status(&s);
    assert!(line.contains("\"elapsed\":12.05,"));
    assert!(line.contains("\"duration\":12.345,"));
}

#[test]
fn escapes_strings_in_status() {
    let mut s = PlaybackStatus::absent();
    s.title = "a\"b\\c\nd\te".to_string();
    s.artist = "\u{1}".to_string();
    let line = encode_status(&s);
    assert!(line.contains("\"title\":\"a\\\"b\\\\c\\nd\\te\","));
    assert!(line.contains("\"artist\":\"\\u0001\","));
}

#[test]
fn encodes_negative_track_numbers() {
    let mut s = PlaybackStatus::absent();
    s.track_number = -3;
    let line = encode_status(&s);
    assert!(line.contains("\"track_number\":-3,"));
}

#[test]
fn encodes_album_art_line() {
    let line = encode_album_art("data:image/png;base64,YWJj");
    assert_eq!(line, "{\"type\":\"AlbumArt\",\"data\":\"data:image/png;base64,YWJj\"}");
}

#[test]
fn encodes_responses_by_variant() {
    let art = Response::AlbumArt { data: "x".to_string() };
    assert_eq!(encode_response(&art), "{\"type\":\"AlbumArt\",\"data\":\"x\"}");
    let status = Response::PlaybackStatus(PlaybackStatus::absent());
    assert_eq!(encode_response(&status), encode_status(&PlaybackStatus::absent()));
}
