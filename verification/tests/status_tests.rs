use media_fetcher::status::PlaybackStatus;
use media_fetcher::status::RepeatMode;

fn sample() -> PlaybackStatus {
    let mut s = PlaybackStatus::absent();
    s.title = "Song".to_string();
    s.artist = "Artist".to_string();
    s.album = "Album".to_string();
    s.elapsed_ms = 10_000;
    s.duration_ms = 180_000;
    s.playing = true;
    s
}

#[test]
fn absent_is_all_default() {
    let s = PlaybackStatus::absent();
    assert_eq!(s.player_name, "");
    assert_eq!(s.title, "");
    assert_eq!(s.artist, "");
    assert_eq!(s.album, "");
    assert_eq!(s.album_artist, "");
    assert_eq!(s.elapsed_ms, 0);
    assert_eq!(s.duration_ms, 0);
    assert!(!s.playing);
    assert_eq!(s.repeat, RepeatMode::Off);
    assert!(!s.shuffle);
    assert_eq!(s.track_number, 0);
    assert_eq!(s.total_tracks, 0);
}

#[test]
fn default_matches_absent() {
    let d = PlaybackStatus::default();
    let a = PlaybackStatus::absent();
    assert!(d.approx_eq(&a));
    assert_eq!(d.title, a.title);
    assert_eq!(d.elapsed_ms, a.elapsed_ms);
}

#[test]
fn approx_eq_is_reflexive() {
    let s = sample();
    assert!(s.approx_eq(&s));
}

#[test]
fn approx_eq_tolerates_small_drift() {
    let a = sample();
    let mut b = sample();
    b.elapsed_ms = a.elapsed_ms + 99;
    b.duration_ms = a.duration_ms + 99;
    assert!(a.approx_eq(&b));
    assert!(b.approx_eq(&a));
}

#[test]
fn approx_eq_detects_tolerance_drift() {
    let a = sample();
    let mut b = sample();
    b.elapsed_ms = a.elapsed_ms + 100;
    assert!(!a.approx_eq(&b));
    assert!(!b.approx_eq(&a));
}

#[test]
fn approx_eq_detects_duration_drift() {
    let a = sample();
    let mut b = sample();
    b.duration_ms = a.duration_ms + 150;
    assert!(!a.approx_eq(&b));
}

#[test]
fn approx_eq_detects_title_change() {
    let a = sample();
    let mut b = sample();
    b.title = "Other".to_string();
    assert!(!a.approx_eq(&b));
}

#[test]
fn approx_eq_detects_playing_change() {
    let a = sample();
    let mut b = sample();
    b.playing = false;
    assert!(!a.approx_eq(&b));
}

#[test]
fn approx_eq_detects_repeat_change() {
    let a = sample();
    let mut b = sample();
    b.repeat = RepeatMode::All;
    assert!(!a.approx_eq(&b));
}

#[test]
fn approx_eq_ignores_album_and_track_fields() {
    let a = sample();
    let mut b = sample();
    b.album = "Elsewhere".to_string();
    b.album_artist = "Someone".to_string();
    b.track_number = 9;
    b.total_tracks = 20;
    b.player_name = "OtherApp".to_string();
    assert!(a.approx_eq(&b));
}
