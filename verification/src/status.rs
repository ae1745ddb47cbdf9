//! The canonical playback-status snapshot and its approximate-equality rule.
//!
//! A status is compared field-for-field except for the two time fields, which
//! are compared within a fixed tolerance: elapsed time advances continuously,
//! and exact comparison would re-announce the status on every poll tick.

use vstd::prelude::*;

verus! {

/// Two statuses whose time fields differ by less than this many milliseconds
/// (0.1 seconds) count as the same observed state.
pub const TIME_TOLERANCE_MS: u64 = 100;

/// The repeat setting of a session.
#[derive(Clone, Copy, PartialEq, Eq, Structural, Debug)]
pub enum RepeatMode {
    Off,
    All,
    One,
}

/// One snapshot of the current media session, normalized across platforms.
///
/// Empty strings and zeros are the canonical "unknown" values; time is in
/// whole milliseconds.
#[derive(Clone, Debug)]
pub struct PlaybackStatus {
    pub player_name: String,
    pub title: String,
    pub artist: String,
    pub album: String,
    pub album_artist: String,
    pub elapsed_ms: u64,
    pub duration_ms: u64,
    pub playing: bool,
    pub repeat: RepeatMode,
    pub shuffle: bool,
    pub track_number: i32,
    pub total_tracks: i32,
}

/// The absolute difference of two integers.
pub open spec fn abs_diff(a: int, b: int) -> int {
    if a >= b {
        a - b
    } else {
        b - a
    }
}

/// Whether a status is the fixed all-default "nothing playing" value, the
/// sentinel emitted whenever no active session can be observed.
pub open spec fn is_absent(s: PlaybackStatus) -> bool {
    &&& s.player_name@ == Seq::<char>::empty()
    &&& s.title@ == Seq::<char>::empty()
    &&& s.artist@ == Seq::<char>::empty()
    &&& s.album@ == Seq::<char>::empty()
    &&& s.album_artist@ == Seq::<char>::empty()
    &&& s.elapsed_ms == 0
    &&& s.duration_ms == 0
    &&& s.playing == false
    &&& s.repeat == RepeatMode::Off
    &&& s.shuffle == false
    &&& s.track_number == 0
    &&& s.total_tracks == 0
}

/// Approximate equality: the same observed state, not worth re-announcing.
/// Titles, artist, playing, repeat and shuffle must match exactly; the two
/// time fields may each drift by less than the tolerance.
pub open spec fn spec_approx_eq(a: PlaybackStatus, b: PlaybackStatus) -> bool {
    &&& a.title@ == b.title@
    &&& a.artist@ == b.artist@
    &&& abs_diff(a.elapsed_ms as int, b.elapsed_ms as int) < TIME_TOLERANCE_MS
    &&& abs_diff(a.duration_ms as int, b.duration_ms as int) < TIME_TOLERANCE_MS
    &&& a.playing == b.playing
    &&& a.repeat == b.repeat
    &&& a.shuffle == b.shuffle
}

impl PlaybackStatus {
    /// The all-default "nothing playing" status.
    pub fn absent() -> (r: PlaybackStatus)
        ensures
            is_absent(r),
    {
        PlaybackStatus {
            player_name: String::new(),
            title: String::new(),
            artist: String::new(),
            album: String::new(),
            album_artist: String::new(),
            elapsed_ms: 0,
            duration_ms: 0,
            playing: false,
            repeat: RepeatMode::Off,
            shuffle: false,
            track_number: 0,
            total_tracks: 0,
        }
    }

    /// Whether `self` and `other` are the same observed state, up to the
    /// time tolerance.
    pub fn approx_eq(&self, other: &PlaybackStatus) -> (r: bool)
        ensures
            r == spec_approx_eq(*self, *other),
    {
        let time_close = if self.elapsed_ms >= other.elapsed_ms {
            self.elapsed_ms - other.elapsed_ms < TIME_TOLERANCE_MS
        } else {
            other.elapsed_ms - self.elapsed_ms < TIME_TOLERANCE_MS
        };
        let duration_close = if self.duration_ms >= other.duration_ms {
            self.duration_ms - other.duration_ms < TIME_TOLERANCE_MS
        } else {
            other.duration_ms - self.duration_ms < TIME_TOLERANCE_MS
        };
        self.title == other.title && self.artist == other.artist && time_close && duration_close
            && self.playing == other.playing && self.repeat == other.repeat && self.shuffle
            == other.shuffle
    }
}

impl Default for PlaybackStatus {
    /// The default status is the "nothing playing" sentinel.
    fn default() -> (r: PlaybackStatus)
        ensures
            is_absent(r),
    {
        PlaybackStatus::absent()
    }
}

/// Approximate equality is reflexive.
pub proof fn lemma_approx_eq_reflexive(s: PlaybackStatus)
    ensures
        spec_approx_eq(s, s),
{
}

/// Approximate equality is symmetric.
pub proof fn lemma_approx_eq_symmetric(a: PlaybackStatus, b: PlaybackStatus)
    ensures
        spec_approx_eq(a, b) == spec_approx_eq(b, a),
{
}

/// Approximate equality tolerates time drift: two statuses that agree on
/// every compared field and whose time fields each differ by less than the
/// tolerance are approximately equal.
pub proof fn lemma_approx_eq_tolerant(a: PlaybackStatus, b: PlaybackStatus)
    requires
        a.title@ == b.title@,
        a.artist@ == b.artist@,
        a.playing == b.playing,
        a.repeat == b.repeat,
        a.shuffle == b.shuffle,
        abs_diff(a.elapsed_ms as int, b.elapsed_ms as int) < TIME_TOLERANCE_MS,
        abs_diff(a.duration_ms as int, b.duration_ms as int) < TIME_TOLERANCE_MS,
    ensures
        spec_approx_eq(a, b),
{
}

/// Approximate equality detects real time movement: a drift of the tolerance
/// or more in either time field makes two statuses distinct.
pub proof fn lemma_approx_eq_detects_drift(a: PlaybackStatus, b: PlaybackStatus)
    requires
        abs_diff(a.elapsed_ms as int, b.elapsed_ms as int) >= TIME_TOLERANCE_MS || abs_diff(
            a.duration_ms as int,
            b.duration_ms as int,
        ) >= TIME_TOLERANCE_MS,
    ensures
        !spec_approx_eq(a, b),
{
}

} // verus!
