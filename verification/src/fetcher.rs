//! The platform backends: each maps one observation of the native session
//! API to the canonical status and turns one request into the native calls
//! that carry it out.
//!
//! The native APIs themselves live outside the library. A backend receives
//! an already-read observation as plain values — a snapshot — and hands back
//! plain decisions, so every mapping rule and every command plan is checked
//! here, while the caller only performs the calls it is told to.

use vstd::prelude::*;
use crate::codec::str_eq;
use crate::status::PlaybackStatus;
use crate::status::RepeatMode;
use crate::status::is_absent;
use crate::protocol::Request;

verus! {

/// The transport state a native session reports.
#[derive(Clone, Copy, PartialEq, Eq, Structural, Debug)]
pub enum PlayState {
    Playing,
    Paused,
    Stopped,
}

/// Why a command could not even be planned against the current observation.
#[derive(Clone, Copy, PartialEq, Eq, Structural, Debug)]
pub enum CommandError {
    NoSession,
    NoInfo,
    NoRepeatMode,
    NoShuffleMode,
    NoTrack,
}

/// What the session-list observer of one platform saw: nothing, or one
/// platform's reading of the current session.
pub enum Snapshot {
    Absent,
    Linux(LinuxSnapshot),
    Mac(MacSnapshot),
    Windows(WindowsSnapshot),
}

/// The text of an optional string, empty when absent.
pub open spec fn opt_str(o: Option<String>) -> Seq<char> {
    match o {
        Some(s) => s@,
        None => Seq::empty(),
    }
}

/// An optional number with its default.
pub open spec fn opt_u64(o: Option<u64>, d: u64) -> u64 {
    match o {
        Some(n) => n,
        None => d,
    }
}

/// An optional flag with its default.
pub open spec fn opt_bool(o: Option<bool>, d: bool) -> bool {
    match o {
        Some(b) => b,
        None => d,
    }
}

/// An optional repeat mode, defaulting to no repeat.
pub open spec fn opt_repeat(o: Option<RepeatMode>) -> RepeatMode {
    match o {
        Some(m) => m,
        None => RepeatMode::Off,
    }
}

/// An optional track count that must fit an `i32`; a missing or
/// out-of-range value counts as unavailable, which is zero.
pub open spec fn opt_track(o: Option<i64>) -> i32 {
    match o {
        Some(n) => if i32::MIN <= n <= i32::MAX {
            n as i32
        } else {
            0
        },
        None => 0,
    }
}

fn unwrap_string(o: &Option<String>) -> (r: String)
    ensures
        r@ == opt_str(*o),
{
    match o {
        Some(s) => s.clone(),
        None => String::new(),
    }
}

/// Several names joined by one separator between each two.
pub open spec fn spec_join(items: Seq<Seq<char>>, sep: Seq<char>) -> Seq<char>
    decreases items.len(),
{
    if items.len() == 0 {
        Seq::empty()
    } else if items.len() == 1 {
        items[0]
    } else {
        spec_join(items.drop_last(), sep) + sep + items.last()
    }
}

/// Joins several names with `", "`, the canonical spelling of a list of
/// artists.
pub fn join_names(items: &Vec<String>) -> (r: String)
    ensures
        r@ == spec_join(items.deep_view(), ", "@),
{
    let mut out = String::new();
    let mut i: usize = 0;
    while i < items.len()
        invariant
            i <= items@.len(),
            out@ == spec_join(items.deep_view().take(i as int), ", "@),
        decreases items@.len() - i,
    {
        if i > 0 {
            out.append(", ");
        }
        out.append(items[i].as_str());
        proof {
            let dv = items.deep_view();
            assert(dv.take(i + 1).drop_last() =~= dv.take(i as int));
            assert(dv.take(i + 1).last() == dv[i as int]);
            assert(dv[i as int] == items@[i as int]@);
        }
        i = i + 1;
    }
    proof {
        assert(items.deep_view().take(items@.len() as int) =~= items.deep_view());
    }
    out
}

// ---------------------------------------------------------------------------
// The session-bus backend (MPRIS-style platforms)
// ---------------------------------------------------------------------------
/// What one read of an MPRIS-style player's metadata yielded; a field the
/// player did not provide is absent.
pub struct LinuxMetadata {
    pub title: Option<String>,
    pub artists: Option<Vec<String>>,
    pub album: Option<String>,
    pub album_artists: Option<Vec<String>>,
    pub track_number: Option<i32>,
    pub length_ms: Option<u64>,
}

/// One observation of the first MPRIS-style player on the session bus.
pub struct LinuxSnapshot {
    pub identity: String,
    pub play_state: PlayState,
    pub loop_status: Option<RepeatMode>,
    pub shuffle: Option<bool>,
    pub position_ms: Option<u64>,
    pub metadata: Option<LinuxMetadata>,
    /// Whether the player's track list names a current track — what a
    /// seek needs to aim at.
    pub has_track: bool,
}

/// The exact status an MPRIS observation maps to: every absent reading
/// falls back to the canonical default, artists are joined with `", "`, and
/// — the bus exposing no total track count — the total stays at the
/// canonical default of zero for an unavailable value.
pub open spec fn linux_status_matches(ls: LinuxSnapshot, r: PlaybackStatus) -> bool {
    &&& r.player_name@ == ls.identity@
    &&& r.playing == (ls.play_state is Playing)
    &&& r.repeat == opt_repeat(ls.loop_status)
    &&& r.shuffle == opt_bool(ls.shuffle, false)
    &&& r.elapsed_ms == opt_u64(ls.position_ms, 0)
    &&& match ls.metadata {
        Some(m) => {
            &&& r.title@ == opt_str(m.title)
            &&& r.artist@ == spec_join(
                match m.artists {
                    Some(a) => a.deep_view(),
                    None => Seq::empty(),
                },
                ", "@,
            )
            &&& r.album@ == opt_str(m.album)
            &&& r.album_artist@ == spec_join(
                match m.album_artists {
                    Some(a) => a.deep_view(),
                    None => Seq::empty(),
                },
                ", "@,
            )
            &&& r.track_number == (match m.track_number {
                Some(n) => n,
                None => 0,
            })
            &&& r.total_tracks == 0
            &&& r.duration_ms == opt_u64(m.length_ms, 0)
        },
        None => {
            &&& r.title@ == Seq::<char>::empty()
            &&& r.artist@ == Seq::<char>::empty()
            &&& r.album@ == Seq::<char>::empty()
            &&& r.album_artist@ == Seq::<char>::empty()
            &&& r.track_number == 0
            &&& r.total_tracks == 0
            &&& r.duration_ms == 0
        },
    }
}

/// A call against an MPRIS-style player.
#[derive(Clone, Copy, PartialEq, Eq, Structural, Debug)]
pub enum LinuxCall {
    PlayPause,
    Previous,
    Next,
    SetLoopStatus(RepeatMode),
    SetShuffle(bool),
    SetPositionMs(u64),
    FetchArtUrl,
}

/// The one native call each request maps to on an MPRIS-style platform.
/// Play and Pause both toggle, the only transport the bus offers; a seek
/// needs a current track to aim at and cannot be planned without one.
pub open spec fn spec_linux_plan(req: Request, has_track: bool) -> Result<LinuxCall, CommandError> {
    match req {
        Request::GetAlbumArt => Ok(LinuxCall::FetchArtUrl),
        Request::Play => Ok(LinuxCall::PlayPause),
        Request::Pause => Ok(LinuxCall::PlayPause),
        Request::SkipBackward => Ok(LinuxCall::Previous),
        Request::SkipForward => Ok(LinuxCall::Next),
        Request::SetRepeatMode { mode } => Ok(LinuxCall::SetLoopStatus(mode)),
        Request::SetShuffle { shuffle } => Ok(LinuxCall::SetShuffle(shuffle)),
        Request::Seek { position_ms } => if has_track {
            Ok(LinuxCall::SetPositionMs(position_ms))
        } else {
            Err(CommandError::NoTrack)
        },
    }
}

/// The MPRIS-style backend.
#[derive(Default)]
pub struct LinuxMediaFetcher {}

impl LinuxMediaFetcher {
    /// Maps one player observation to the canonical status.
    pub fn status_of(ls: &LinuxSnapshot) -> (r: PlaybackStatus)
        ensures
            linux_status_matches(*ls, r),
    {
        let mut r = PlaybackStatus::absent();
        r.player_name = ls.identity.clone();
        r.playing = match ls.play_state {
            PlayState::Playing => true,
            _ => false,
        };
        r.repeat = match ls.loop_status {
            Some(m) => m,
            None => RepeatMode::Off,
        };
        r.shuffle = match ls.shuffle {
            Some(b) => b,
            None => false,
        };
        r.elapsed_ms = match ls.position_ms {
            Some(p) => p,
            None => 0,
        };
        match &ls.metadata {
            Some(m) => {
                r.title = unwrap_string(&m.title);
                r.artist = match &m.artists {
                    Some(a) => join_names(a),
                    None => String::new(),
                };
                r.album = unwrap_string(&m.album);
                r.album_artist = match &m.album_artists {
                    Some(a) => join_names(a),
                    None => String::new(),
                };
                r.track_number = match m.track_number {
                    Some(n) => n,
                    None => 0,
                };
                r.duration_ms = match m.length_ms {
                    Some(d) => d,
                    None => 0,
                };
            },
            None => {},
        }
        r
    }

    /// Plans one request against the current observation.
    pub fn plan(req: &Request, has_track: bool) -> (r: Result<LinuxCall, CommandError>)
        ensures
            r == spec_linux_plan(*req, has_track),
    {
        match req {
            Request::GetAlbumArt => Ok(LinuxCall::FetchArtUrl),
            Request::Play => Ok(LinuxCall::PlayPause),
            Request::Pause => Ok(LinuxCall::PlayPause),
            Request::SkipBackward => Ok(LinuxCall::Previous),
            Request::SkipForward => Ok(LinuxCall::Next),
            Request::SetRepeatMode { mode } => Ok(LinuxCall::SetLoopStatus(*mode)),
            Request::SetShuffle { shuffle } => Ok(LinuxCall::SetShuffle(*shuffle)),
            Request::Seek { position_ms } => if has_track {
                Ok(LinuxCall::SetPositionMs(*position_ms))
            } else {
                Err(CommandError::NoTrack)
            },
        }
    }
}

// ---------------------------------------------------------------------------
// The media-remote backend
// ---------------------------------------------------------------------------
/// The primary now-playing record of the media-remote API.
pub struct MacInfo {
    pub bundle_name: Option<String>,
    pub title: Option<String>,
    pub artist: Option<String>,
    pub album: Option<String>,
    pub elapsed_ms: Option<u64>,
    pub duration_ms: Option<u64>,
    pub is_playing: Option<bool>,
}

/// The secondary key-value readings that the primary record does not carry:
/// raw shuffle and repeat codes and the track counts.
#[derive(Clone, Copy)]
pub struct MacExtra {
    pub shuffle_mode: Option<i64>,
    pub repeat_mode: Option<i64>,
    pub track_number: Option<i64>,
    pub total_tracks: Option<i64>,
}

/// One observation through the media-remote API.
pub struct MacSnapshot {
    pub info: Option<MacInfo>,
    pub extra: Option<MacExtra>,
}

/// An application bundle's display name: a trailing `.app` is cut off.
pub open spec fn spec_strip_app(n: Seq<char>) -> Seq<char> {
    if n.len() >= 4 && n.subrange(n.len() - 4, n.len() as int) == ".app"@ {
        n.take(n.len() - 4)
    } else {
        n
    }
}

/// Cuts a trailing `.app` off an application bundle name.
pub fn strip_app_suffix(name: &str) -> (r: String)
    ensures
        r@ == spec_strip_app(name@),
{
    proof {
        reveal_strlit(".app");
    }
    let len = name.unicode_len();
    if len >= 4 && crate::parse::match_at(name, len - 4, ".app") {
        let stripped = name.substring_char(0, len - 4);
        proof {
            assert(name@.subrange(len - 4, len as int) =~= name@.subrange(
                len - 4,
                len - 4 + ".app"@.len(),
            ));
            assert(name@.subrange(0, len - 4) =~= name@.take(len - 4));
        }
        stripped.to_owned()
    } else {
        proof {
            if len >= 4 {
                assert(name@.subrange(len - 4, len as int) =~= name@.subrange(
                    len - 4,
                    len - 4 + ".app"@.len(),
                ));
            }
        }
        name.to_owned()
    }
}

/// The raw shuffle code meaning "shuffle off"; every other present code
/// counts as on.
pub open spec fn spec_mac_shuffle(o: Option<i64>) -> bool {
    match o {
        Some(c) => c != 1,
        None => false,
    }
}

/// The repeat mode a raw media-remote repeat code names; an unknown code
/// leaves the default.
pub open spec fn spec_mac_repeat(o: Option<i64>) -> RepeatMode {
    match o {
        Some(c) => if c == 2 {
            RepeatMode::One
        } else if c == 3 {
            RepeatMode::All
        } else {
            RepeatMode::Off
        },
        None => RepeatMode::Off,
    }
}

/// The exact status a media-remote observation maps to. Without the primary
/// record there is nothing to report and the status is the absent sentinel;
/// with it, absent fields fall back to defaults, the artist stands in for
/// the album artist the API does not provide, and the bundle name loses its
/// `.app` suffix.
pub open spec fn mac_status_matches(ms: MacSnapshot, r: PlaybackStatus) -> bool {
    match ms.info {
        None => is_absent(r),
        Some(i) => {
            &&& r.player_name@ == spec_strip_app(opt_str(i.bundle_name))
            &&& r.title@ == opt_str(i.title)
            &&& r.artist@ == opt_str(i.artist)
            &&& r.album_artist@ == opt_str(i.artist)
            &&& r.album@ == opt_str(i.album)
            &&& r.elapsed_ms == opt_u64(i.elapsed_ms, 0)
            &&& r.duration_ms == opt_u64(i.duration_ms, 0)
            &&& r.playing == opt_bool(i.is_playing, false)
            &&& match ms.extra {
                Some(e) => {
                    &&& r.shuffle == spec_mac_shuffle(e.shuffle_mode)
                    &&& r.repeat == spec_mac_repeat(e.repeat_mode)
                    &&& r.track_number == opt_track(e.track_number)
                    &&& r.total_tracks == opt_track(e.total_tracks)
                },
                None => {
                    &&& r.shuffle == false
                    &&& r.repeat == RepeatMode::Off
                    &&& r.track_number == 0
                    &&& r.total_tracks == 0
                },
            }
        },
    }
}

fn track_of(o: &Option<i64>) -> (r: i32)
    ensures
        r == opt_track(*o),
{
    match o {
        Some(n) => {
            let n = *n;
            if i32::MIN as i64 <= n && n <= i32::MAX as i64 {
                n as i32
            } else {
                0
            }
        },
        None => 0,
    }
}

/// A call against the media-remote API. Repeat and shuffle have no direct
/// setters there: repeat advances cyclically a counted number of times, and
/// shuffle is one toggle or nothing.
#[derive(Clone, Copy, PartialEq, Eq, Structural, Debug)]
pub enum MacCall {
    Toggle,
    Previous,
    Next,
    AdvanceRepeat(u64),
    ToggleShuffle(bool),
    SetElapsedMs(u64),
    FetchCover,
}

/// The raw media-remote code of a repeat mode.
pub open spec fn spec_mr_code(m: RepeatMode) -> int {
    match m {
        RepeatMode::Off => 1,
        RepeatMode::One => 2,
        RepeatMode::All => 3,
    }
}

/// The repeat mode after one advance command: no repeat, one track, all
/// tracks, and around again.
pub open spec fn spec_advance_repeat(m: RepeatMode) -> RepeatMode {
    match m {
        RepeatMode::Off => RepeatMode::One,
        RepeatMode::One => RepeatMode::All,
        RepeatMode::All => RepeatMode::Off,
    }
}

/// The repeat mode `n` advance commands reach from `m`.
pub open spec fn spec_iter_advance(n: nat, m: RepeatMode) -> RepeatMode
    decreases n,
{
    if n == 0 {
        m
    } else {
        spec_advance_repeat(spec_iter_advance((n - 1) as nat, m))
    }
}

/// How many advance commands lead from `current` to `target`: the
/// difference of their codes around the three-mode cycle. Never more than
/// two.
pub open spec fn spec_advance_count(current: RepeatMode, target: RepeatMode) -> int {
    let d = spec_mr_code(target) - spec_mr_code(current);
    if d >= 0 {
        d
    } else {
        d + 3
    }
}

/// Counts the advance commands needed to reach `target` from `current`.
pub fn advance_count(current: RepeatMode, target: RepeatMode) -> (r: u64)
    ensures
        r == spec_advance_count(current, target),
        r <= 2,
{
    let c: u64 = match current {
        RepeatMode::Off => 1,
        RepeatMode::One => 2,
        RepeatMode::All => 3,
    };
    let t: u64 = match target {
        RepeatMode::Off => 1,
        RepeatMode::One => 2,
        RepeatMode::All => 3,
    };
    if t >= c {
        t - c
    } else {
        t + 3 - c
    }
}

/// The advance count is exactly right and minimal: issuing that many
/// advance commands reaches the target, and no smaller number does. The
/// count is at most two — three advances would only come around full
/// circle.
pub proof fn lemma_advance_count_minimal(current: RepeatMode, target: RepeatMode)
    ensures
        spec_advance_count(current, target) <= 2,
        spec_iter_advance(spec_advance_count(current, target) as nat, current) == target,
        forall|n: nat|
            n < spec_advance_count(current, target) ==> spec_iter_advance(n, current) != target,
{
    assert(spec_iter_advance(0, current) == current);
    assert(spec_iter_advance(1, current) == spec_advance_repeat(current));
    assert(spec_iter_advance(2, current) == spec_advance_repeat(spec_advance_repeat(current)));
}

/// The repeat mode named by a raw media-remote repeat code, for planning an
/// advance; an unknown code counts as no repeat.
pub open spec fn spec_mode_of_code(c: i64) -> RepeatMode {
    if c == 2 {
        RepeatMode::One
    } else if c == 3 {
        RepeatMode::All
    } else {
        RepeatMode::Off
    }
}

/// The exact plan for one request against a media-remote observation.
/// Transport requests need no observation. Repeat needs the current raw
/// code — without the key-value readings it cannot be planned — and is a
/// counted number of advances; shuffle is one toggle exactly when the raw
/// code disagrees with the wanted state.
pub open spec fn spec_mac_plan(req: Request, extra: Option<MacExtra>) -> Result<
    MacCall,
    CommandError,
> {
    match req {
        Request::GetAlbumArt => Ok(MacCall::FetchCover),
        Request::Play => Ok(MacCall::Toggle),
        Request::Pause => Ok(MacCall::Toggle),
        Request::SkipBackward => Ok(MacCall::Previous),
        Request::SkipForward => Ok(MacCall::Next),
        Request::SetRepeatMode { mode } => match extra {
            None => Err(CommandError::NoInfo),
            Some(e) => match e.repeat_mode {
                None => Err(CommandError::NoRepeatMode),
                Some(code) => Ok(
                    MacCall::AdvanceRepeat(
                        spec_advance_count(spec_mode_of_code(code), mode) as u64,
                    ),
                ),
            },
        },
        Request::SetShuffle { shuffle } => match extra {
            None => Err(CommandError::NoInfo),
            Some(e) => match e.shuffle_mode {
                None => Err(CommandError::NoShuffleMode),
                Some(code) => Ok(MacCall::ToggleShuffle((code == 3) != shuffle)),
            },
        },
        Request::Seek { position_ms } => Ok(MacCall::SetElapsedMs(position_ms)),
    }
}

/// The media-remote backend.
#[derive(Default)]
pub struct MacMediaFetcher {}

impl MacMediaFetcher {
    /// Maps one media-remote observation to the canonical status.
    pub fn status_of(ms: &MacSnapshot) -> (r: PlaybackStatus)
        ensures
            mac_status_matches(*ms, r),
    {
        let info = match &ms.info {
            Some(i) => i,
            None => {
                return PlaybackStatus::absent();
            },
        };
        let mut r = PlaybackStatus::absent();
        let bundle = unwrap_string(&info.bundle_name);
        r.player_name = strip_app_suffix(bundle.as_str());
        r.title = unwrap_string(&info.title);
        r.artist = unwrap_string(&info.artist);
        r.album_artist = unwrap_string(&info.artist);
        r.album = unwrap_string(&info.album);
        r.elapsed_ms = match info.elapsed_ms {
            Some(e) => e,
            None => 0,
        };
        r.duration_ms = match info.duration_ms {
            Some(d) => d,
            None => 0,
        };
        r.playing = match info.is_playing {
            Some(p) => p,
            None => false,
        };
        match &ms.extra {
            Some(e) => {
                r.shuffle = match e.shuffle_mode {
                    Some(c) => c != 1,
                    None => false,
                };
                r.repeat = match e.repeat_mode {
                    Some(c) => if c == 2 {
                        RepeatMode::One
                    } else if c == 3 {
                        RepeatMode::All
                    } else {
                        RepeatMode::Off
                    },
                    None => RepeatMode::Off,
                };
                r.track_number = track_of(&e.track_number);
                r.total_tracks = track_of(&e.total_tracks);
            },
            None => {},
        }
        r
    }

    /// Plans one request against the current observation.
    pub fn plan(req: &Request, extra: &Option<MacExtra>) -> (r: Result<MacCall, CommandError>)
        ensures
            r == spec_mac_plan(*req, *extra),
    {
        match req {
            Request::GetAlbumArt => Ok(MacCall::FetchCover),
            Request::Play => Ok(MacCall::Toggle),
            Request::Pause => Ok(MacCall::Toggle),
            Request::SkipBackward => Ok(MacCall::Previous),
            Request::SkipForward => Ok(MacCall::Next),
            Request::SetRepeatMode { mode } => match extra {
                None => Err(CommandError::NoInfo),
                Some(e) => match e.repeat_mode {
                    None => Err(CommandError::NoRepeatMode),
                    Some(code) => {
                        let current = if code == 2 {
                            RepeatMode::One
                        } else if code == 3 {
                            RepeatMode::All
                        } else {
                            RepeatMode::Off
                        };
                        Ok(MacCall::AdvanceRepeat(advance_count(current, *mode)))
                    },
                },
            },
            Request::SetShuffle { shuffle } => match extra {
                None => Err(CommandError::NoInfo),
                Some(e) => match e.shuffle_mode {
                    None => Err(CommandError::NoShuffleMode),
                    Some(code) => Ok(MacCall::ToggleShuffle((code == 3) != *shuffle)),
                },
            },
            Request::Seek { position_ms } => Ok(MacCall::SetElapsedMs(*position_ms)),
        }
    }
}

/// The key under which the media-remote info dictionary files one reading.
pub fn format_mr_key(suffix: &str) -> (r: String)
    ensures
        r@ == "kMRMediaRemoteNowPlayingInfo"@ + suffix@,
{
    let mut key = String::new();
    key.append("kMRMediaRemoteNowPlayingInfo");
    key.append(suffix);
    key
}

// ---------------------------------------------------------------------------
// The transport-controls backend
// ---------------------------------------------------------------------------
/// The media fields of a transport-controls session.
pub struct WindowsMedia {
    pub title: Option<String>,
    pub artist: Option<String>,
    pub album: Option<String>,
    pub album_artist: Option<String>,
    pub track_number: Option<i32>,
    pub total_tracks: Option<i32>,
}

/// One observation of the current transport-controls session. Times come as
/// 100-nanosecond ticks.
pub struct WindowsSnapshot {
    pub app_media_id: String,
    pub position_ticks: i64,
    pub end_time_ticks: i64,
    pub play_state: PlayState,
    pub repeat: Option<RepeatMode>,
    pub shuffle: Option<bool>,
    pub media: Option<WindowsMedia>,
}

/// Whole milliseconds from 100-nanosecond ticks; a negative reading counts
/// as zero.
pub open spec fn spec_ticks_to_ms(t: int) -> int {
    if t <= 0 {
        0
    } else {
        t / 10000
    }
}

pub fn ticks_to_ms(t: i64) -> (r: u64)
    ensures
        r == spec_ticks_to_ms(t as int),
{
    if t <= 0 {
        0
    } else {
        (t as u64) / 10000
    }
}

/// The exact status a transport-controls observation maps to. A session
/// whose duration reads as zero is the sentinel for one whose application
/// has already closed: it maps to the absent status, not to a zero-length
/// track. Otherwise absent fields fall back to defaults.
pub open spec fn windows_status_matches(ws: WindowsSnapshot, r: PlaybackStatus) -> bool {
    if spec_ticks_to_ms(ws.end_time_ticks as int) == 0 {
        is_absent(r)
    } else {
        &&& r.player_name@ == ws.app_media_id@
        &&& r.elapsed_ms == spec_ticks_to_ms(ws.position_ticks as int)
        &&& r.duration_ms == spec_ticks_to_ms(ws.end_time_ticks as int)
        &&& r.playing == (ws.play_state is Playing)
        &&& r.repeat == opt_repeat(ws.repeat)
        &&& r.shuffle == opt_bool(ws.shuffle, false)
        &&& match ws.media {
            Some(m) => {
                &&& r.title@ == opt_str(m.title)
                &&& r.artist@ == opt_str(m.artist)
                &&& r.album@ == opt_str(m.album)
                &&& r.album_artist@ == opt_str(m.album_artist)
                &&& r.track_number == (match m.track_number {
                    Some(n) => n,
                    None => 0,
                })
                &&& r.total_tracks == (match m.total_tracks {
                    Some(n) => n,
                    None => 0,
                })
            },
            None => {
                &&& r.title@ == Seq::<char>::empty()
                &&& r.artist@ == Seq::<char>::empty()
                &&& r.album@ == Seq::<char>::empty()
                &&& r.album_artist@ == Seq::<char>::empty()
                &&& r.track_number == 0
                &&& r.total_tracks == 0
            },
        }
    }
}

/// A call against the transport-controls session.
#[derive(Clone, Copy, PartialEq, Eq, Structural, Debug)]
pub enum WindowsCall {
    TryPlay,
    TryPause,
    Previous,
    Next,
    SetRepeat(RepeatMode),
    SetShuffle(bool),
    SeekTicks(i64),
    FetchThumbnail,
}

/// A seek position in ticks: milliseconds times ten thousand, saturating at
/// the largest tick count.
pub open spec fn spec_seek_ticks(ms: int) -> int {
    if ms * 10000 > i64::MAX {
        i64::MAX as int
    } else {
        ms * 10000
    }
}

pub fn seek_ticks(ms: u64) -> (r: i64)
    ensures
        r == spec_seek_ticks(ms as int),
{
    if ms > (i64::MAX as u64) / 10000 {
        i64::MAX
    } else {
        (ms * 10000) as i64
    }
}

/// The exact plan for one request against a transport-controls observation:
/// Play and Pause resolve against the session's present state — pause what
/// plays, play anything else — and every other request maps directly.
pub open spec fn spec_windows_plan(req: Request, playing: bool) -> WindowsCall {
    match req {
        Request::GetAlbumArt => WindowsCall::FetchThumbnail,
        Request::Play => if playing {
            WindowsCall::TryPause
        } else {
            WindowsCall::TryPlay
        },
        Request::Pause => if playing {
            WindowsCall::TryPause
        } else {
            WindowsCall::TryPlay
        },
        Request::SkipBackward => WindowsCall::Previous,
        Request::SkipForward => WindowsCall::Next,
        Request::SetRepeatMode { mode } => WindowsCall::SetRepeat(mode),
        Request::SetShuffle { shuffle } => WindowsCall::SetShuffle(shuffle),
        Request::Seek { position_ms } => WindowsCall::SeekTicks(
            spec_seek_ticks(position_ms as int) as i64,
        ),
    }
}

/// The free-tier client of one streaming service marks its covers; these
/// are its application identities.
pub fn is_watermarking_app(app_media_id: &str) -> (r: bool)
    ensures
        r == (app_media_id@ == "Spotify.exe"@ || app_media_id@
            == "SpotifyAB.SpotifyMusic_zpdnekdrzrea0!Spotify"@),
{
    str_eq(app_media_id, "Spotify.exe") || str_eq(
        app_media_id,
        "SpotifyAB.SpotifyMusic_zpdnekdrzrea0!Spotify",
    )
}

/// How often, and how far apart, a metadata read is retried after the
/// native API reports its spurious transient failure.
pub struct RetryPolicy {
    pub attempts: u64,
    pub interval_ms: u64,
}

impl RetryPolicy {
    /// The documented policy for album-art metadata: five attempts, one
    /// second apart.
    pub fn album_art() -> (r: RetryPolicy)
        ensures
            r.attempts == 5,
            r.interval_ms == 1000,
    {
        RetryPolicy { attempts: 5, interval_ms: 1000 }
    }

    /// Whether one more attempt is owed after `made` attempts without
    /// success.
    pub fn should_retry(&self, made: u64, succeeded: bool) -> (r: bool)
        ensures
            r == (!succeeded && made < self.attempts),
    {
        !succeeded && made < self.attempts
    }
}

/// The transport-controls backend.
#[derive(Default)]
pub struct WindowsMediaFetcher {}

impl WindowsMediaFetcher {
    /// Maps one transport-controls observation to the canonical status.
    pub fn status_of(ws: &WindowsSnapshot) -> (r: PlaybackStatus)
        ensures
            windows_status_matches(*ws, r),
    {
        let duration_ms = ticks_to_ms(ws.end_time_ticks);
        if duration_ms == 0 {
            return PlaybackStatus::absent();
        }
        let mut r = PlaybackStatus::absent();
        r.player_name = ws.app_media_id.clone();
        r.elapsed_ms = ticks_to_ms(ws.position_ticks);
        r.duration_ms = duration_ms;
        r.playing = match ws.play_state {
            PlayState::Playing => true,
            _ => false,
        };
        r.repeat = match ws.repeat {
            Some(m) => m,
            None => RepeatMode::Off,
        };
        r.shuffle = match ws.shuffle {
            Some(b) => b,
            None => false,
        };
        match &ws.media {
            Some(m) => {
                r.title = unwrap_string(&m.title);
                r.artist = unwrap_string(&m.artist);
                r.album = unwrap_string(&m.album);
                r.album_artist = unwrap_string(&m.album_artist);
                r.track_number = match m.track_number {
                    Some(n) => n,
                    None => 0,
                };
                r.total_tracks = match m.total_tracks {
                    Some(n) => n,
                    None => 0,
                };
            },
            None => {},
        }
        r
    }

    /// Plans one request against the session's present transport state.
    pub fn plan(req: &Request, playing: bool) -> (r: WindowsCall)
        ensures
            r == spec_windows_plan(*req, playing),
    {
        match req {
            Request::GetAlbumArt => WindowsCall::FetchThumbnail,
            Request::Play | Request::Pause => if playing {
                WindowsCall::TryPause
            } else {
                WindowsCall::TryPlay
            },
            Request::SkipBackward => WindowsCall::Previous,
            Request::SkipForward => WindowsCall::Next,
            Request::SetRepeatMode { mode } => WindowsCall::SetRepeat(*mode),
            Request::SetShuffle { shuffle } => WindowsCall::SetShuffle(*shuffle),
            Request::Seek { position_ms } => WindowsCall::SeekTicks(seek_ticks(*position_ms)),
        }
    }
}

// ---------------------------------------------------------------------------
// The capability the runtime sees
// ---------------------------------------------------------------------------
/// One native call of whichever platform is compiled in.
#[derive(Clone, Copy, PartialEq, Eq, Structural, Debug)]
pub enum NativeCall {
    Linux(LinuxCall),
    Mac(MacCall),
    Windows(WindowsCall),
}

/// What a platform backend does: map an observation of the native session
/// API to the canonical status, and turn a request into the native calls
/// that carry it out. One backend exists per platform; each only
/// understands its own platform's observations and treats any other as no
/// session.
pub trait MediaFetcher {
    /// The backend's exact observation-to-status mapping.
    spec fn status_spec(&self, snap: Snapshot, s: PlaybackStatus) -> bool;

    /// The backend's exact request-to-plan mapping.
    spec fn plan_spec(&self, req: Request, snap: Snapshot, r: Result<NativeCall, CommandError>)
        -> bool;

    /// Maps one observation to the canonical status. No active session
    /// always maps to the exact all-default status.
    fn poll_once(&self, snap: &Snapshot) -> (s: PlaybackStatus)
        ensures
            self.status_spec(*snap, s),
            *snap is Absent ==> is_absent(s),
    ;

    /// Plans the native calls for one request against one observation.
    fn plan_command(&self, req: &Request, snap: &Snapshot) -> (r: Result<NativeCall, CommandError>)
        ensures
            self.plan_spec(*req, *snap, r),
    ;
}

impl MediaFetcher for LinuxMediaFetcher {
    open spec fn status_spec(&self, snap: Snapshot, s: PlaybackStatus) -> bool {
        match snap {
            Snapshot::Linux(ls) => linux_status_matches(ls, s),
            _ => is_absent(s),
        }
    }

    open spec fn plan_spec(
        &self,
        req: Request,
        snap: Snapshot,
        r: Result<NativeCall, CommandError>,
    ) -> bool {
        match snap {
            Snapshot::Linux(ls) => match spec_linux_plan(req, ls.has_track) {
                Ok(c) => r == Ok::<NativeCall, CommandError>(NativeCall::Linux(c)),
                Err(e) => r == Err::<NativeCall, CommandError>(e),
            },
            _ => r == Err::<NativeCall, CommandError>(CommandError::NoSession),
        }
    }

    fn poll_once(&self, snap: &Snapshot) -> (s: PlaybackStatus) {
        match snap {
            Snapshot::Linux(ls) => LinuxMediaFetcher::status_of(ls),
            _ => PlaybackStatus::absent(),
        }
    }

    fn plan_command(&self, req: &Request, snap: &Snapshot) -> (r: Result<
        NativeCall,
        CommandError,
    >) {
        match snap {
            Snapshot::Linux(ls) => match LinuxMediaFetcher::plan(req, ls.has_track) {
                Ok(c) => Ok(NativeCall::Linux(c)),
                Err(e) => Err(e),
            },
            _ => Err(CommandError::NoSession),
        }
    }
}

impl MediaFetcher for MacMediaFetcher {
    open spec fn status_spec(&self, snap: Snapshot, s: PlaybackStatus) -> bool {
        match snap {
            Snapshot::Mac(ms) => mac_status_matches(ms, s),
            _ => is_absent(s),
        }
    }

    open spec fn plan_spec(
        &self,
        req: Request,
        snap: Snapshot,
        r: Result<NativeCall, CommandError>,
    ) -> bool {
        match snap {
            Snapshot::Mac(ms) => match spec_mac_plan(req, ms.extra) {
                Ok(c) => r == Ok::<NativeCall, CommandError>(NativeCall::Mac(c)),
                Err(e) => r == Err::<NativeCall, CommandError>(e),
            },
            _ => match spec_mac_plan(req, None) {
                Ok(c) => r == Ok::<NativeCall, CommandError>(NativeCall::Mac(c)),
                Err(e) => r == Err::<NativeCall, CommandError>(e),
            },
        }
    }

    fn poll_once(&self, snap: &Snapshot) -> (s: PlaybackStatus) {
        match snap {
            Snapshot::Mac(ms) => MacMediaFetcher::status_of(ms),
            _ => PlaybackStatus::absent(),
        }
    }

    fn plan_command(&self, req: &Request, snap: &Snapshot) -> (r: Result<
        NativeCall,
        CommandError,
    >) {
        let plan = match snap {
            Snapshot::Mac(ms) => MacMediaFetcher::plan(req, &ms.extra),
            _ => MacMediaFetcher::plan(req, &None),
        };
        match plan {
            Ok(c) => Ok(NativeCall::Mac(c)),
            Err(e) => Err(e),
        }
    }
}

impl MediaFetcher for WindowsMediaFetcher {
    open spec fn status_spec(&self, snap: Snapshot, s: PlaybackStatus) -> bool {
        match snap {
            Snapshot::Windows(ws) => windows_status_matches(ws, s),
            _ => is_absent(s),
        }
    }

    open spec fn plan_spec(
        &self,
        req: Request,
        snap: Snapshot,
        r: Result<NativeCall, CommandError>,
    ) -> bool {
        match snap {
            Snapshot::Windows(ws) => r == Ok::<NativeCall, CommandError>(
                NativeCall::Windows(spec_windows_plan(req, ws.play_state is Playing)),
            ),
            _ => r == Err::<NativeCall, CommandError>(CommandError::NoSession),
        }
    }

    fn poll_once(&self, snap: &Snapshot) -> (s: PlaybackStatus) {
        match snap {
            Snapshot::Windows(ws) => WindowsMediaFetcher::status_of(ws),
            _ => PlaybackStatus::absent(),
        }
    }

    fn plan_command(&self, req: &Request, snap: &Snapshot) -> (r: Result<
        NativeCall,
        CommandError,
    >) {
        match snap {
            Snapshot::Windows(ws) => {
                let playing = match ws.play_state {
                    PlayState::Playing => true,
                    _ => false,
                };
                Ok(NativeCall::Windows(WindowsMediaFetcher::plan(req, playing)))
            },
            _ => Err(CommandError::NoSession),
        }
    }
}

} // verus!
