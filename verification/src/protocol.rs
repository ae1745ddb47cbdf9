//! The line-delimited JSON vocabulary spoken with the parent process: the
//! inbound request grammar and the outbound response lines.
//!
//! Every request is one JSON object of at most two members — a `type` tag
//! and at most one argument — so the grammar is stated closed-form. A line
//! outside the vocabulary (malformed JSON, an unknown tag or key, a spare
//! member, an escape sequence) is simply not understood: the caller skips it
//! and no response is owed.

use vstd::prelude::*;
use crate::codec::push_char;
use crate::codec::push_dec_i32;
use crate::codec::push_json_string;
use crate::codec::push_seconds;
use crate::codec::spec_dec_i64;
use crate::codec::spec_json_string;
use crate::codec::spec_seconds;
use crate::codec::str_eq;
use crate::parse::parse_bool;
use crate::parse::parse_number_ms;
use crate::parse::parse_string;
use crate::parse::skip_ws;
use crate::parse::spec_parse_bool;
use crate::parse::spec_parse_number_ms;
use crate::parse::spec_parse_string;
use crate::parse::spec_skip_ws;
use crate::status::PlaybackStatus;
use crate::status::RepeatMode;

verus! {

/// A playback-control request from the parent. Time arguments are whole
/// milliseconds.
#[derive(Clone, Copy, PartialEq, Eq, Structural, Debug)]
pub enum Request {
    GetAlbumArt,
    Play,
    Pause,
    SkipBackward,
    SkipForward,
    SetRepeatMode { mode: RepeatMode },
    SetShuffle { shuffle: bool },
    Seek { position_ms: u64 },
}

/// A message to the parent: either one album-art data URI or one playback
/// status.
#[derive(Clone, Debug)]
pub enum Response {
    AlbumArt { data: String },
    PlaybackStatus(PlaybackStatus),
}

/// A member value of a request object: a string, a boolean, or a number
/// read as milliseconds.
#[derive(Clone, Debug)]
pub enum JsonValue {
    S(String),
    B(bool),
    N(u64),
}

/// The spec-level image of a member value.
pub enum SpecValue {
    S(Seq<char>),
    B(bool),
    N(u64),
}

/// The spec-level image of an exec member value.
pub open spec fn value_view(v: JsonValue) -> SpecValue {
    match v {
        JsonValue::S(s) => SpecValue::S(s@),
        JsonValue::B(b) => SpecValue::B(b),
        JsonValue::N(n) => SpecValue::N(n),
    }
}

/// One `"key": value` member at `i`: the key, the value, and the position
/// after the value.
pub open spec fn spec_parse_pair(s: Seq<char>, i: int) -> Option<(Seq<char>, SpecValue, int)> {
    match spec_parse_string(s, i) {
        Some((k, p)) => {
            let q = spec_skip_ws(s, p);
            if q < s.len() && s[q] == ':' {
                let r = spec_skip_ws(s, q + 1);
                match spec_parse_string(s, r) {
                    Some((v, e)) => Some((k, SpecValue::S(v), e)),
                    None => match spec_parse_bool(s, r) {
                        Some((b, e)) => Some((k, SpecValue::B(b), e)),
                        None => match spec_parse_number_ms(s, r) {
                            Some((n, e)) => Some((k, SpecValue::N(n), e)),
                            None => None,
                        },
                    },
                }
            } else {
                None
            }
        },
        None => None,
    }
}

fn parse_pair(s: &str, i: usize) -> (r: Option<(String, JsonValue, usize)>)
    requires
        i <= s@.len(),
    ensures
        match r {
            Some((k, v, p)) => spec_parse_pair(s@, i as int) == Some((k@, value_view(v), p as int))
                && p <= s@.len(),
            None => spec_parse_pair(s@, i as int) is None,
        },
{
    let len = s.unicode_len();
    let (key, p) = match parse_string(s, i) {
        Some(kp) => kp,
        None => {
            return None;
        },
    };
    let q = skip_ws(s, p);
    if !(q < len && s.get_char(q) == ':') {
        return None;
    }
    let r = skip_ws(s, q + 1);
    if let Some((v, e)) = parse_string(s, r) {
        return Some((key, JsonValue::S(v), e));
    }
    if let Some((b, e)) = parse_bool(s, r) {
        return Some((key, JsonValue::B(b), e));
    }
    if let Some((n, e)) = parse_number_ms(s, r) {
        return Some((key, JsonValue::N(n), e));
    }
    None
}

/// The repeat mode named by a `mode` argument.
pub open spec fn spec_mode_of(m: Seq<char>) -> Option<RepeatMode> {
    if m == "None"@ {
        Some(RepeatMode::Off)
    } else if m == "One"@ {
        Some(RepeatMode::One)
    } else if m == "All"@ {
        Some(RepeatMode::All)
    } else {
        None
    }
}

/// The request meant by a one-member object: a bare `type` tag.
pub open spec fn spec_request_of_tag(t: Seq<char>) -> Option<Request> {
    if t == "GetAlbumArt"@ {
        Some(Request::GetAlbumArt)
    } else if t == "Play"@ {
        Some(Request::Play)
    } else if t == "Pause"@ {
        Some(Request::Pause)
    } else if t == "SkipBackward"@ {
        Some(Request::SkipBackward)
    } else if t == "SkipForward"@ {
        Some(Request::SkipForward)
    } else {
        None
    }
}

/// The request meant by a `type` tag with one argument member.
pub open spec fn spec_request_of_tag_arg(t: Seq<char>, k: Seq<char>, v: SpecValue) -> Option<
    Request,
> {
    if t == "SetRepeatMode"@ && k == "mode"@ {
        match v {
            SpecValue::S(m) => match spec_mode_of(m) {
                Some(mode) => Some(Request::SetRepeatMode { mode }),
                None => None,
            },
            _ => None,
        }
    } else if t == "SetShuffle"@ && k == "shuffle"@ {
        match v {
            SpecValue::B(b) => Some(Request::SetShuffle { shuffle: b }),
            _ => None,
        }
    } else if t == "Seek"@ && k == "position"@ {
        match v {
            SpecValue::N(n) => Some(Request::Seek { position_ms: n }),
            _ => None,
        }
    } else {
        None
    }
}

/// The request meant by the one or two members of a request object. The
/// `type` tag may stand in either position.
pub open spec fn spec_request_of_members(
    k1: Seq<char>,
    v1: SpecValue,
    second: Option<(Seq<char>, SpecValue)>,
) -> Option<Request> {
    match second {
        None => {
            if k1 == "type"@ {
                match v1 {
                    SpecValue::S(t) => spec_request_of_tag(t),
                    _ => None,
                }
            } else {
                None
            }
        },
        Some((k2, v2)) => {
            if k1 == "type"@ && v1 is S {
                spec_request_of_tag_arg(v1->S_0, k2, v2)
            } else if k2 == "type"@ && v2 is S {
                spec_request_of_tag_arg(v2->S_0, k1, v1)
            } else {
                None
            }
        },
    }
}

/// The request carried by one inbound line, if the line belongs to the
/// vocabulary: one JSON object of one or two members, with insignificant
/// whitespace anywhere between tokens and nothing but whitespace after it.
pub open spec fn spec_parse_request(s: Seq<char>) -> Option<Request> {
    let i0 = spec_skip_ws(s, 0);
    if i0 < s.len() && s[i0] == '{' {
        match spec_parse_pair(s, spec_skip_ws(s, i0 + 1)) {
            Some((k1, v1, p1)) => {
                let i1 = spec_skip_ws(s, p1);
                if i1 < s.len() && s[i1] == '}' {
                    if spec_skip_ws(s, i1 + 1) == s.len() {
                        spec_request_of_members(k1, v1, None)
                    } else {
                        None
                    }
                } else if i1 < s.len() && s[i1] == ',' {
                    match spec_parse_pair(s, spec_skip_ws(s, i1 + 1)) {
                        Some((k2, v2, p2)) => {
                            let i2 = spec_skip_ws(s, p2);
                            if i2 < s.len() && s[i2] == '}' && spec_skip_ws(s, i2 + 1) == s.len() {
                                spec_request_of_members(k1, v1, Some((k2, v2)))
                            } else {
                                None
                            }
                        },
                        None => None,
                    }
                } else {
                    None
                }
            },
            None => None,
        }
    } else {
        None
    }
}

fn mode_of(m: &str) -> (r: Option<RepeatMode>)
    ensures
        r == spec_mode_of(m@),
{
    if str_eq(m, "None") {
        Some(RepeatMode::Off)
    } else if str_eq(m, "One") {
        Some(RepeatMode::One)
    } else if str_eq(m, "All") {
        Some(RepeatMode::All)
    } else {
        None
    }
}

fn request_of_tag(t: &str) -> (r: Option<Request>)
    ensures
        r == spec_request_of_tag(t@),
{
    if str_eq(t, "GetAlbumArt") {
        Some(Request::GetAlbumArt)
    } else if str_eq(t, "Play") {
        Some(Request::Play)
    } else if str_eq(t, "Pause") {
        Some(Request::Pause)
    } else if str_eq(t, "SkipBackward") {
        Some(Request::SkipBackward)
    } else if str_eq(t, "SkipForward") {
        Some(Request::SkipForward)
    } else {
        None
    }
}

fn request_of_tag_arg(t: &str, k: &str, v: &JsonValue) -> (r: Option<Request>)
    ensures
        r == spec_request_of_tag_arg(t@, k@, value_view(*v)),
{
    if str_eq(t, "SetRepeatMode") && str_eq(k, "mode") {
        match v {
            JsonValue::S(m) => match mode_of(m.as_str()) {
                Some(mode) => Some(Request::SetRepeatMode { mode }),
                None => None,
            },
            _ => None,
        }
    } else if str_eq(t, "SetShuffle") && str_eq(k, "shuffle") {
        match v {
            JsonValue::B(b) => Some(Request::SetShuffle { shuffle: *b }),
            _ => None,
        }
    } else if str_eq(t, "Seek") && str_eq(k, "position") {
        match v {
            JsonValue::N(n) => Some(Request::Seek { position_ms: *n }),
            _ => None,
        }
    } else {
        None
    }
}

fn request_of_members(k1: &str, v1: &JsonValue, second: Option<(&String, &JsonValue)>) -> (r:
    Option<Request>)
    ensures
        r == spec_request_of_members(
            k1@,
            value_view(*v1),
            match second {
                Some((k2, v2)) => Some((k2@, value_view(*v2))),
                None => None,
            },
        ),
{
    match second {
        None => {
            if str_eq(k1, "type") {
                match v1 {
                    JsonValue::S(t) => request_of_tag(t.as_str()),
                    _ => None,
                }
            } else {
                None
            }
        },
        Some((k2, v2)) => {
            if str_eq(k1, "type") && (v1 matches JsonValue::S(_)) {
                match v1 {
                    JsonValue::S(t) => request_of_tag_arg(t.as_str(), k2.as_str(), v2),
                    _ => None,
                }
            } else if str_eq(k2.as_str(), "type") && (v2 matches JsonValue::S(_)) {
                match v2 {
                    JsonValue::S(t) => request_of_tag_arg(t.as_str(), k1, v1),
                    _ => None,
                }
            } else {
                None
            }
        },
    }
}

/// Reads one inbound line. Returns the request it carries, or nothing for a
/// line outside the vocabulary; such a line is skipped by the caller, no
/// response is owed for it, and handling goes on with the next line.
pub fn parse_request(s: &str) -> (r: Option<Request>)
    ensures
        r == spec_parse_request(s@),
{
    let len = s.unicode_len();
    let i0 = skip_ws(s, 0);
    if !(i0 < len && s.get_char(i0) == '{') {
        return None;
    }
    let (k1, v1, p1) = match parse_pair(s, skip_ws(s, i0 + 1)) {
        Some(kvp) => kvp,
        None => {
            return None;
        },
    };
    let i1 = skip_ws(s, p1);
    if i1 < len && s.get_char(i1) == '}' {
        if skip_ws(s, i1 + 1) == len {
            request_of_members(k1.as_str(), &v1, None)
        } else {
            None
        }
    } else if i1 < len && s.get_char(i1) == ',' {
        let (k2, v2, p2) = match parse_pair(s, skip_ws(s, i1 + 1)) {
            Some(kvp) => kvp,
            None => {
                return None;
            },
        };
        let i2 = skip_ws(s, p2);
        if i2 < len && s.get_char(i2) == '}' && skip_ws(s, i2 + 1) == len {
            request_of_members(k1.as_str(), &v1, Some((&k2, &v2)))
        } else {
            None
        }
    } else {
        None
    }
}

/// `true` or `false` on the wire.
pub open spec fn spec_bool_lit(b: bool) -> Seq<char> {
    if b {
        "true"@
    } else {
        "false"@
    }
}

/// The wire name of a repeat mode, quoted.
pub open spec fn spec_repeat_json(m: RepeatMode) -> Seq<char> {
    match m {
        RepeatMode::Off => "\"None\""@,
        RepeatMode::One => "\"One\""@,
        RepeatMode::All => "\"All\""@,
    }
}

/// The one-line JSON form of a playback status.
pub open spec fn spec_status_line(s: PlaybackStatus) -> Seq<char> {
    "{\"type\":\"PlaybackStatus\",\"title\":"@ + spec_json_string(s.title@) + ",\"artist\":"@
        + spec_json_string(s.artist@) + ",\"album\":"@ + spec_json_string(s.album@)
        + ",\"album_artist\":"@ + spec_json_string(s.album_artist@) + ",\"elapsed\":"@
        + spec_seconds(s.elapsed_ms as int) + ",\"duration\":"@ + spec_seconds(s.duration_ms as int)
        + ",\"playing\":"@ + spec_bool_lit(s.playing) + ",\"repeat\":"@ + spec_repeat_json(s.repeat)
        + ",\"shuffle\":"@ + spec_bool_lit(s.shuffle) + ",\"track_number\":"@ + spec_dec_i64(
        s.track_number as int,
    ) + ",\"total_tracks\":"@ + spec_dec_i64(s.total_tracks as int) + "}"@
}

/// The one-line JSON form of an album-art message.
pub open spec fn spec_album_art_line(data: Seq<char>) -> Seq<char> {
    "{\"type\":\"AlbumArt\",\"data\":"@ + spec_json_string(data) + "}"@
}

/// The one-line JSON form of a response.
pub open spec fn spec_response_line(r: Response) -> Seq<char> {
    match r {
        Response::AlbumArt { data } => spec_album_art_line(data@),
        Response::PlaybackStatus(s) => spec_status_line(s),
    }
}

fn push_bool(out: &mut String, b: bool)
    ensures
        final(out)@ == old(out)@ + spec_bool_lit(b),
{
    if b {
        out.append("true");
    } else {
        out.append("false");
    }
}

fn push_repeat(out: &mut String, m: RepeatMode)
    ensures
        final(out)@ == old(out)@ + spec_repeat_json(m),
{
    match m {
        RepeatMode::Off => out.append("\"None\""),
        RepeatMode::One => out.append("\"One\""),
        RepeatMode::All => out.append("\"All\""),
    }
}

/// Writes the status line announced to the parent when the observed state
/// changed. The player's identifying name belongs to the model but not to
/// the wire message, which carries exactly the documented fields.
pub fn encode_status(s: &PlaybackStatus) -> (r: String)
    ensures
        r@ == spec_status_line(*s),
{
    let mut out = String::new();
    out.append("{\"type\":\"PlaybackStatus\",\"title\":");
    push_json_string(&mut out, s.title.as_str());
    out.append(",\"artist\":");
    push_json_string(&mut out, s.artist.as_str());
    out.append(",\"album\":");
    push_json_string(&mut out, s.album.as_str());
    out.append(",\"album_artist\":");
    push_json_string(&mut out, s.album_artist.as_str());
    out.append(",\"elapsed\":");
    push_seconds(&mut out, s.elapsed_ms);
    out.append(",\"duration\":");
    push_seconds(&mut out, s.duration_ms);
    out.append(",\"playing\":");
    push_bool(&mut out, s.playing);
    out.append(",\"repeat\":");
    push_repeat(&mut out, s.repeat);
    out.append(",\"shuffle\":");
    push_bool(&mut out, s.shuffle);
    out.append(",\"track_number\":");
    push_dec_i32(&mut out, s.track_number);
    out.append(",\"total_tracks\":");
    push_dec_i32(&mut out, s.total_tracks);
    push_char(&mut out, '}');
    proof {
        reveal_strlit("}");
        assert("}"@ =~= seq!['}']);
        assert(out@ =~= spec_status_line(*s));
    }
    out
}

/// Writes the album-art line sent in answer to a `GetAlbumArt` request.
pub fn encode_album_art(data: &str) -> (r: String)
    ensures
        r@ == spec_album_art_line(data@),
{
    let mut out = String::new();
    out.append("{\"type\":\"AlbumArt\",\"data\":");
    push_json_string(&mut out, data);
    push_char(&mut out, '}');
    proof {
        reveal_strlit("}");
        assert("}"@ =~= seq!['}']);
        assert(out@ =~= spec_album_art_line(data@));
    }
    out
}

/// Writes one outbound line.
pub fn encode_response(r: &Response) -> (line: String)
    ensures
        line@ == spec_response_line(*r),
{
    match r {
        Response::AlbumArt { data } => encode_album_art(data.as_str()),
        Response::PlaybackStatus(s) => encode_status(s),
    }
}

} // verus!
