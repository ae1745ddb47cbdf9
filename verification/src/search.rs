//! The vocabulary spoken with the desktop-search collaborator: a sibling
//! process that answers search queries over an equivalent line protocol.
//! Only the boundary is modeled here — the outbound request line and the
//! kinds a ranked result can have; the collaborator's own domain stays
//! outside the bridge.

use vstd::prelude::*;
use crate::codec::push_char;
use crate::codec::push_json_string;
use crate::codec::spec_json_string;
use crate::codec::str_eq;

verus! {

/// A request to the search collaborator: find matches, or run one of them.
#[derive(Clone, Debug)]
pub enum MoonlightRequest {
    Search { query: String },
    Run { id: String },
}

/// The kind of thing one ranked search result names.
#[derive(Clone, Copy, PartialEq, Eq, Structural, Debug)]
pub enum MoonlightResultType {
    User,
    Guild,
    GroupDM,
    TextChannel,
    VoiceChannel,
}

/// The one-line JSON form of a search-collaborator request.
pub open spec fn spec_moonlight_line(r: MoonlightRequest) -> Seq<char> {
    match r {
        MoonlightRequest::Search { query } => "{\"type\":\"Search\",\"query\":"@
            + spec_json_string(query@) + "}"@,
        MoonlightRequest::Run { id } => "{\"type\":\"Run\",\"id\":"@ + spec_json_string(id@)
            + "}"@,
    }
}

/// Writes one request line for the search collaborator.
pub fn encode_moonlight_request(r: &MoonlightRequest) -> (line: String)
    ensures
        line@ == spec_moonlight_line(*r),
{
    let mut out = String::new();
    match r {
        MoonlightRequest::Search { query } => {
            out.append("{\"type\":\"Search\",\"query\":");
            push_json_string(&mut out, query.as_str());
        },
        MoonlightRequest::Run { id } => {
            out.append("{\"type\":\"Run\",\"id\":");
            push_json_string(&mut out, id.as_str());
        },
    }
    push_char(&mut out, '}');
    proof {
        reveal_strlit("}");
        assert("}"@ =~= seq!['}']);
        assert(out@ =~= spec_moonlight_line(*r));
    }
    out
}

/// The result kind a wire tag names.
pub open spec fn spec_result_type_of(t: Seq<char>) -> Option<MoonlightResultType> {
    if t == "User"@ {
        Some(MoonlightResultType::User)
    } else if t == "Guild"@ {
        Some(MoonlightResultType::Guild)
    } else if t == "GroupDM"@ {
        Some(MoonlightResultType::GroupDM)
    } else if t == "TextChannel"@ {
        Some(MoonlightResultType::TextChannel)
    } else if t == "VoiceChannel"@ {
        Some(MoonlightResultType::VoiceChannel)
    } else {
        None
    }
}

impl MoonlightResultType {
    /// Reads a result kind from its wire tag.
    pub fn from_name(t: &str) -> (r: Option<MoonlightResultType>)
        ensures
            r == spec_result_type_of(t@),
    {
        if str_eq(t, "User") {
            Some(MoonlightResultType::User)
        } else if str_eq(t, "Guild") {
            Some(MoonlightResultType::Guild)
        } else if str_eq(t, "GroupDM") {
            Some(MoonlightResultType::GroupDM)
        } else if str_eq(t, "TextChannel") {
            Some(MoonlightResultType::TextChannel)
        } else if str_eq(t, "VoiceChannel") {
            Some(MoonlightResultType::VoiceChannel)
        } else {
            None
        }
    }

    /// The wire tag of a result kind; reading it back gives the kind again.
    pub fn name(&self) -> (r: String)
        ensures
            spec_result_type_of(r@) == Some(*self),
    {
        proof {
            reveal_strlit("User");
            reveal_strlit("Guild");
            reveal_strlit("GroupDM");
            reveal_strlit("TextChannel");
            reveal_strlit("VoiceChannel");
            assert("User"@.len() == 4);
            assert("Guild"@.len() == 5);
            assert("GroupDM"@.len() == 7);
            assert("TextChannel"@.len() == 11);
            assert("VoiceChannel"@.len() == 12);
        }
        let n: &str = match self {
            MoonlightResultType::User => "User",
            MoonlightResultType::Guild => "Guild",
            MoonlightResultType::GroupDM => "GroupDM",
            MoonlightResultType::TextChannel => "TextChannel",
            MoonlightResultType::VoiceChannel => "VoiceChannel",
        };
        n.to_owned()
    }
}

} // verus!
