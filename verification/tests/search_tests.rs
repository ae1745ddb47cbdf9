use media_fetcher::search::MoonlightRequest;
use media_fetcher::search::MoonlightResultType;
use media_fetcher::search::encode_moonlight_request;

#[test]
fn encodes_search_request() {
    let r = MoonlightRequest::Search { query: "alice".to_string() };
    assert_eq!(encode_moonlight_request(&r), "{\"type\":\"Search\",\"query\":\"alice\"}");
}

#[test]
fn encodes_run_request() {
    let r = MoonlightRequest::Run { id: "123".to_string() };
    assert_eq!(encode_moonlight_request(&r), "{\"type\":\"Run\",\"id\":\"123\"}");
}

#[test]
fn escapes_queries() {
    let r = MoonlightRequest::Search { query: "a\"b".to_string() };
    assert_eq!(encode_moonlight_request(&r), "{\"type\":\"Search\",\"query\":\"a\\\"b\"}");
}

#[test]
fn result_types_round_trip_their_names() {
    let all = [
        MoonlightResultType::User,
        MoonlightResultType::Guild,
        MoonlightResultType::GroupDM,
        MoonlightResultType::TextChannel,
        MoonlightResultType::VoiceChannel,
    ];
    for t in all {
        assert_eq!(MoonlightResultType::from_name(&t.name()), Some(t));
    }
    assert_eq!(MoonlightResultType::from_name("Channel"), None);
    assert_eq!(MoonlightResultType::from_name(""), None);
}
