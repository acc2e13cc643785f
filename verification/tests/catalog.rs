use music_chat::error::Error;
use music_chat::music::query::encode_query;
use music_chat::music::types::{JamendoResponse, Track};
use music_chat::music::{jamendo_search, read_search_reply, SearchReply};

fn track(id: &str, name: &str, artist: &str, audio: &str) -> Track {
    Track {
        id: id.to_string(),
        name: name.to_string(),
        artist_name: artist.to_string(),
        audio: audio.to_string(),
    }
}

#[test]
fn unreserved_characters_are_written_as_they_are() {
    assert_eq!(encode_query("AZaz09-._~"), "AZaz09-._~");
    assert_eq!(encode_query("jazz"), "jazz");
    assert_eq!(encode_query(""), "");
}

#[test]
fn spaces_and_punctuation_are_escaped() {
    assert_eq!(encode_query("upbeat energetic"), "upbeat%20energetic");
    assert_eq!(encode_query("rock & roll"), "rock%20%26%20roll");
    assert_eq!(encode_query("a=b&c#d?e/f+g"), "a%3Db%26c%23d%3Fe%2Ff%2Bg");
    assert_eq!(encode_query("100%"), "100%25");
    assert_eq!(encode_query("\"quoted\"\n"), "%22quoted%22%0A");
    assert_eq!(encode_query("@[`{"), "%40%5B%60%7B");
    assert_eq!(encode_query("/:"), "%2F%3A");
}

#[test]
fn text_outside_ascii_is_escaped_byte_by_byte() {
    assert_eq!(encode_query("é"), "%C3%A9");
    assert_eq!(encode_query("beyoncé live"), "beyonc%C3%A9%20live");
    assert_eq!(encode_query("🎵"), "%F0%9F%8E%B5");
    assert_eq!(encode_query("\u{7f}\u{80}"), "%7F%C2%80");
}

#[test]
fn search_address_holds_the_parameters() {
    assert_eq!(
        jamendo_search(Some("abc123".to_string()), "upbeat energetic"),
        Ok("https://api.jamendo.com/v3.0/tracks/?client_id=abc123&format=json&search=upbeat%20energetic&limit=2".to_string())
    );
}

#[test]
fn query_cannot_add_a_parameter() {
    assert_eq!(
        jamendo_search(Some("id".to_string()), "x&limit=100"),
        Ok("https://api.jamendo.com/v3.0/tracks/?client_id=id&format=json&search=x%26limit%3D100&limit=2".to_string())
    );
}

#[test]
fn empty_query_is_searched_all_the_same() {
    assert_eq!(
        jamendo_search(Some("id".to_string()), ""),
        Ok("https://api.jamendo.com/v3.0/tracks/?client_id=id&format=json&search=&limit=2".to_string())
    );
}

#[test]
fn search_without_client_id_is_a_configuration_error() {
    assert_eq!(
        jamendo_search(None, "jazz"),
        Err(Error::ConfigurationError("JAMENDO_CLIENT_ID".to_string()))
    );
}

#[test]
fn tracks_come_back_in_the_catalog_order() {
    let a = track("1", "Zebra", "Ann", "https://a/1");
    let b = track("2", "Apple", "Bob", "https://a/2");
    let c = track("3", "Mango", "Cy", "https://a/3");
    let reply = SearchReply::Received {
        body: "{...}".to_string(),
        parsed: Ok(JamendoResponse { results: vec![a.clone(), b.clone(), c.clone()] }),
    };
    assert_eq!(read_search_reply(reply, "fruit"), Ok(vec![a, b, c]));
}

#[test]
fn empty_result_list_is_no_results_for_the_query() {
    let reply = SearchReply::Received {
        body: "{\"results\": []}".to_string(),
        parsed: Ok(JamendoResponse { results: vec![] }),
    };
    assert_eq!(
        read_search_reply(reply, "upbeat energetic"),
        Err(Error::NoResults("upbeat energetic".to_string()))
    );
}

#[test]
fn unreachable_catalog_is_transport_failure() {
    let reply = SearchReply::Unreachable("connection reset".to_string());
    assert_eq!(
        read_search_reply(reply, "jazz"),
        Err(Error::TransportFailure("connection reset".to_string()))
    );
}

#[test]
fn catalog_body_of_wrong_shape_is_malformed_response() {
    let reply = SearchReply::Received {
        body: "{\"headers\": {}}".to_string(),
        parsed: Err("missing field `results` at line 1 column 15".to_string()),
    };
    assert_eq!(
        read_search_reply(reply, "jazz"),
        Err(Error::MalformedResponse {
            detail: "missing field `results` at line 1 column 15".to_string(),
            raw: "{\"headers\": {}}".to_string(),
        })
    );
}
