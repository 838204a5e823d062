use mafuyu::api::{
    error_embed, interpret_response, map_request_url, search_request_url, Exchange, NOT_FOUND,
};
use mafuyu::embed::{Colour, Embed, EmbedField};
use mafuyu::error::MapError;
use mafuyu::status::{activity_text, status_embed};

#[test]
fn map_is_requested_by_its_code() {
    assert_eq!(map_request_url("2f3a"), "https://api.beatsaver.com/maps/id/2f3a");
    assert_eq!(map_request_url(""), "https://api.beatsaver.com/maps/id/");
}

#[test]
fn search_is_requested_at_the_search_address() {
    assert_eq!(search_request_url(), "https://api.beatsaver.com/search/maps");
}

#[test]
fn not_found_status_is_not_found_whatever_the_body() {
    assert_eq!(NOT_FOUND, 404);
    assert_eq!(interpret_response(Exchange::Answered(404, Ok(1u8))), Err(MapError::NotFound));
    assert_eq!(
        interpret_response::<u8>(Exchange::Answered(404, Err("no".to_string()))),
        Err(MapError::NotFound)
    );
}

#[test]
fn readable_body_is_the_result() {
    assert_eq!(interpret_response(Exchange::Answered(200, Ok("map"))), Ok("map"));
    assert_eq!(interpret_response(Exchange::Answered(500, Ok(5u8))), Ok(5u8));
    assert_eq!(interpret_response(Exchange::Answered(200, Ok(Vec::<u8>::new()))), Ok(vec![]));
}

#[test]
fn unreadable_body_is_a_malformed_response() {
    assert_eq!(
        interpret_response::<u8>(Exchange::Answered(200, Err("missing field `id`".to_string()))),
        Err(MapError::MalformedResponse("missing field `id`".to_string()))
    );
    assert_eq!(
        interpret_response::<u8>(Exchange::Answered(502, Err("expected value".to_string()))),
        Err(MapError::MalformedResponse("expected value".to_string()))
    );
}

#[test]
fn request_without_an_answer_is_a_transport_error() {
    assert_eq!(
        interpret_response::<u8>(Exchange::Unanswered("operation timed out".to_string())),
        Err(MapError::TransportError("operation timed out".to_string()))
    );
}

#[test]
fn every_error_is_described_with_its_cause() {
    assert_eq!(MapError::NotFound.describe(), "No map with this code exists on BeatSaver.");
    assert_eq!(
        MapError::TransportError("connection refused".to_string()).describe(),
        "BeatSaver could not be reached: connection refused"
    );
    assert_eq!(
        MapError::MalformedResponse("missing field `id`".to_string()).describe(),
        "BeatSaver sent an unreadable answer: missing field `id`"
    );
    assert_eq!(
        MapError::ContractViolation.describe(),
        "The selection names no entry of this menu."
    );
}

#[test]
fn not_found_is_shown_as_an_error_document() {
    let failure: Result<u8, MapError> = interpret_response(Exchange::Answered(404, Ok(0)));
    let error = failure.unwrap_err();
    let embed = error_embed(&error.describe(), &vec![]);
    assert_eq!(embed.title, "Error!");
    assert!(embed.description.unwrap().contains("No map with this code exists on BeatSaver."));
}

#[test]
fn error_document_lists_the_causes_behind_the_error() {
    let causes = vec!["request failed".to_string(), "connection reset".to_string()];
    assert_eq!(
        error_embed("lookup failed", &causes),
        Embed {
            title: "Error!".to_string(),
            url: None,
            description: Some(
                "lookup failed\nbecause: request failed\nbecause: connection reset\n".to_string()
            ),
            thumbnail: None,
            footer: None,
            timestamp: None,
            fields: vec![],
            colour: None,
        }
    );
}

#[test]
fn error_document_without_causes_holds_the_error_alone() {
    assert_eq!(error_embed("boom", &vec![]).description, Some("boom\n".to_string()));
    assert_eq!(error_embed("", &vec![String::new()]).description, Some("\nbecause: \n".to_string()));
}

#[test]
fn status_document_names_the_build() {
    assert_eq!(
        status_embed("1.2.3"),
        Embed {
            title: "Mafuyu v1.2.3".to_string(),
            url: None,
            description: Some("A general purpose Discord application.".to_string()),
            thumbnail: None,
            footer: Some("Made by @mercurial_world on Discord".to_string()),
            timestamp: None,
            fields: vec![EmbedField {
                name: "Source".to_string(),
                value: "https://github.com/mercurialworld/mafuyu".to_string(),
                inline: false,
            }],
            colour: None,
        }
    );
}

#[test]
fn activity_line_is_the_version_after_a_v() {
    assert_eq!(activity_text("0.1.0"), "v0.1.0");
    assert_eq!(activity_text(""), "v");
}

#[test]
fn colour_is_made_of_its_parts() {
    assert_eq!(Colour::from_rgb(1, 2, 3), Colour { r: 1, g: 2, b: 3 });
}
