//! What the map client decides without the network: where a request goes,
//! what an answer means, and how a failure is shown.

use vstd::prelude::*;
use vstd::string::*;
use crate::embed::{fields_view, Embed, EmbedFieldView, EmbedView};
use crate::error::MapError;

verus! {

/// The status with which the remote service says that it has no such map.
pub const NOT_FOUND: u16 = 404;

/// The address that answers with the map under `id`.
pub open spec fn map_endpoint(id: Seq<char>) -> Seq<char> {
    "https://api.beatsaver.com/maps/id/"@ + id
}

/// The address that answers a search; the query goes in its parameter `q`.
pub open spec fn search_endpoint() -> Seq<char> {
    "https://api.beatsaver.com/search/maps"@
}

/// The address that answers with the map under `id`.
pub fn map_request_url(id: &str) -> (url: String)
    ensures
        url@ == map_endpoint(id@),
{
    let mut url: String = String::from_str("https://api.beatsaver.com/maps/id/");
    url.append(id);
    url
}

/// The address that answers a search.
pub fn search_request_url() -> (url: String)
    ensures
        url@ == search_endpoint(),
{
    String::from_str("https://api.beatsaver.com/search/maps")
}

/// What came of one request.
#[derive(Debug, PartialEq, Eq)]
pub enum Exchange<T> {
    /// No answer came back; the text says why.
    Unanswered(String),
    /// An answer came back with this status. Its body was read as a `T`, or
    /// could not be read, and the text says why.
    Answered(u16, Result<T, String>),
}

/// What an exchange with the remote service means.
pub open spec fn interpreted<T>(exchange: Exchange<T>) -> Result<T, MapError> {
    match exchange {
        Exchange::Unanswered(cause) => Err(MapError::TransportError(cause)),
        Exchange::Answered(status, body) => if status == NOT_FOUND {
            Err(MapError::NotFound)
        } else {
            match body {
                Ok(value) => Ok(value),
                Err(cause) => Err(MapError::MalformedResponse(cause)),
            }
        },
    }
}

/// What an exchange with the remote service means: without an answer it is a
/// `TransportError`; a not-found status is `NotFound` whatever the body
/// holds; under any other status a body that could not be read is a
/// `MalformedResponse`, and a body that could is the result.
pub fn interpret_response<T>(exchange: Exchange<T>) -> (outcome: Result<T, MapError>)
    ensures
        outcome == interpreted(exchange),
{
    match exchange {
        Exchange::Unanswered(cause) => Err(MapError::TransportError(cause)),
        Exchange::Answered(status, body) => {
            if status == NOT_FOUND {
                Err(MapError::NotFound)
            } else {
                match body {
                    Ok(value) => Ok(value),
                    Err(cause) => Err(MapError::MalformedResponse(cause)),
                }
            }
        },
    }
}

/// The title of every error document.
pub open spec fn error_title() -> Seq<char> {
    "Error!"@
}

/// The lines that name the causes behind an error, outermost first.
pub open spec fn cause_lines(causes: Seq<String>) -> Seq<char>
    decreases causes.len(),
{
    if causes.len() == 0 {
        Seq::<char>::empty()
    } else {
        cause_lines(causes.drop_last()) + "because: "@ + causes.last()@ + "\n"@
    }
}

/// The document that tells the user of a failure.
pub open spec fn error_document(error: Seq<char>, causes: Seq<String>) -> EmbedView {
    EmbedView {
        title: error_title(),
        url: None,
        description: Some(error + "\n"@ + cause_lines(causes)),
        thumbnail: None,
        footer: None,
        timestamp: None,
        fields: Seq::<EmbedFieldView>::empty(),
        colour: None,
    }
}

/// The document that tells the user of a failure: a fixed title, and as body
/// the error in words followed by one line for each cause behind it.
pub fn error_embed(error: &str, causes: &Vec<String>) -> (embed: Embed)
    ensures
        embed@ == error_document(error@, causes@),
{
    let mut description: String = String::from_str(error);
    description.append("\n");
    let ghost head = description@;
    let mut i: usize = 0;
    while i < causes.len()
        invariant
            i <= causes.len(),
            description@ == head + cause_lines(causes@.take(i as int)),
        decreases causes.len() - i,
    {
        proof {
            let done = causes@.take(i as int);
            let next = causes@.take(i + 1);
            assert(next.drop_last() =~= done);
            assert(next.last() == causes@[i as int]);
        }
        description.append("because: ");
        description.append(causes[i].as_str());
        description.append("\n");
        assert(description@ =~= head + cause_lines(causes@.take(i + 1)));
        i += 1;
    }
    assert(causes@.take(causes@.len() as int) =~= causes@);
    let embed: Embed = Embed {
        title: String::from_str("Error!"),
        url: None,
        description: Some(description),
        thumbnail: None,
        footer: None,
        timestamp: None,
        fields: Vec::new(),
        colour: None,
    };
    assert(fields_view(embed.fields@) =~= Seq::<EmbedFieldView>::empty());
    embed
}

} // verus!
