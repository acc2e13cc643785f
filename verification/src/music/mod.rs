//! The catalog search client: the request that is sent for a query, and the
//! tracks or failure that a reply amounts to.

pub mod query;
pub mod types;

use crate::config::{found_view, load_jamendo_client_id, CLIENT_ID};
use crate::error::{text_outcome, Error, ErrorView};
use crate::music::query::{encode_query, encoded_query};
use crate::music::types::{tracks_view, JamendoResponse, Track, TrackView};
use vstd::prelude::*;
use vstd::string::*;

verus! {

/// Where tracks are searched for.
pub const SEARCH_ENDPOINT: &'static str = "https://api.jamendo.com/v3.0/tracks/";

/// How many tracks one search asks for at most.
pub const PAGE_LIMIT: &'static str = "2";

/// The address of the search for `query` on behalf of `client_id`: the
/// client identifier, the JSON format, the query in its written form and
/// the page limit, as parameters of the endpoint.
pub open spec fn search_url(client_id: Seq<char>, query: Seq<char>) -> Seq<char> {
    SEARCH_ENDPOINT@ + "?client_id="@ + client_id + "&format=json&search="@ + encoded_query(query)
        + "&limit="@ + PAGE_LIMIT@
}

/// The address of the search for `query`, or the failure that stands in its
/// way.
pub open spec fn prepared_search(found: Option<Seq<char>>, query: Seq<char>) -> Result<
    Seq<char>,
    ErrorView,
> {
    match found {
        Some(client_id) => Ok(search_url(client_id, query)),
        None => Err(ErrorView::ConfigurationError(CLIENT_ID@)),
    }
}

/// Prepares the one request that searches the catalog for `query`: the
/// address to get. `found` is what the lookup of the client identifier
/// gave. Without an identifier there is no request to send, and the
/// configuration error is returned in its place. The query goes into the
/// address in its written form, whatever it holds.
pub fn jamendo_search(found: Option<String>, query: &str) -> (r: Result<String, Error>)
    ensures
        text_outcome(r) == prepared_search(found_view(found), query@),
{
    match load_jamendo_client_id(found) {
        Err(failure) => Err(failure),
        Ok(client_id) => {
            let written = encode_query(query);
            Ok(
                String::from_str(SEARCH_ENDPOINT).concat("?client_id=").concat(
                    client_id.as_str(),
                ).concat("&format=json&search=").concat(written.as_str()).concat("&limit=").concat(
                    PAGE_LIMIT,
                ),
            )
        },
    }
}

/// What came back for one search.
#[derive(Debug)]
pub enum SearchReply {
    /// The request failed at the network level. Carries the transport's
    /// description.
    Unreachable(String),
    /// A reply arrived: its body as text, and the body parsed, or the
    /// parser's complaint.
    Received { body: String, parsed: Result<JamendoResponse, String> },
}

/// The model of a [`SearchReply`].
pub enum SearchReplyView {
    Unreachable(Seq<char>),
    Received { body: Seq<char>, parsed: Result<Seq<TrackView>, Seq<char>> },
}

impl View for SearchReply {
    type V = SearchReplyView;

    open spec fn view(&self) -> SearchReplyView {
        match self {
            SearchReply::Unreachable(detail) => SearchReplyView::Unreachable(detail@),
            SearchReply::Received { body, parsed } => SearchReplyView::Received {
                body: body@,
                parsed: match parsed {
                    Ok(response) => Ok(response@),
                    Err(detail) => Err(detail@),
                },
            },
        }
    }
}

/// The model of tracks that may have failed to arrive.
pub open spec fn tracks_outcome(r: Result<Vec<Track>, Error>) -> Result<
    Seq<TrackView>,
    ErrorView,
> {
    match r {
        Ok(tracks) => Ok(tracks_view(tracks@)),
        Err(failure) => Err(failure@),
    }
}

/// The tracks that the reply to the search for `query` amounts to, in the
/// order in which the catalog gave them, or the failure that it is. A reply
/// without a track is the expected failure `NoResults`.
pub open spec fn search_result(reply: SearchReplyView, query: Seq<char>) -> Result<
    Seq<TrackView>,
    ErrorView,
> {
    match reply {
        SearchReplyView::Unreachable(detail) => Err(ErrorView::TransportFailure(detail)),
        SearchReplyView::Received { body, parsed } => match parsed {
            Err(detail) => Err(ErrorView::MalformedResponse { detail, raw: body }),
            Ok(tracks) => if tracks.len() == 0 {
                Err(ErrorView::NoResults(query))
            } else {
                Ok(tracks)
            },
        },
    }
}

/// Reads what came back for the search for `query`: the tracks as the
/// catalog ordered them, or the failure that the reply is.
pub fn read_search_reply(reply: SearchReply, query: &str) -> (r: Result<Vec<Track>, Error>)
    ensures
        tracks_outcome(r) == search_result(reply@, query@),
{
    match reply {
        SearchReply::Unreachable(detail) => Err(Error::TransportFailure(detail)),
        SearchReply::Received { body, parsed } => match parsed {
            Err(detail) => Err(Error::MalformedResponse { detail, raw: body }),
            Ok(response) => if response.results.len() == 0 {
                Err(Error::NoResults(String::from_str(query)))
            } else {
                Ok(response.results)
            },
        },
    }
}

} // verus!
