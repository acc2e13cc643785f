//! The settings that the clients need. The caller looks them up in the
//! process environment; whether a lookup sufficed is decided here.

use crate::error::{text_outcome, Error, ErrorView};
use vstd::prelude::*;
use vstd::string::*;

verus! {

/// The name of the setting that holds the chat endpoint's credential.
pub const API_KEY: &'static str = "MISTRAL_API_KEY";

/// The name of the setting that holds the catalog's client identifier.
pub const CLIENT_ID: &'static str = "JAMENDO_CLIENT_ID";

/// The value of the setting `name`, or the failure that its absence is.
pub open spec fn required(name: Seq<char>, found: Option<Seq<char>>) -> Result<
    Seq<char>,
    ErrorView,
> {
    match found {
        Some(value) => Ok(value),
        None => Err(ErrorView::ConfigurationError(name)),
    }
}

/// The model of a setting that was looked up.
pub open spec fn found_view(found: Option<String>) -> Option<Seq<char>> {
    match found {
        Some(value) => Some(value@),
        None => None,
    }
}

fn require(name: &str, found: Option<String>) -> (r: Result<String, Error>)
    ensures
        text_outcome(r) == required(name@, found_view(found)),
{
    match found {
        Some(value) => Ok(value),
        None => Err(Error::ConfigurationError(String::from_str(name))),
    }
}

/// The chat endpoint's credential, given what the lookup of [`API_KEY`]
/// found. An absent credential is a configuration error.
pub fn load_api_key(found: Option<String>) -> (r: Result<String, Error>)
    ensures
        text_outcome(r) == required(API_KEY@, found_view(found)),
{
    require(API_KEY, found)
}

/// The catalog's client identifier, given what the lookup of [`CLIENT_ID`]
/// found. An absent identifier is a configuration error.
pub fn load_jamendo_client_id(found: Option<String>) -> (r: Result<String, Error>)
    ensures
        text_outcome(r) == required(CLIENT_ID@, found_view(found)),
{
    require(CLIENT_ID, found)
}

} // verus!
