//! The address of the tracking endpoint for one tracking number.
use vstd::prelude::*;

use reqwest::Url;

use crate::model::TrackError;

verus! {

#[verifier::external_type_specification]
#[verifier::external_body]
pub struct ExUrl(Url);

/// The endpoint's address, up to the tracking number.
pub const TRACKING_URL: &'static str = "https://www.hub-ez.com/Tracking/GetTracking?trackingNumber=";

/// Whether `s` parses as an absolute URL.
pub uninterp spec fn url_parses(s: Seq<char>) -> bool;

/// Relies on url::Url::parse (re-exported by reqwest): an absolute URL, or an
/// error, depending on the text alone.
#[verifier::external_body]
fn parse_url(s: &str) -> (r: Option<Url>)
    ensures
        r is Some <==> url_parses(s@),
{
    match Url::parse(s) {
        Ok(u) => Some(u),
        Err(_) => None,
    }
}

/// The request address for `tracking_number`: the endpoint's address followed
/// by the number. Fails with `UrlError` when that text is not a URL.
pub fn tracking_url(tracking_number: &str) -> (r: Result<Url, TrackError>)
    ensures
        r is Ok <==> url_parses(TRACKING_URL@ + tracking_number@),
        r matches Err(e) ==> e == TrackError::UrlError,
{
    let mut text = String::from_str(TRACKING_URL);
    text.append(tracking_number);
    match parse_url(text.as_str()) {
        Some(u) => Ok(u),
        None => Err(TrackError::UrlError),
    }
}

} // verus!
