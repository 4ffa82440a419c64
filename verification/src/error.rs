//! The error type of the library.

use vstd::prelude::*;
use vstd::std_specs::convert::FromSpecImpl;
use vstd::string::StringExecFns;

verus! {

/// `reqwest::Error`: what a request that failed reports.
#[verifier::external_type_specification]
#[verifier::external_body]
pub struct ExReqwestError(reqwest::Error);

/// `reqwest::StatusCode`: the status of a response.
#[verifier::external_type_specification]
#[verifier::external_body]
pub struct ExStatusCode(reqwest::StatusCode);

/// `url::Url`: a parsed URL.
#[verifier::external_type_specification]
#[verifier::external_body]
pub struct ExUrl(url::Url);

/// `url::ParseError`: why a text is no URL.
#[verifier::external_type_specification]
#[verifier::external_body]
pub struct ExParseError(url::ParseError);

/// `rss::Error`: why some bytes are no feed.
#[verifier::external_type_specification]
#[verifier::external_body]
pub struct ExRssError(rss::Error);

/// The error type for libaur.
#[derive(Debug)]
pub enum AurError {
    /// Reqwest returned an error, for the request to this URL.
    Reqwest(reqwest::Error, url::Url),
    /// There was an error parsing a URL.
    Url(url::ParseError),
    /// The response from this URL did not have a status of success.
    Response(url::Url, reqwest::StatusCode),
    /// Rss returned an error.
    Rss(rss::Error),
}

/// The text that `url::Url` shows a URL as: its serialization.
pub uninterp spec fn url_shown(url: url::Url) -> Seq<char>;

/// The text that `reqwest::StatusCode` shows a status as: its number and
/// the reason that goes with that number.
pub uninterp spec fn status_shown(status: reqwest::StatusCode) -> Seq<char>;

/// The text that `url::ParseError` shows an error as: a fixed text for each
/// kind of error.
pub uninterp spec fn parse_error_shown(err: url::ParseError) -> Seq<char>;

/// `<url::Url as Display>`: the URL as text. The text is read from the URL
/// and from nothing else, so it is the one that `url_shown` names.
#[verifier::external_body]
fn url_text(url: &url::Url) -> (text: String)
    ensures
        text@ == url_shown(*url),
{
    url.to_string()
}

/// `<reqwest::Error as Display>`: the error as text. Nothing is claimed of
/// the text.
#[verifier::external_body]
fn reqwest_error_text(err: &reqwest::Error) -> (text: String) {
    err.to_string()
}

/// `<reqwest::StatusCode as Display>`: the status as text. The text is
/// made of the number of the status and of nothing else, so it is the one
/// that `status_shown` names.
#[verifier::external_body]
fn status_text(status: &reqwest::StatusCode) -> (text: String)
    ensures
        text@ == status_shown(*status),
{
    status.to_string()
}

/// `<url::ParseError as Display>`: the error as text. The text is fixed by
/// the kind of the error, so it is the one that `parse_error_shown` names.
#[verifier::external_body]
fn parse_error_text(err: &url::ParseError) -> (text: String)
    ensures
        text@ == parse_error_shown(*err),
{
    err.to_string()
}

/// `<rss::Error as Display>`: the error as text. Nothing is claimed of the
/// text: where the error holds one of the operating system, the text is the
/// system's.
#[verifier::external_body]
fn rss_error_text(err: &rss::Error) -> (text: String) {
    err.to_string()
}

/// The text for something that went wrong with a URL: the URL, a colon and
/// a space, then what went wrong.
pub open spec fn at_url(url: Seq<char>, cause: Seq<char>) -> Seq<char> {
    url + ": "@ + cause
}

/// The text for something that went wrong with a URL.
pub fn describe_at(url: &str, cause: &str) -> (text: String)
    ensures
        text@ == at_url(url@, cause@),
{
    let mut text = String::from_str(url);
    text.append(": ");
    text.append(cause);
    text
}

/// Judges a response by its status: hands back the URL that was asked
/// where the status is one of success, which `success` tells, and else
/// gives the error that names the URL and the status.
pub fn of_status(url: url::Url, status: reqwest::StatusCode, success: bool) -> (checked: Result<
    url::Url,
    AurError,
>)
    ensures
        success ==> checked == Ok::<url::Url, AurError>(url),
        !success ==> checked == Err::<url::Url, AurError>(AurError::Response(url, status)),
{
    if success {
        Ok(url)
    } else {
        Err(AurError::Response(url, status))
    }
}

impl AurError {
    /// The error for a request to `url` that reqwest failed with `err`.
    pub fn from_reqwest(err: reqwest::Error, url: url::Url) -> (error: Self)
        ensures
            error == AurError::Reqwest(err, url),
    {
        AurError::Reqwest(err, url)
    }

    /// The error as text. An error of a request or of a response names the
    /// URL first, then what went wrong: the cause as reqwest shows it, or
    /// the status. The others are shown as the crate that raised them shows
    /// them.
    pub fn to_string(&self) -> (text: String)
        ensures
            self matches AurError::Reqwest(_, url) ==> exists|cause: Seq<char>|
                text@ == at_url(url_shown(*url), cause),
            self matches AurError::Url(err) ==> text@ == parse_error_shown(*err),
            self matches AurError::Response(url, status) ==> text@ == at_url(
                url_shown(*url),
                status_shown(*status),
            ),
    {
        match self {
            AurError::Reqwest(err, url) => {
                let place = url_text(url);
                let cause = reqwest_error_text(err);
                let text = describe_at(place.as_str(), cause.as_str());
                assert(text@ == at_url(place@, cause@));
                text
            },
            AurError::Url(err) => parse_error_text(err),
            AurError::Response(url, status) => {
                let place = url_text(url);
                let cause = status_text(status);
                let text = describe_at(place.as_str(), cause.as_str());
                assert(text@ == at_url(place@, cause@));
                text
            },
            AurError::Rss(err) => rss_error_text(err),
        }
    }
}

impl From<url::ParseError> for AurError {
    fn from(err: url::ParseError) -> (error: Self) {
        AurError::Url(err)
    }
}

impl FromSpecImpl<url::ParseError> for AurError {
    open spec fn obeys_from_spec() -> bool {
        true
    }

    open spec fn from_spec(err: url::ParseError) -> Self {
        AurError::Url(err)
    }
}

impl From<rss::Error> for AurError {
    fn from(err: rss::Error) -> (error: Self) {
        AurError::Rss(err)
    }
}

impl FromSpecImpl<rss::Error> for AurError {
    open spec fn obeys_from_spec() -> bool {
        true
    }

    open spec fn from_spec(err: rss::Error) -> Self {
        AurError::Rss(err)
    }
}

} // verus!
