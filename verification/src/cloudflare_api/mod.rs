//! What the provider's API hands back, and what its answers mean.

pub mod record;
pub mod zone;

use crate::error::{errors_view, CloudFlareError, Error};
use crate::ip::{decimal, push_decimal};
use crate::text::{from_chars, to_chars};
use vstd::prelude::*;
use vstd::string::*;

verus! {

/// The address under which the provider's API is reached.
pub const API_URL: &'static str = "https://api.cloudflare.com/client/v4";

/// The decimal text of a number, with a minus sign before a negative
/// one.
pub open spec fn signed_decimal(n: int) -> Seq<char> {
    if n < 0 {
        seq!['-'] + decimal((-n) as nat)
    } else {
        decimal(n as nat)
    }
}

/// The line of one provider error: its code, a colon, a space and its
/// message.
pub open spec fn error_line(error: (int, Seq<char>)) -> Seq<char> {
    signed_decimal(error.0) + seq![':', ' '] + error.1
}

/// The lines of the provider errors, with a line feed between one line
/// and the next.
pub open spec fn error_lines(errors: Seq<(int, Seq<char>)>) -> Seq<char>
    decreases errors.len(),
{
    if errors.len() == 0 {
        Seq::empty()
    } else if errors.len() == 1 {
        error_line(errors[0])
    } else {
        error_lines(errors.drop_last()) + seq!['\n'] + error_line(errors.last())
    }
}

/// The text that shows a list of provider errors: one line for each,
/// `code: message`.
pub fn transform_error_responses(errors: &[CloudFlareError]) -> (text: String)
    ensures
        text@ == error_lines(errors_view(errors@)),
{
    let mut out: Vec<char> = Vec::new();
    let mut i: usize = 0;
    while i < errors.len()
        invariant
            i <= errors@.len(),
            out@ == error_lines(errors_view(errors@).subrange(0, i as int)),
        decreases errors@.len() - i,
    {
        let ghost before = out@;
        let ghost upto = errors_view(errors@).subrange(0, i + 1);
        assert(upto.drop_last() == errors_view(errors@).subrange(0, i as int));
        assert(upto.last() == errors@[i as int]@);
        if i > 0 {
            out.push('\n');
        }
        let code: i64 = errors[i].code;
        if code < 0 {
            out.push('-');
            push_decimal(&mut out, ((-(code + 1)) as u64) + 1);
        } else {
            push_decimal(&mut out, code as u64);
        }
        out.push(':');
        out.push(' ');
        let mut message = to_chars(errors[i].message.as_str());
        out.append(&mut message);
        proof {
            let line = error_line(errors@[i as int]@);
            if i == 0 {
                assert(out@ == line);
            } else {
                assert(out@ == before + seq!['\n'] + line);
            }
        }
        i += 1;
    }
    assert(errors_view(errors@).subrange(0, i as int) == errors_view(errors@));
    from_chars(out.as_slice())
}

/// What an answer of the provider means: the result where the call
/// succeeded, the provider's errors where it did not.
pub fn into_result<T>(success: bool, errors: Vec<CloudFlareError>, result: T) -> (outcome: Result<
    T,
    Error,
>)
    ensures
        success ==> outcome == Ok::<T, Error>(result),
        !success ==> outcome == Err::<T, Error>(Error::ProviderError(errors)),
{
    if success {
        Ok(result)
    } else {
        Err(Error::ProviderError(errors))
    }
}

/// The address of the call that lists the zones.
pub open spec fn zones_path() -> Seq<char> {
    API_URL@ + "/zones"@
}

/// The address of the call that lists the records of a zone.
pub open spec fn records_path(zone_id: Seq<char>) -> Seq<char> {
    API_URL@ + "/zones/"@ + zone_id + "/dns_records"@
}

/// The address of the call that changes one record of a zone.
pub open spec fn record_path(zone_id: Seq<char>, record_id: Seq<char>) -> Seq<char> {
    API_URL@ + "/zones/"@ + zone_id + "/dns_records/"@ + record_id
}

/// The address of the call that lists the zones.
pub fn zones_url() -> (url: String)
    ensures
        url@ == zones_path(),
{
    let mut url = String::from_str(API_URL);
    url.append("/zones");
    url
}

/// The address of the call that lists the records of a zone.
pub fn records_url(zone_id: &str) -> (url: String)
    ensures
        url@ == records_path(zone_id@),
{
    let mut url = String::from_str(API_URL);
    url.append("/zones/");
    url.append(zone_id);
    url.append("/dns_records");
    url
}

/// The address of the call that changes one record of a zone.
pub fn record_url(zone_id: &str, record_id: &str) -> (url: String)
    ensures
        url@ == record_path(zone_id@, record_id@),
{
    let mut url = String::from_str(API_URL);
    url.append("/zones/");
    url.append(zone_id);
    url.append("/dns_records/");
    url.append(record_id);
    url
}

/// What an error says.
pub open spec fn error_message(error: crate::error::ErrorView) -> Seq<char> {
    match error {
        crate::error::ErrorView::ConfigInvalid(text) => text,
        crate::error::ErrorView::CacheCorrupt => "The IP cache is corrupt."@,
        crate::error::ErrorView::ZoneNotFound(name) => "Unable to find zone with name '"@ + name
            + "'"@,
        crate::error::ErrorView::ProviderError(errors) => error_lines(errors),
        crate::error::ErrorView::NetworkError(text) => text,
        crate::error::ErrorView::IoError(text) => text,
    }
}

impl Error {
    /// What the error says.
    pub fn to_string(&self) -> (text: String)
        ensures
            text@ == error_message(self@),
    {
        match self {
            Error::ConfigInvalid(text) => text.clone(),
            Error::CacheCorrupt => String::from_str("The IP cache is corrupt."),
            Error::ZoneNotFound(name) => {
                let mut text = String::from_str("Unable to find zone with name '");
                text.append(name.as_str());
                text.append("'");
                text
            },
            Error::ProviderError(errors) => transform_error_responses(errors.as_slice()),
            Error::NetworkError(text) => text.clone(),
            Error::IoError(text) => text.clone(),
        }
    }
}

} // verus!
