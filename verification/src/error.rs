//! What can go wrong in a run.

use vstd::prelude::*;

verus! {

/// One error as the provider reports it.
#[derive(Debug, PartialEq, Eq)]
pub struct CloudFlareError {
    pub code: i64,
    pub message: String,
}

impl View for CloudFlareError {
    type V = (int, Seq<char>);

    open spec fn view(&self) -> (int, Seq<char>) {
        (self.code as int, self.message@)
    }
}

impl Clone for CloudFlareError {
    fn clone(&self) -> (copy: CloudFlareError)
        ensures
            copy@ == self@,
    {
        CloudFlareError { code: self.code, message: self.message.clone() }
    }
}

/// What each of `errors` holds: its code and its message.
pub open spec fn errors_view(errors: Seq<CloudFlareError>) -> Seq<(int, Seq<char>)> {
    errors.map_values(|error: CloudFlareError| error@)
}

/// The kinds of failure of a run.
#[derive(Debug, PartialEq, Eq)]
pub enum Error {
    /// The configuration cannot be used; the text says why.
    ConfigInvalid(String),
    /// The cache text does not follow the cache format, or a zone key
    /// cannot be written in it.
    CacheCorrupt,
    /// No zone of the account has this name.
    ZoneNotFound(String),
    /// The provider answered that the call did not succeed.
    ProviderError(Vec<CloudFlareError>),
    /// The call did not reach the provider or its answer could not be
    /// read; the text says why.
    NetworkError(String),
    /// The cache could not be read or written; the text says why.
    IoError(String),
}

/// What an error holds.
pub enum ErrorView {
    ConfigInvalid(Seq<char>),
    CacheCorrupt,
    ZoneNotFound(Seq<char>),
    ProviderError(Seq<(int, Seq<char>)>),
    NetworkError(Seq<char>),
    IoError(Seq<char>),
}

impl View for Error {
    type V = ErrorView;

    open spec fn view(&self) -> ErrorView {
        match self {
            Error::ConfigInvalid(text) => ErrorView::ConfigInvalid(text@),
            Error::CacheCorrupt => ErrorView::CacheCorrupt,
            Error::ZoneNotFound(name) => ErrorView::ZoneNotFound(name@),
            Error::ProviderError(errors) => ErrorView::ProviderError(errors_view(errors@)),
            Error::NetworkError(text) => ErrorView::NetworkError(text@),
            Error::IoError(text) => ErrorView::IoError(text@),
        }
    }
}

/// A copy of `errors`.
pub fn clone_errors(errors: &[CloudFlareError]) -> (copy: Vec<CloudFlareError>)
    ensures
        errors_view(copy@) == errors_view(errors@),
{
    let mut copy: Vec<CloudFlareError> = Vec::new();
    let mut i: usize = 0;
    while i < errors.len()
        invariant
            i <= errors@.len(),
            errors_view(copy@) == errors_view(errors@).subrange(0, i as int),
        decreases errors@.len() - i,
    {
        let ghost before = errors_view(copy@);
        copy.push(errors[i].clone());
        assert(errors_view(copy@) == before.push(errors@[i as int]@));
        i += 1;
    }
    assert(errors_view(errors@).subrange(0, i as int) == errors_view(errors@));
    copy
}

impl Clone for Error {
    fn clone(&self) -> (copy: Error)
        ensures
            copy@ == self@,
    {
        match self {
            Error::ConfigInvalid(text) => Error::ConfigInvalid(text.clone()),
            Error::CacheCorrupt => Error::CacheCorrupt,
            Error::ZoneNotFound(name) => Error::ZoneNotFound(name.clone()),
            Error::ProviderError(errors) => Error::ProviderError(clone_errors(errors.as_slice())),
            Error::NetworkError(text) => Error::NetworkError(text.clone()),
            Error::IoError(text) => Error::IoError(text.clone()),
        }
    }
}

/// Whether `result` is the value that `expected` names, or an error that
/// holds what `expected` names.
pub open spec fn is_outcome<T>(result: Result<T, Error>, expected: Result<T, ErrorView>) -> bool {
    match expected {
        Ok(value) => result == Ok::<T, Error>(value),
        Err(error) => result is Err && result->Err_0@ == error,
    }
}

} // verus!
