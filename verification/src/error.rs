//! The library's error type.
use vstd::prelude::*;

verus! {

/// `url::ParseError`, the error of the `url` crate's parsers.
#[verifier::external_type_specification]
#[verifier::external_body]
pub struct ExUrlParseError(url::ParseError);

/// `core::str::Utf8Error`, the error of UTF-8 decoding of a byte slice.
#[verifier::external_type_specification]
#[verifier::external_body]
pub struct ExUtf8Error(core::str::Utf8Error);

/// `alloc::string::FromUtf8Error`, the error of UTF-8 decoding of a byte vector.
#[verifier::external_type_specification]
#[verifier::external_body]
pub struct ExFromUtf8Error(std::string::FromUtf8Error);

/// What can go wrong in the library's own work: parsing hosts and URLs,
/// decoding text, searching a response, judging a status code. Failures of
/// sockets, of the HTTP client and of XML decoding belong to the program
/// that performs that I/O.
#[derive(Debug)]
pub enum Error {
    UrlParseError(url::ParseError),
    Utf8StrError(core::str::Utf8Error),
    Utf8StringError(std::string::FromUtf8Error),
    /// No Internet Gateway Device could be found in a search response;
    /// holds the response that was searched.
    SearchError(String),
    /// The gateway answered with a status code outside `200..=299`.
    StatusCodeError { status_code: u16, message: String },
    UnknownError,
}

} // verus!
