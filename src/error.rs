use vstd::prelude::*;

verus! {

/// Declares `url::ParseError`, carried as the cause of a malformed URL.
#[verifier::external_type_specification]
#[verifier::external_body]
pub struct ExUrlParseError(url::ParseError);

/// Declares `serde_json::Error`, carried as the cause of a document that cannot be encoded or decoded.
#[verifier::external_type_specification]
#[verifier::external_body]
pub struct ExJsonError(serde_json::Error);

/// Declares `youtube_dl::Error`, carried as the cause of a failed remote fetch.
#[verifier::external_type_specification]
#[verifier::external_body]
pub struct ExYoutubeError(youtube_dl::Error);

/// Declares `std::io::Error`, carried as the cause of a storage failure.
#[verifier::external_type_specification]
#[verifier::external_body]
pub struct ExIoError(std::io::Error);

/// Every failure the library reports.
#[derive(Debug)]
pub enum MetaError {
    /// No resolution strategy recognised the URL, or the one that did found
    /// no identifier in it.
    NoIdFount,
    /// The text is not a well-formed URL.
    UrlParseErr(url::ParseError),
    /// The remote fetch failed.
    YoutubeErr(youtube_dl::Error),
    /// A document could not be encoded or decoded.
    JsonErr(serde_json::Error),
    /// A path that cannot be taken was taken.
    Infallible,
    /// A directory or file could not be created, read, written or deleted.
    Io(std::io::Error),
    /// Any other failure, described in words.
    Custom(String),
}

} // verus!
