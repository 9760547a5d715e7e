//! Errors that stop an operation before or instead of a pass.

use vstd::prelude::*;

verus! {

/// `url::ParseError`: why `url::Url::parse` rejected its input. Its variants
/// are not read here; the value is only carried to the caller.
#[verifier::external_type_specification]
#[verifier::external_body]
pub struct ExParseError(url::ParseError);

#[derive(Debug, PartialEq, Eq)]
pub enum ErrorKind {
    /// The name is outside the engine catalog.
    UnknownEngine(String),
    /// The name is in the catalog, but no live store stands behind it.
    UnsupportedFeature(String),
    /// The store's owner has dropped it.
    ConnectionClosed(String),
    /// A previous holder of the store's lock failed while holding it.
    LockPoisoned(String),
    /// The symmetric key bundle could not be decoded; holds the decoder's message.
    InvalidKeyBundle(String),
    /// The token-server address is not an absolute URL.
    UrlParseError(url::ParseError),
    /// A store reported a failure of its own; holds the store's message.
    StoreError(String),
}

/// An error with each text taken as a sequence of characters.
pub enum ErrorKindView {
    UnknownEngine(Seq<char>),
    UnsupportedFeature(Seq<char>),
    ConnectionClosed(Seq<char>),
    LockPoisoned(Seq<char>),
    InvalidKeyBundle(Seq<char>),
    UrlParseError(url::ParseError),
    StoreError(Seq<char>),
}

impl View for ErrorKind {
    type V = ErrorKindView;

    open spec fn view(&self) -> ErrorKindView {
        match *self {
            ErrorKind::UnknownEngine(s) => ErrorKindView::UnknownEngine(s@),
            ErrorKind::UnsupportedFeature(s) => ErrorKindView::UnsupportedFeature(s@),
            ErrorKind::ConnectionClosed(s) => ErrorKindView::ConnectionClosed(s@),
            ErrorKind::LockPoisoned(s) => ErrorKindView::LockPoisoned(s@),
            ErrorKind::InvalidKeyBundle(s) => ErrorKindView::InvalidKeyBundle(s@),
            ErrorKind::UrlParseError(e) => ErrorKindView::UrlParseError(e),
            ErrorKind::StoreError(s) => ErrorKindView::StoreError(s@),
        }
    }
}

} // verus!
