//! The account's credentials for one pass.

use crate::error::{ErrorKind, ErrorKindView};
use crate::msg_types::SyncParams;
use vstd::prelude::*;

verus! {

/// `url::Url`: a parsed absolute URL. Nothing is read from it here; it is
/// handed on to whoever talks to the token server.
#[verifier::external_type_specification]
#[verifier::external_body]
pub struct ExUrl(url::Url);

/// What `url::Url::parse` returns for a text: the URL it reads from it, or
/// the error with which it refuses it.
pub uninterp spec fn url_parse(input: Seq<char>) -> Result<url::Url, url::ParseError>;

/// The error with which `url::Url::parse` refuses the text, if it refuses it.
pub open spec fn url_parse_error(input: Seq<char>) -> Option<url::ParseError> {
    match url_parse(input) {
        Ok(_) => None,
        Err(e) => Some(e),
    }
}

/// Whether `url::Url::parse` accepts the text as an absolute URL.
pub open spec fn url_parses(input: Seq<char>) -> bool {
    url_parse(input) is Ok
}

/// Calls `url::Url::parse`. The parser reads its input and nothing else: no
/// base URL, no override, no table that is not compiled in. So what it
/// returns is a function of the text, and that is all the contract claims;
/// what the URL holds is not stated.
#[verifier::external_body]
pub(crate) fn parse_url(input: &str) -> (r: Result<url::Url, url::ParseError>)
    ensures
        r == url_parse(input@),
{
    url::Url::parse(input)
}

/// What the storage client is set up with.
#[derive(Debug)]
pub struct StorageInit {
    pub key_id: String,
    pub access_token: String,
    pub tokenserver_url: url::Url,
}

/// Builds the storage client's setup from the request and the outcome of
/// parsing the request's token-server address.
pub fn storage_init(p: &SyncParams, url: Result<url::Url, url::ParseError>) -> (r: Result<
    StorageInit,
    ErrorKind,
>)
    ensures
        match url {
            Ok(u) => r matches Ok(init) && init.tokenserver_url == u && init.key_id@
                == p.acct_key_id@ && init.access_token@ == p.acct_access_token@,
            Err(e) => r matches Err(k) && k@ == ErrorKindView::UrlParseError(e),
        },
{
    match url {
        Ok(u) => Ok(
            StorageInit {
                key_id: p.acct_key_id.clone(),
                access_token: p.acct_access_token.clone(),
                tokenserver_url: u,
            },
        ),
        Err(e) => Err(ErrorKind::UrlParseError(e)),
    }
}

} // verus!
