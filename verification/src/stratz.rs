//! The match feed: where it is asked, how much is asked of it, and how asking can fail.

use vstd::prelude::*;
use vstd::string::*;

verus! {

/// How many of the latest matches one scan asks for.
pub const MATCH_SCAN_TAKE: i64 = 10;

/// Why a request for the match feed failed.
#[derive(Clone, Copy, Debug, PartialEq, Eq, Structural)]
pub enum StratzError {
    /// The request could not be carried out.
    Request,
    /// A response arrived but could not be decoded.
    Parse,
}

/// The address of the feed for the holder of the credential `jwt`.
pub open spec fn api_url_text(jwt: Seq<char>) -> Seq<char> {
    "https://api.stratz.com/graphql?jwt="@ + jwt
}

/// The address to which queries are posted, with the credential filled in.
pub fn api_url(jwt: &str) -> (url: String)
    ensures
        url@ == api_url_text(jwt@),
{
    let mut url = String::new();
    url.append("https://api.stratz.com/graphql?jwt=");
    url.append(jwt);
    url
}

} // verus!
