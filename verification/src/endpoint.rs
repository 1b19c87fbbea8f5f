//! Where a token is sent: the request address on the target device, and the
//! time allowed for one request.

use vstd::prelude::*;
use vstd::string::*;
use crate::token::CommandToken;

verus! {

/// The time allowed for one request, in milliseconds, where none is
/// configured.
pub const DEFAULT_TIMEOUT_MILLIS: u64 = 2000;

/// The address of the request that sends a token to a host.
pub open spec fn request_url_spec(host: Seq<char>, token: CommandToken) -> Seq<char> {
    "http://"@ + host + ":8060"@ + token.key_path_spec()
}

/// Returns the address of the request that sends a token to a host: the
/// scheme, the host, the control port of the device and the token's path.
pub fn request_url(host: &str, token: CommandToken) -> (url: String)
    ensures
        url@ == request_url_spec(host@, token),
{
    let path = token.key_path();
    let mut url = String::from_str("http://");
    url.append(host);
    url.append(":8060");
    url.append(path.as_str());
    url
}

/// Returns the time allowed for one request, in milliseconds: the configured
/// one, or the default where none is configured.
pub fn timeout_millis(configured: Option<u64>) -> (millis: u64)
    ensures
        millis == match configured {
            Some(t) => t,
            None => DEFAULT_TIMEOUT_MILLIS,
        },
{
    match configured {
        Some(t) => t,
        None => DEFAULT_TIMEOUT_MILLIS,
    }
}

} // verus!
