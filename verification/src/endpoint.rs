//! The urls of the gateway and of the voice servers.

use vstd::prelude::*;
use vstd::string::*;
use crate::text::{chars_of, decimal_chars, u64_to_decimal};

verus! {

/// What `url::Url::parse` makes of a text: the url that it parses to, in the
/// normalised form in which the `url` crate writes it, or `None` where it
/// reports an error.
pub uninterp spec fn parsed_url(text: Seq<char>) -> Option<Seq<char>>;

/// `url::Url::parse`, with the url that comes back turned into its text.
/// Trusted: the outcome is the function [`parsed_url`] of the text.
#[verifier::external_body]
pub(crate) fn parse_url(text: &str) -> (r: Option<String>)
    ensures
        match r {
            Some(url) => parsed_url(text@) == Some(url@),
            None => parsed_url(text@) is None,
        },
{
    url::Url::parse(text).ok().map(String::from)
}

/// Whether `s` ends in `:80`.
pub open spec fn ends_with_port(s: Seq<char>) -> bool {
    s.len() >= 3 && s[s.len() - 3] == ':' && s[s.len() - 2] == '8' && s[s.len() - 1] == '0'
}

/// An endpoint without any `:80` at its end.
pub open spec fn strip_port(s: Seq<char>) -> Seq<char>
    decreases s.len(),
{
    if ends_with_port(s) {
        strip_port(s.take(s.len() - 3))
    } else {
        s
    }
}

/// The url of the voice websocket at `endpoint`.
pub open spec fn voice_url_text(endpoint: Seq<char>) -> Seq<char> {
    "wss://"@ + strip_port(endpoint) + "?v=3"@
}

/// The url of the gateway at `base`, for version `version` of the protocol
/// and JSON encoding.
pub open spec fn gateway_url_text(base: Seq<char>, version: u8) -> Seq<char> {
    base + "?v="@ + decimal_chars(version as nat) + "&encoding=json"@
}

/// Takes every `:80` off the end of an endpoint.
pub fn strip_port_suffix(endpoint: &str) -> (r: String)
    ensures
        r@ == strip_port(endpoint@),
{
    let chars = chars_of(endpoint);
    let mut n: usize = chars.len();
    assert(endpoint@.take(n as int) =~= endpoint@);
    while n >= 3 && chars[n - 3] == ':' && chars[n - 2] == '8' && chars[n - 1] == '0'
        invariant
            n <= chars@.len(),
            chars@ == endpoint@,
            strip_port(endpoint@) == strip_port(endpoint@.take(n as int)),
        decreases n,
    {
        assert(endpoint@.take(n as int).take(n - 3) =~= endpoint@.take(n - 3));
        n = n - 3;
    }
    let kept = endpoint.substring_char(0, n);
    assert(kept@ =~= endpoint@.take(n as int));
    String::from_str(kept)
}

/// The url of the voice websocket at `endpoint`: `wss://`, the endpoint
/// without any `:80` at its end, and `?v=3`. `None` where that is no url.
pub fn voice_url(endpoint: &str) -> (r: Option<String>)
    ensures
        match r {
            Some(url) => parsed_url(voice_url_text(endpoint@)) == Some(url@),
            None => parsed_url(voice_url_text(endpoint@)) is None,
        },
{
    let mut text = String::from_str("wss://");
    let host = strip_port_suffix(endpoint);
    text.append(host.as_str());
    text.append("?v=3");
    parse_url(text.as_str())
}

/// The url of the gateway: the url that the service reports, with the
/// protocol version and the encoding as its query. `None` where that is no
/// url.
pub fn gateway_url(base: &str, version: u8) -> (r: Option<String>)
    ensures
        match r {
            Some(url) => parsed_url(gateway_url_text(base@, version)) == Some(url@),
            None => parsed_url(gateway_url_text(base@, version)) is None,
        },
{
    let mut text = String::from_str(base);
    text.append("?v=");
    text.append(u64_to_decimal(version as u64).as_str());
    text.append("&encoding=json");
    parse_url(text.as_str())
}

} // verus!
