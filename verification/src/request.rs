//! The target of the one request that the library makes.

use hyper::Uri;
use vstd::prelude::*;
use vstd::string::*;

verus! {

/// `hyper::Uri`, a request target that has been checked for its syntax.
#[verifier::external_type_specification]
#[verifier::external_body]
pub struct ExUri(hyper::Uri);

/// The endpoint of the service; a query for the caller's own address goes to
/// it as it stands.
pub open spec fn base_endpoint() -> Seq<char> {
    "http://ip-api.com/json"@
}

/// The content of an optional address.
pub open spec fn address_view(address: Option<&str>) -> Option<Seq<char>> {
    match address {
        Some(address) => Some(address@),
        None => None,
    }
}

/// The text of the target: the endpoint, and behind it, where an address is
/// given, a slash and the address.
pub open spec fn target_text(address: Option<Seq<char>>) -> Seq<char> {
    match address {
        Some(address) => base_endpoint() + "/"@ + address,
        None => base_endpoint(),
    }
}

/// What `str::parse::<Uri>` makes of a text: the URI, or `None` where the
/// text is not one.
pub uninterp spec fn parsed_uri(text: Seq<char>) -> Option<Uri>;

/// Calls `str::parse::<Uri>`, that is `Uri::from_str`, and drops the reason
/// of a refusal. Assumed: the same text always gives the same answer.
#[verifier::external_body]
fn parse_uri(text: &str) -> (r: Option<Uri>)
    ensures
        r == parsed_uri(text@),
{
    text.parse::<Uri>().ok()
}

/// Writes the target for a query: for `address` where one is given, and else
/// for the address from which the request will come.
pub fn request_target(address: Option<&str>) -> (target: String)
    ensures
        target@ == target_text(address_view(address)),
        address is None ==> target@ == base_endpoint(),
{
    let mut target = "http://ip-api.com/json".to_owned();
    match address {
        Some(address) => {
            target.append("/");
            target.append(address);
        },
        None => {},
    }
    target
}

/// Builds the target for a query as a URI. `None` means that the text written
/// for the target is no URI; no IP address in its usual notation brings that
/// about.
pub fn request_uri(address: Option<&str>) -> (r: Option<Uri>)
    ensures
        r == parsed_uri(target_text(address_view(address))),
{
    let target = request_target(address);
    parse_uri(target.as_str())
}

} // verus!
