//! What the library reads of an inbound request.

use mould::session::Extractor;
use mould::session::Request;
use vstd::prelude::*;

verus! {

/// `mould::session::Request`, carried through as a value that is not looked
/// into: what the library reads of it, it reads through the two functions
/// below.
#[verifier::external_type_specification]
#[verifier::external_body]
pub struct ExRequest(Request);

/// The action that a request names.
pub uninterp spec fn request_action(request: Request) -> Seq<char>;

/// The payload fields of a request that hold text, each under its key.
pub uninterp spec fn request_text(request: Request) -> Map<Seq<char>, Seq<char>>;

/// The text field that a request holds under `key`, if it holds one.
pub open spec fn text_field(request: Request, key: Seq<char>) -> Option<Seq<char>> {
    if request_text(request).contains_key(key) {
        Some(request_text(request)[key])
    } else {
        None
    }
}

/// Reads the public field `action` of `mould::session::Request`: the result
/// is a copy of that string.
#[verifier::external_body]
pub(crate) fn action_of(request: &Request) -> (action: String)
    ensures
        action@ == request_action(*request),
{
    request.action.clone()
}

/// Calls `Extractor::<String>::extract` of `mould::session::Request`, which
/// looks `key` up in the payload and hands the value out where it is a JSON
/// string. The request is only read. A key that is missing and a value that
/// is no string both come back as `None`.
#[verifier::external_body]
pub(crate) fn extract_text(request: &mut Request, key: &str) -> (field: Option<String>)
    ensures
        *final(request) == *old(request),
        field.deep_view() == (if request_text(*old(request)).contains_key(key@) {
            Some(request_text(*old(request))[key@])
        } else {
            None
        }),
{
    Extractor::<String>::extract(request, key).ok()
}

} // verus!
