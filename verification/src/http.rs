//! The parts of an HTTP request that the server looks at.

use crate::text::first_index;
use axum::http::{HeaderMap, HeaderValue, Uri};
use vstd::prelude::*;

verus! {

/// The headers of a request, as the `http` crate keeps them.
#[verifier::external_type_specification]
#[verifier::external_body]
#[verifier::reject_recursive_types(T)]
pub struct ExHeaderMap<T>(axum::http::HeaderMap<T>);

/// The value of one header.
#[verifier::external_type_specification]
#[verifier::external_body]
pub struct ExHeaderValue(axum::http::HeaderValue);

/// The target of a request.
#[verifier::external_type_specification]
#[verifier::external_body]
pub struct ExUri(axum::http::Uri);

/// The headers that a map holds under names that `HeaderMap::get` can look up:
/// for each such name, in lower case, the bytes of its values in the order in
/// which they were added.
pub uninterp spec fn header_fields(headers: HeaderMap) -> Map<Seq<char>, Seq<Seq<u8>>>;

/// The bytes that a header value holds.
pub uninterp spec fn value_bytes(value: HeaderValue) -> Seq<u8>;

/// The characters that a URI holds after its authority: the path and, after a
/// question mark, the query.
pub uninterp spec fn path_and_query(uri: Uri) -> Seq<char>;

/// No character of `name` is a capital letter of ASCII.
pub open spec fn lower_case(name: Seq<char>) -> bool {
    forall|i: int| 0 <= i < name.len() ==> !('A' <= #[trigger] name[i] <= 'Z')
}

/// Every byte is a visible character of ASCII, a space or a tab.
pub open spec fn visible(bytes: Seq<u8>) -> bool {
    forall|i: int| 0 <= i < bytes.len() ==> 32 <= #[trigger] bytes[i] < 127 || bytes[i] == 9
}

/// The characters of ASCII that bytes stand for.
pub open spec fn ascii(bytes: Seq<u8>) -> Seq<char> {
    Seq::new(bytes.len(), |i: int| bytes[i] as char)
}

/// The query in a path with a query: what stands after the first question
/// mark.
pub open spec fn query_part(text: Seq<char>) -> Option<Seq<char>> {
    match first_index(text, "?"@) {
        Some(i) => Some(text.skip(i + 1)),
        None => None,
    }
}

/// Calls `HeaderMap::get` with a name in lower case, which is how the map
/// keeps names: the first value of the header, where the map holds it under a
/// name that `get` can look up, and `None` otherwise.
#[verifier::external_body]
pub(crate) fn header_value<'a>(headers: &'a HeaderMap, name: &str) -> (res: Option<&'a HeaderValue>)
    requires
        lower_case(name@),
    ensures
        match res {
            Some(value) => {
                &&& header_fields(*headers).contains_key(name@)
                &&& header_fields(*headers)[name@].len() > 0
                &&& value_bytes(*value) == header_fields(*headers)[name@][0]
            },
            None => !header_fields(*headers).contains_key(name@),
        },
{
    headers.get(name)
}

/// Calls `HeaderValue::to_str`: the text of a value whose bytes are all
/// visible ASCII, spaces or tabs, and an error for any other value.
#[verifier::external_body]
pub(crate) fn value_text<'a>(value: &'a HeaderValue) -> (res: Option<&'a str>)
    ensures
        match res {
            Some(text) => visible(value_bytes(*value)) && text@ == ascii(value_bytes(*value)),
            None => !visible(value_bytes(*value)),
        },
{
    value.to_str().ok()
}

/// Calls `Uri::query`: what stands after the first question mark of the path
/// and query, where there is one. A URI does not keep a fragment.
#[verifier::external_body]
pub(crate) fn uri_query<'a>(uri: &'a Uri) -> (res: Option<&'a str>)
    ensures
        match res {
            Some(query) => query_part(path_and_query(*uri)) == Some(query@),
            None => query_part(path_and_query(*uri)) is None,
        },
{
    uri.query()
}

} // verus!
