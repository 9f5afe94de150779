//! HTTP headers: what an `http::HeaderMap` holds, and the operations of the http
//! crate on it that the library uses.

use vstd::prelude::*;
use vstd::utf8::*;

verus! {

/// `http::HeaderMap`, opaque here: `header_values` says what a map holds.
#[verifier::external_type_specification]
#[verifier::external_body]
#[verifier::reject_recursive_types(T)]
pub struct ExHeaderMap<T>(http::HeaderMap<T>);

/// `http::HeaderValue`, opaque here.
#[verifier::external_type_specification]
#[verifier::external_body]
pub struct ExHeaderValue(http::HeaderValue);

/// What a header map holds: under the name of each header, in lower case, the
/// bytes of its values in their order.
pub uninterp spec fn header_values(headers: http::HeaderMap) -> Map<Seq<char>, Seq<Seq<u8>>>;

/// No headers.
pub open spec fn no_values() -> Map<Seq<char>, Seq<Seq<u8>>> {
    Map::empty()
}

/// Up to this many different names, a header map takes another one.
pub const HEADER_ROOM: usize = 6_553;

/// Whether `name` is the name of a header as the library writes them: letters in
/// lower case, and hyphens.
pub open spec fn is_header_name(name: Seq<char>) -> bool {
    &&& 0 < name.len() <= 64
    &&& forall|i: int| 0 <= i < name.len() ==> 'a' <= #[trigger] name[i] <= 'z' || name[i] == '-'
}

/// Whether `value` can be the value of a header: visible ASCII.
pub open spec fn is_header_text(value: Seq<char>) -> bool {
    forall|i: int| 0 <= i < value.len() ==> '!' <= #[trigger] value[i] <= '~'
}

/// `HeaderMap::new`: no headers.
#[verifier::external_body]
pub(crate) fn no_headers() -> (headers: http::HeaderMap)
    ensures
        header_values(headers) == no_values(),
{
    http::HeaderMap::new()
}

/// `HeaderMap::try_insert`, which `HeaderMap::insert` is, but for a panic where
/// the map is full: the value takes the place of all that stood under the name. A
/// map that is full is left as it is; when one counts as full depends on how its
/// names hash, but a fifth of the largest table always has room.
#[verifier::external_body]
pub(crate) fn insert(
    headers: &mut http::HeaderMap,
    name: &'static str,
    value: &'static str,
) -> (inserted: bool)
    requires
        is_header_name(name@),
        is_header_text(value@),
    ensures
        header_values(*final(headers)).dom().finite(),
        inserted ==> header_values(*final(headers)) == header_values(*old(headers)).insert(
            name@,
            seq![encode_utf8(value@)],
        ),
        !inserted ==> header_values(*final(headers)) == header_values(*old(headers)),
        header_values(*old(headers)).dom().len() <= HEADER_ROOM ==> inserted,
{
    headers.try_insert(name, http::HeaderValue::from_static(value)).is_ok()
}

/// `HeaderMap::remove`: nothing is left under the name.
#[verifier::external_body]
pub(crate) fn remove(headers: &mut http::HeaderMap, name: &'static str)
    requires
        is_header_name(name@),
    ensures
        header_values(*final(headers)) == header_values(*old(headers)).remove(name@),
{
    headers.remove(name);
}

} // verus!
