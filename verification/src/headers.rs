//! HTTP header maps as the proxy sees them.
//!
//! The maps, names and values are those of the `http` crate, which `axum`
//! hands on. The functions here give a map a mathematical model, a multimap
//! from names to the values held under each, and a contract for each
//! operation that the proxy performs on one.

use crate::text::same_text;
use vstd::prelude::*;

verus! {

/// `http::HeaderMap`: a multimap of headers, known here by its model alone.
#[verifier::external_type_specification]
#[verifier::external_body]
#[verifier::reject_recursive_types(T)]
pub struct ExHeaderMap<T>(axum::http::HeaderMap<T>);

/// `http::HeaderName`: the name of a header, known here by its text alone.
#[verifier::external_type_specification]
#[verifier::external_body]
pub struct ExHeaderName(axum::http::HeaderName);

/// `http::HeaderValue`: the value of a header, known here by its bytes alone.
#[verifier::external_type_specification]
#[verifier::external_body]
pub struct ExHeaderValue(axum::http::HeaderValue);

/// `http::header::MaxSizeReached`: the error of a header map that cannot
/// grow.
#[verifier::external_type_specification]
#[verifier::external_body]
pub struct ExMaxSizeReached(axum::http::header::MaxSizeReached);

/// The model of a header map: each name that occurs, with the values held
/// under it in the order in which they were added.
pub type Fields = Map<Seq<char>, Seq<Seq<u8>>>;

/// One header as plain values: its name and the bytes of its value.
pub type Field = (Seq<char>, Seq<u8>);

/// What a header map holds.
pub uninterp spec fn header_fields(m: axum::http::HeaderMap<axum::http::HeaderValue>) -> Fields;

/// The text of a header name, as `HeaderName::as_str` gives it.
pub uninterp spec fn header_name_text(n: axum::http::HeaderName) -> Seq<char>;

/// The bytes of a header value, as `HeaderValue::as_bytes` gives them.
pub uninterp spec fn header_value_bytes(v: axum::http::HeaderValue) -> Seq<u8>;

/// The values held under `name`, none where the name does not occur.
pub open spec fn fields_named(fields: Fields, name: Seq<char>) -> Seq<Seq<u8>> {
    if fields.contains_key(name) {
        fields[name]
    } else {
        Seq::empty()
    }
}

/// The values that a list of headers gives for `name`, in the list's order.
pub open spec fn values_named(list: Seq<Field>, name: Seq<char>) -> Seq<Seq<u8>>
    decreases list.len(),
{
    if list.len() == 0 {
        Seq::empty()
    } else if list.last().0 == name {
        values_named(list.drop_last(), name).push(list.last().1)
    } else {
        values_named(list.drop_last(), name)
    }
}

/// A list of borrowed headers as plain values.
pub open spec fn listed(
    pairs: Seq<(&axum::http::HeaderName, &axum::http::HeaderValue)>,
) -> Seq<Field> {
    Seq::new(pairs.len(), |i: int| (header_name_text(*pairs[i].0), header_value_bytes(*pairs[i].1)))
}

/// Whether a byte may stand in a header value: `HeaderValue::from_str`
/// refuses control characters other than the tab.
pub open spec fn is_value_byte(b: u8) -> bool {
    b >= 32 && b != 127 || b == 9
}

/// Whether every byte of `bytes` may stand in a header value.
pub open spec fn is_value_text(bytes: Seq<u8>) -> bool {
    forall|i: int| 0 <= i < bytes.len() ==> is_value_byte(#[trigger] bytes[i])
}

/// The model of a map without headers.
pub open spec fn no_fields() -> Fields {
    Map::empty()
}

/// Whether a map holds no more than `count` names.
pub open spec fn holds_at_most(fields: Fields, count: nat) -> bool {
    fields.dom().finite() && fields.dom().len() <= count
}

/// Whether a map that holds these names is sure to take one more header.
///
/// A `HeaderMap` refuses a header only where it holds 32768 names, or where
/// doubling its table would pass 32768 slots. The table has a power of two
/// of slots, so one that cannot be doubled has 32768. It is doubled when the
/// names fill three quarters of the slots or, after long probe sequences, a
/// fifth of them. So a map that refuses holds at least a fifth of 32768
/// names: more than 6553.
pub open spec fn has_room(fields: Fields) -> bool {
    fields.dom().finite() && fields.dom().len() * 5 < 32768
}

/// `HeaderMap::new`: a map without headers.
#[verifier::external_body]
pub(crate) fn new_header_map() -> (r: axum::http::HeaderMap<axum::http::HeaderValue>)
    ensures
        header_fields(r) == no_fields(),
{
    axum::http::HeaderMap::new()
}

/// `HeaderMap::iter`, collected: every header of the map, the values of one
/// name in the order in which the map holds them. A name that the map holds
/// has at least one value, so the map holds no more names than headers.
#[verifier::external_body]
pub(crate) fn header_pairs<'a>(m: &'a axum::http::HeaderMap<axum::http::HeaderValue>) -> (r: Vec<
    (&'a axum::http::HeaderName, &'a axum::http::HeaderValue),
>)
    ensures
        holds_at_most(header_fields(*m), r@.len()),
        forall|name: Seq<char>| #[trigger]
            values_named(listed(r@), name) == fields_named(header_fields(*m), name),
        forall|name: Seq<char>|
            header_fields(*m).contains_key(name) ==> (#[trigger] values_named(
                listed(r@),
                name,
            )).len() > 0,
{
    m.iter().collect()
}

/// `HeaderName::as_str`: the name's text.
#[verifier::external_body]
pub(crate) fn name_str<'a>(n: &'a axum::http::HeaderName) -> (r: &'a str)
    ensures
        r@ == header_name_text(*n),
{
    n.as_str()
}

/// `HeaderValue::clone`: a value with the same bytes.
#[verifier::external_body]
pub(crate) fn copy_header_value(v: &axum::http::HeaderValue) -> (r: axum::http::HeaderValue)
    ensures
        header_value_bytes(r) == header_value_bytes(*v),
{
    v.clone()
}

/// The constant `http::header::AUTHORIZATION`, whose text is `authorization`.
#[verifier::external_body]
pub(crate) fn authorization_name() -> (r: axum::http::HeaderName)
    ensures
        header_name_text(r) == "authorization"@,
{
    axum::http::header::AUTHORIZATION
}

/// `HeaderMap::try_append`: where it succeeds, the value is added behind the
/// values that the name has; where the map cannot grow, nothing changes. A
/// map with room succeeds.
#[verifier::external_body]
pub(crate) fn try_append(
    m: &mut axum::http::HeaderMap<axum::http::HeaderValue>,
    name: &axum::http::HeaderName,
    value: axum::http::HeaderValue,
) -> (r: Result<bool, axum::http::header::MaxSizeReached>)
    ensures
        r is Ok ==> header_fields(*final(m)) == header_fields(*old(m)).insert(
            header_name_text(*name),
            fields_named(header_fields(*old(m)), header_name_text(*name)).push(
                header_value_bytes(value),
            ),
        ),
        r is Err ==> header_fields(*final(m)) == header_fields(*old(m)),
        has_room(header_fields(*old(m))) ==> r is Ok,
{
    m.try_append(name, value)
}

/// `HeaderMap::try_insert`: where it succeeds, the value is the only one that
/// the name has; where the map cannot grow, nothing changes. A map with room
/// succeeds.
#[verifier::external_body]
pub(crate) fn try_insert(
    m: &mut axum::http::HeaderMap<axum::http::HeaderValue>,
    name: axum::http::HeaderName,
    value: axum::http::HeaderValue,
) -> (r: Result<Option<axum::http::HeaderValue>, axum::http::header::MaxSizeReached>)
    ensures
        r is Ok ==> header_fields(*final(m)) == header_fields(*old(m)).insert(
            header_name_text(name),
            seq![header_value_bytes(value)],
        ),
        r is Err ==> header_fields(*final(m)) == header_fields(*old(m)),
        has_room(header_fields(*old(m))) ==> r is Ok,
{
    m.try_insert(name, value)
}

/// `HeaderValue::from_str`: a value with the UTF-8 bytes of `s` where none of them
/// is a control character other than the tab, else `None`.
#[verifier::external_body]
pub(crate) fn header_value_from_str(s: &str) -> (r: Option<axum::http::HeaderValue>)
    ensures
        r is Some <==> is_value_text(vstd::utf8::encode_utf8(s@)),
        r matches Some(v) ==> header_value_bytes(v) == vstd::utf8::encode_utf8(s@),
{
    axum::http::HeaderValue::from_str(s).ok()
}

/// Why a header map could not be built.
#[derive(Debug, Clone, Copy, PartialEq, Eq, Structural)]
pub enum HeaderError {
    /// The map would hold more headers than a header map can.
    TooManyHeaders,
}

/// Whether a header of this name is copied from the inbound request.
pub open spec fn is_forwarded(name: Seq<char>) -> bool {
    name != "host"@ && name != "authorization"@
}

/// The headers of the outbound request: those of the inbound one without
/// `host` and `authorization`, and the credential as the one `authorization`.
pub open spec fn forwarded_fields(inbound: Fields, credential: Seq<u8>) -> Fields {
    inbound.remove("host"@).remove("authorization"@).insert("authorization"@, seq![credential])
}

/// What copying the headers of `list` in order has put into the outbound map.
pub open spec fn collected(list: Seq<Field>) -> Fields {
    Map::new(
        |name: Seq<char>| is_forwarded(name) && values_named(list, name).len() > 0,
        |name: Seq<char>| values_named(list, name),
    )
}

/// One more header in the list adds to the values of its own name only.
pub proof fn lemma_values_named_push(list: Seq<Field>, field: Field, name: Seq<char>)
    ensures
        values_named(list.push(field), name) == if field.0 == name {
            values_named(list, name).push(field.1)
        } else {
            values_named(list, name)
        },
{
    assert(list.push(field).drop_last() == list);
}

/// A name has no more values in the first headers of a list than in the
/// whole list.
pub proof fn lemma_values_named_grow(list: Seq<Field>, i: int, name: Seq<char>)
    requires
        0 <= i <= list.len(),
    ensures
        values_named(list.take(i), name).len() <= values_named(list, name).len(),
    decreases list.len() - i,
{
    if i < list.len() {
        lemma_values_named_grow(list, i + 1, name);
        assert(list.take(i + 1) == list.take(i).push(list[i]));
        lemma_values_named_push(list.take(i), list[i], name);
    } else {
        assert(list.take(i) == list);
    }
}

/// A map that holds some of the names of a map with room has room itself.
pub proof fn lemma_room_for_fewer_names(fewer: Fields, more: Fields)
    requires
        fewer.dom().subset_of(more.dom()),
        has_room(more),
    ensures
        has_room(fewer),
{
    vstd::set_lib::lemma_len_subset(fewer.dom(), more.dom());
}

/// Builds the headers of the outbound request: every inbound header but
/// `host` and `authorization` is copied, and `auth` becomes the one
/// `authorization` header. Succeeds on every inbound map with room, and
/// fails only where the header map refuses to grow.
pub fn build_headers(
    src: &axum::http::HeaderMap<axum::http::HeaderValue>,
    auth: &axum::http::HeaderValue,
) -> (r: Result<axum::http::HeaderMap<axum::http::HeaderValue>, HeaderError>)
    ensures
        has_room(header_fields(*src)) ==> r is Ok,
        r matches Ok(dst) ==> header_fields(dst) == forwarded_fields(
            header_fields(*src),
            header_value_bytes(*auth),
        ),
        r matches Err(e) ==> e == HeaderError::TooManyHeaders,
{
    let pairs = header_pairs(src);
    let mut dst = new_header_map();
    let ghost list = listed(pairs@);
    let mut i: usize = 0;
    assert(collected(list.take(0)) =~= no_fields());
    assert forall|k: int| 0 <= k <= list.len() implies (#[trigger] collected(
        list.take(k),
    )).dom().subset_of(header_fields(*src).dom()) by {
        assert forall|n: Seq<char>| collected(list.take(k)).dom().contains(n) implies header_fields(
            *src,
        ).dom().contains(n) by {
            lemma_values_named_grow(list, k, n);
            assert(values_named(list, n) == fields_named(header_fields(*src), n));
        }
    }
    while i < pairs.len()
        invariant
            i <= pairs.len(),
            list == listed(pairs@),
            header_fields(dst) == collected(list.take(i as int)),
            forall|k: int|
                0 <= k <= list.len() ==> (#[trigger] collected(list.take(k))).dom().subset_of(
                    header_fields(*src).dom(),
                ),
        decreases pairs.len() - i,
    {
        let (name, value) = pairs[i];
        let ghost before = list.take(i as int);
        let ghost field = list[i as int];
        proof {
            assert(list.take(i + 1) == before.push(field));
            assert forall|n: Seq<char>| true implies #[trigger] values_named(before.push(field), n)
                == if field.0 == n {
                values_named(before, n).push(field.1)
            } else {
                values_named(before, n)
            } by {
                lemma_values_named_push(before, field, n);
            }
        }
        let text = name_str(name);
        if same_text(text, "host") || same_text(text, "authorization") {
            assert(collected(before.push(field)) =~= collected(before));
        } else {
            proof {
                if has_room(header_fields(*src)) {
                    lemma_room_for_fewer_names(header_fields(dst), header_fields(*src));
                }
            }
            match try_append(&mut dst, name, copy_header_value(value)) {
                Ok(_) => {
                    assert(field.0 == text@ && is_forwarded(field.0));
                    assert(fields_named(collected(before), field.0) =~= values_named(
                        before,
                        field.0,
                    ));
                    assert(collected(before.push(field)) =~= collected(before).insert(
                        field.0,
                        fields_named(collected(before), field.0).push(field.1),
                    ));
                },
                Err(_) => {
                    return Err(HeaderError::TooManyHeaders);
                },
            }
        }
        i += 1;
    }
    assert(list.take(pairs.len() as int) == list);
    proof {
        if has_room(header_fields(*src)) {
            lemma_room_for_fewer_names(header_fields(dst), header_fields(*src));
        }
    }
    match try_insert(&mut dst, authorization_name(), copy_header_value(auth)) {
        Ok(_) => {
            assert(header_fields(dst) =~= forwarded_fields(
                header_fields(*src),
                header_value_bytes(*auth),
            ));
            Ok(dst)
        },
        Err(_) => Err(HeaderError::TooManyHeaders),
    }
}

/// The outbound headers never hold a `host` header, hold the credential as
/// their one `authorization` header, and hold every other inbound header with
/// the values that it came with.
pub proof fn law_rewritten_headers(inbound: Fields, credential: Seq<u8>)
    ensures
        !forwarded_fields(inbound, credential).contains_key("host"@),
        forwarded_fields(inbound, credential).contains_key("authorization"@),
        forwarded_fields(inbound, credential)["authorization"@] == seq![credential],
        forall|name: Seq<char>|
            is_forwarded(name) ==> #[trigger] fields_named(
                forwarded_fields(inbound, credential),
                name,
            ) == fields_named(inbound, name),
{
    reveal_strlit("host");
    reveal_strlit("authorization");
    assert("host"@.len() == 4);
    assert("authorization"@.len() == 13);
}

} // verus!
