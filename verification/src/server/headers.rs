//! Request headers as the HTTP stack hands them over.

use crate::text::{ascii_lower, str_eq};
use crate::tunnel::Headers;
use http::{HeaderMap, HeaderValue};
use vstd::prelude::*;

verus! {

/// `http::HeaderMap`, of which the verifier sees nothing but the name.
#[verifier::external_type_specification]
#[verifier::external_body]
#[verifier::reject_recursive_types(T)]
pub struct ExHeaderMap<T>(HeaderMap<T>);

/// `http::HeaderValue`, of which the verifier sees nothing but the name.
#[verifier::external_type_specification]
#[verifier::external_body]
pub struct ExHeaderValue(HeaderValue);

/// The fields of a header map, each a name and the bytes of a value, in the
/// order in which the map lists them. The map keeps names in lower case, and
/// lists the values of one name together, the one that came first ahead.
pub uninterp spec fn header_fields(headers: HeaderMap<HeaderValue>) -> Seq<(Seq<char>, Seq<u8>)>;

/// The bytes of a header value.
pub uninterp spec fn header_value_bytes(value: HeaderValue) -> Seq<u8>;

/// The value of the first field of the given name.
pub open spec fn first_value(fields: Seq<(Seq<char>, Seq<u8>)>, name: Seq<char>) -> Option<
    Seq<u8>,
>
    decreases fields.len(),
{
    if fields.len() == 0 {
        None
    } else if fields[0].0 == name {
        Some(fields[0].1)
    } else {
        first_value(fields.drop_first(), name)
    }
}

/// Whether a byte is a visible ASCII character, a space or a tab.
pub open spec fn visible_ascii(b: u8) -> bool {
    32 <= b < 127 || b == 9
}

/// The bytes of a header value as text, where all of them are visible ASCII.
pub open spec fn visible_text(bytes: Seq<u8>) -> Option<Seq<char>> {
    if forall|i: int| 0 <= i < bytes.len() ==> visible_ascii(#[trigger] bytes[i]) {
        Some(bytes.map_values(|b: u8| b as char))
    } else {
        None
    }
}

/// The text of the first field that a lookup by `name` finds. Lookup is
/// blind to the case of ASCII letters.
pub open spec fn header_text(fields: Seq<(Seq<char>, Seq<u8>)>, name: Seq<char>) -> Option<
    Seq<char>,
> {
    match first_value(fields, ascii_lower(name)) {
        Some(bytes) => visible_text(bytes),
        None => None,
    }
}

/// `HeaderMap::get` with a `&str` key. The key is normalised byte by byte
/// through the crate's table of header characters, which maps ASCII capitals
/// to lower case and every byte that no header name can hold to zero; the map
/// then returns the first value stored under the name, and nothing for a key
/// that is no valid name.
#[verifier::external_body]
pub(crate) fn header_get<'a>(headers: &'a HeaderMap, name: &str) -> (value: Option<&'a HeaderValue>)
    ensures
        match first_value(header_fields(*headers), ascii_lower(name@)) {
            Some(bytes) => value is Some && header_value_bytes(*value->0) == bytes,
            None => value is None,
        },
{
    headers.get(name)
}

/// `HeaderValue::to_str`: the value as text where each of its bytes is in
/// `32..127` or a tab, and an error otherwise.
#[verifier::external_body]
pub(crate) fn header_value_text(value: &HeaderValue) -> (text: Option<String>)
    ensures
        text.deep_view() == visible_text(header_value_bytes(*value)),
{
    match value.to_str() {
        Ok(s) => Some(s.to_string()),
        Err(_) => None,
    }
}

/// `HeaderMap::iter`, with each name copied out as text: one entry for every
/// value that the map holds, in the map's order.
#[verifier::external_body]
pub(crate) fn header_entries<'a>(headers: &'a HeaderMap) -> (entries: Vec<(String, &'a HeaderValue)>)
    ensures
        entries@.len() == header_fields(*headers).len(),
        forall|i: int|
            0 <= i < entries@.len() ==> (#[trigger] entries@[i]).0@ == header_fields(*headers)[i].0
                && header_value_bytes(*entries@[i].1) == header_fields(*headers)[i].1,
{
    headers.iter().map(|(name, value)| (name.as_str().to_string(), value)).collect()
}

/// The fields that are passed on to the client: every field but `host`
/// whose value is plain text, in order.
pub open spec fn forwarded_fields(fields: Seq<(Seq<char>, Seq<u8>)>) -> Seq<(Seq<char>, Seq<char>)>
    decreases fields.len(),
{
    if fields.len() == 0 {
        seq![]
    } else {
        let rest = forwarded_fields(fields.drop_last());
        let last = fields.last();
        if last.0 != "host"@ && visible_text(last.1) is Some {
            rest.push((last.0, visible_text(last.1)->0))
        } else {
            rest
        }
    }
}

/// Lists the request headers that are passed on to the client.
pub fn collect_headers(headers: &HeaderMap) -> (list: Headers)
    ensures
        list.deep_view() == forwarded_fields(header_fields(*headers)),
{
    let entries = header_entries(headers);
    let ghost fields = header_fields(*headers);
    let mut list: Headers = Vec::new();
    let mut i: usize = 0;
    assert(fields.take(0) =~= Seq::empty());
    assert(list.deep_view() =~= Seq::empty());
    while i < entries.len()
        invariant
            i <= entries.len(),
            fields == header_fields(*headers),
            entries@.len() == fields.len(),
            forall|j: int|
                0 <= j < entries@.len() ==> (#[trigger] entries@[j]).0@ == fields[j].0
                    && header_value_bytes(*entries@[j].1) == fields[j].1,
            list.deep_view() == forwarded_fields(fields.take(i as int)),
        decreases entries.len() - i,
    {
        let ghost before = list.deep_view();
        proof {
            assert(fields.take(i + 1).drop_last() =~= fields.take(i as int));
            assert(fields.take(i + 1).last() == fields[i as int]);
        }
        let name = &entries[i].0;
        if !str_eq(name.as_str(), "host") {
            match header_value_text(entries[i].1) {
                Some(text) => {
                    list.push((name.clone(), text));
                    assert(list.deep_view() =~= before.push((fields[i as int].0, text@)));
                },
                None => {},
            }
        }
        i = i + 1;
    }
    assert(fields.take(i as int) =~= fields);
    list
}

/// The fields whose value is plain text, in order.
pub open spec fn text_fields(fields: Seq<(Seq<char>, Seq<u8>)>) -> Seq<(Seq<char>, Seq<char>)>
    decreases fields.len(),
{
    if fields.len() == 0 {
        seq![]
    } else {
        let rest = text_fields(fields.drop_last());
        let last = fields.last();
        if visible_text(last.1) is Some {
            rest.push((last.0, visible_text(last.1)->0))
        } else {
            rest
        }
    }
}

/// Lists the headers of a response as text: every field whose value is
/// plain text, in order, repeated names kept.
pub fn text_headers(headers: &HeaderMap) -> (list: Headers)
    ensures
        list.deep_view() == text_fields(header_fields(*headers)),
{
    let entries = header_entries(headers);
    let ghost fields = header_fields(*headers);
    let mut list: Headers = Vec::new();
    let mut i: usize = 0;
    assert(fields.take(0) =~= Seq::empty());
    assert(list.deep_view() =~= Seq::empty());
    while i < entries.len()
        invariant
            i <= entries.len(),
            fields == header_fields(*headers),
            entries@.len() == fields.len(),
            forall|j: int|
                0 <= j < entries@.len() ==> (#[trigger] entries@[j]).0@ == fields[j].0
                    && header_value_bytes(*entries@[j].1) == fields[j].1,
            list.deep_view() == text_fields(fields.take(i as int)),
        decreases entries.len() - i,
    {
        let ghost before = list.deep_view();
        proof {
            assert(fields.take(i + 1).drop_last() =~= fields.take(i as int));
            assert(fields.take(i + 1).last() == fields[i as int]);
        }
        match header_value_text(entries[i].1) {
            Some(text) => {
                list.push((entries[i].0.clone(), text));
                assert(list.deep_view() =~= before.push((fields[i as int].0, text@)));
            },
            None => {},
        }
        i = i + 1;
    }
    assert(fields.take(i as int) =~= fields);
    list
}

} // verus!
