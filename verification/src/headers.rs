//! Request headers.
use vstd::prelude::*;
use axum::http::header::ToStrError;
use axum::http::{HeaderMap, HeaderValue};

verus! {

#[verifier::external_type_specification]
#[verifier::external_body]
#[verifier::reject_recursive_types(T)]
pub struct ExHeaderMap<T>(HeaderMap<T>);

#[verifier::external_type_specification]
#[verifier::external_body]
pub struct ExHeaderValue(HeaderValue);

#[verifier::external_type_specification]
#[verifier::external_body]
pub struct ExToStrError(ToStrError);

/// The fields that an `http::HeaderMap` holds, each a name in lower case and
/// the bytes of a value, in the order in which the map is walked.
pub uninterp spec fn fields_of(headers: HeaderMap) -> Seq<(Seq<char>, Seq<u8>)>;

/// The bytes that an `http::HeaderValue` holds.
pub uninterp spec fn value_bytes(value: HeaderValue) -> Seq<u8>;

/// Whether a byte of a header value can be shown: a visible ASCII character, a space or a tab.
pub open spec fn is_visible(byte: u8) -> bool {
    32 <= byte < 127 || byte == 9
}

/// The text of a header value, where every byte of it can be shown.
pub open spec fn visible_text(bytes: Seq<u8>) -> Option<Seq<char>> {
    if forall|i: int| 0 <= i < bytes.len() ==> is_visible(#[trigger] bytes[i]) {
        Some(bytes.map_values(|b: u8| b as char))
    } else {
        None
    }
}

/// `http::HeaderValue::to_str`: the text of the value where every byte of it can be shown.
pub assume_specification[ HeaderValue::to_str ](value: &HeaderValue) -> (r: Result<&str, ToStrError>)
    ensures
        match visible_text(value_bytes(*value)) {
            Some(text) => r is Ok && r->Ok_0@ == text,
            None => r is Err,
        },
;

/// Whether a text is a header name that needs no normalising: lower-case
/// letters, digits and hyphens, between one and sixty-four of them.
pub open spec fn is_plain_name(name: Seq<char>) -> bool {
    &&& 1 <= name.len() <= 64
    &&& forall|i: int|
        0 <= i < name.len() ==> {
            ||| 'a' <= #[trigger] name[i] <= 'z'
            ||| '0' <= name[i] <= '9'
            ||| name[i] == '-'
        }
}

/// The value of the first field with a given name.
pub open spec fn first_value(fields: Seq<(Seq<char>, Seq<u8>)>, name: Seq<char>) -> Option<Seq<u8>>
    decreases fields.len(),
{
    if fields.len() == 0 {
        None
    } else if fields.first().0 == name {
        Some(fields.first().1)
    } else {
        first_value(fields.drop_first(), name)
    }
}

/// `http::HeaderMap::get`: the first value under a name.
#[verifier::external_body]
pub(crate) fn get<'a>(headers: &'a HeaderMap, name: &str) -> (r: Option<&'a HeaderValue>)
    requires
        is_plain_name(name@),
    ensures
        match first_value(fields_of(*headers), name@) {
            Some(bytes) => r is Some && value_bytes(*(r->0)) == bytes,
            None => r is None,
        },
{
    headers.get(name)
}

/// `http::HeaderMap::iter`: every field, its name and value as plain values.
#[verifier::external_body]
pub(crate) fn fields(headers: &HeaderMap) -> (r: Vec<(String, HeaderValue)>)
    ensures
        r@.map_values(|field: (String, HeaderValue)| (field.0@, value_bytes(field.1))) == fields_of(
            *headers,
        ),
{
    headers.iter().map(|(name, value)| (name.as_str().to_string(), value.clone())).collect()
}

/// The text of the first field with a given name, where there is one and it can be shown.
pub open spec fn header_text(headers: Option<&HeaderMap>, name: Seq<char>) -> Option<Seq<char>> {
    match headers {
        Some(headers) => match first_value(fields_of(*headers), name) {
            Some(bytes) => visible_text(bytes),
            None => None,
        },
        None => None,
    }
}

/// Reads the first field with a given name as text.
pub fn read_header<'a>(headers: Option<&'a HeaderMap>, name: &str) -> (r: Option<&'a str>)
    requires
        is_plain_name(name@),
    ensures
        match header_text(headers, name@) {
            Some(text) => r is Some && r->0@ == text,
            None => r is None,
        },
{
    match headers {
        Some(headers) => match get(headers, name) {
            Some(value) => match value.to_str() {
                Ok(text) => Some(text),
                Err(_) => None,
            },
            None => None,
        },
        None => None,
    }
}

/// The fields that go out to a worker: of those whose flag is set, the ones
/// whose value can be shown, in their order.
pub open spec fn forwarded(fields: Seq<(Seq<char>, Seq<u8>)>, flags: Seq<bool>) -> Seq<
    (Seq<char>, Seq<char>),
>
    decreases fields.len(),
{
    if fields.len() == 0 {
        Seq::empty()
    } else {
        let before = forwarded(fields.drop_last(), flags.drop_last());
        if flags.last() && visible_text(fields.last().1) is Some {
            before.push((fields.last().0, visible_text(fields.last().1)->0))
        } else {
            before
        }
    }
}

/// The fields of a request's headers.
pub open spec fn fields_or_none(headers: Option<&HeaderMap>) -> Seq<(Seq<char>, Seq<u8>)> {
    match headers {
        Some(headers) => fields_of(*headers),
        None => Seq::empty(),
    }
}

/// Header fields as text.
pub open spec fn header_texts(list: Seq<(String, String)>) -> Seq<(Seq<char>, Seq<char>)> {
    list.map_values(|field: (String, String)| (field.0@, field.1@))
}

/// Whether a predicate may answer `flag` on a name.
pub open spec fn answers<F: Fn(&str) -> bool>(should_forward: F, name: Seq<char>, flag: bool) -> bool {
    exists|text: &str| text@ == name && #[trigger] should_forward.ensures((text,), flag)
}

/// Whether flags are the answers of a predicate on the names of fields.
pub open spec fn flags_are<F: Fn(&str) -> bool>(
    should_forward: F,
    fields: Seq<(Seq<char>, Seq<u8>)>,
    flags: Seq<bool>,
) -> bool {
    &&& flags.len() == fields.len()
    &&& forall|i: int|
        0 <= i < flags.len() ==> answers(should_forward, fields[i].0, #[trigger] flags[i])
}

/// The headers of the request to a worker: `Connection: close` where the
/// connection is to be closed, then the fields of the incoming request that
/// `should_forward` lets through and that can be shown.
pub fn build_post_headers<F: Fn(&str) -> bool>(
    headers: Option<&HeaderMap>,
    connection_close: bool,
    should_forward: F,
) -> (r: Vec<(String, String)>)
    requires
        forall|name: &str| #[trigger] should_forward.requires((name,)),
    ensures
        exists|flags: Seq<bool>| #[trigger]
            flags_are(should_forward, fields_or_none(headers), flags) && header_texts(r@) == (
            if connection_close {
                seq![("Connection"@, "close"@)]
            } else {
                Seq::empty()
            }) + forwarded(fields_or_none(headers), flags),
{
    let mut r: Vec<(String, String)> = Vec::new();
    if connection_close {
        r.push(("Connection".to_string(), "close".to_string()));
    }
    let ghost first = header_texts(r@);
    assert(first =~= if connection_close {
        seq![("Connection"@, "close"@)]
    } else {
        Seq::empty()
    });
    let ghost mut flags: Seq<bool> = Seq::empty();
    let ghost all = fields_or_none(headers);
    match headers {
        Some(headers) => {
            let list = fields(headers);
            let ghost mapped = list@.map_values(
                |field: (String, HeaderValue)| (field.0@, value_bytes(field.1)),
            );
            let mut i: usize = 0;
            assert(header_texts(r@) =~= first + forwarded(mapped.take(0), flags));
            while i < list.len()
                invariant
                    i <= list@.len(),
                    mapped == list@.map_values(
                        |field: (String, HeaderValue)| (field.0@, value_bytes(field.1)),
                    ),
                    mapped == all,
                    flags_are(should_forward, mapped.take(i as int), flags),
                    header_texts(r@) == first + forwarded(mapped.take(i as int), flags),
                    forall|name: &str| #[trigger] should_forward.requires((name,)),
                decreases list.len() - i,
            {
                let ghost before = flags;
                let name = list[i].0.as_str();
                let flag = should_forward(name);
                proof {
                    flags = flags.push(flag);
                    let taken = mapped.take(i + 1);
                    assert(taken.drop_last() =~= mapped.take(i as int));
                    assert(flags.drop_last() =~= before);
                    assert(taken[i as int].0 == name@);
                    assert(answers(should_forward, name@, flag));
                    assert forall|j: int| 0 <= j < flags.len() implies answers(
                        should_forward,
                        taken[j].0,
                        #[trigger] flags[j],
                    ) by {
                        if j < i {
                            assert(before[j] == flags[j]);
                            assert(mapped.take(i as int)[j] == taken[j]);
                        }
                    }
                }
                if flag {
                    match list[i].1.to_str() {
                        Ok(value) => {
                            let ghost sent = r@;
                            r.push((name.to_string(), value.to_string()));
                            assert(header_texts(r@) =~= header_texts(sent).push((name@, value@)));
                        },
                        Err(_) => {},
                    }
                }
                assert(header_texts(r@) =~= first + forwarded(mapped.take(i + 1), flags));
                i += 1;
            }
            assert(mapped.take(i as int) =~= mapped);
        },
        None => {
            assert(flags_are(should_forward, all, flags));
            assert(header_texts(r@) =~= first + forwarded(all, flags));
        },
    }
    assert(flags_are(should_forward, all, flags));
    r
}

} // verus!
