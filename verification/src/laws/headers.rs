//! Laws on headers.
use vstd::prelude::*;
use axum::http::HeaderMap;
use crate::headers::{
    answers, build_post_headers, fields_of, fields_or_none, first_value, flags_are, forwarded,
    header_texts, read_header,
};

verus! {

/// Whether a header value can be shown: of visible ASCII characters, spaces and tabs.
pub open spec fn can_be_shown(bytes: Seq<u8>) -> bool {
    forall|i: int| 0 <= i < bytes.len() ==> 32 <= #[trigger] bytes[i] <= 126 || bytes[i] == 9
}

/// ASCII bytes as a text.
pub open spec fn as_shown(bytes: Seq<u8>) -> Seq<char> {
    Seq::new(bytes.len(), |i: int| bytes[i] as char)
}

/// The fields of optional headers.
pub open spec fn all_fields(headers: Option<&HeaderMap>) -> Seq<(Seq<char>, Seq<u8>)> {
    if headers is Some {
        fields_of(*headers->0)
    } else {
        Seq::empty()
    }
}

/// The fields whose flag is set and whose value can be shown, in their order.
pub open spec fn kept(fields: Seq<(Seq<char>, Seq<u8>)>, flags: Seq<bool>) -> Seq<
    (Seq<char>, Seq<char>),
>
    decreases fields.len(),
{
    if fields.len() == 0 {
        Seq::empty()
    } else {
        let before = kept(fields.drop_last(), flags.drop_last());
        if flags[fields.len() - 1] && can_be_shown(fields[fields.len() - 1].1) {
            before.push((fields[fields.len() - 1].0, as_shown(fields[fields.len() - 1].1)))
        } else {
            before
        }
    }
}

pub(crate) proof fn lemma_shown(bytes: Seq<u8>)
    ensures
        crate::headers::visible_text(bytes) is Some <==> can_be_shown(bytes),
        can_be_shown(bytes) ==> crate::headers::visible_text(bytes)->0 == as_shown(bytes),
{
    if can_be_shown(bytes) {
        assert forall|i: int| 0 <= i < bytes.len() implies crate::headers::is_visible(
            #[trigger] bytes[i],
        ) by {}
        assert(crate::headers::visible_text(bytes)->0 =~= as_shown(bytes));
    }
    if crate::headers::visible_text(bytes) is Some {
        assert forall|i: int| 0 <= i < bytes.len() implies 32 <= #[trigger] bytes[i] <= 126
            || bytes[i] == 9 by {
            assert(crate::headers::is_visible(bytes[i]));
        }
    }
}

proof fn lemma_kept(fields: Seq<(Seq<char>, Seq<u8>)>, flags: Seq<bool>)
    requires
        flags.len() == fields.len(),
    ensures
        forwarded(fields, flags) == kept(fields, flags),
    decreases fields.len(),
{
    if fields.len() > 0 {
        lemma_kept(fields.drop_last(), flags.drop_last());
        lemma_shown(fields.last().1);
    }
}

/// The first field of a name is read, where it can be shown.
pub proof fn law_the_first_field_is_read(headers: Option<&HeaderMap>, name: &str, r: Option<&str>)
    requires
        call_ensures(read_header, (headers, name), r),
    ensures
        ({
            let found = if headers is Some {
                first_value(fields_of(*headers->0), name@)
            } else {
                None
            };
            &&& r is Some <==> found is Some && can_be_shown(found->0)
            &&& r is Some ==> r->0@ == as_shown(found->0)
        }),
{
    if headers is Some && first_value(fields_of(*headers->0), name@) is Some {
        lemma_shown(first_value(fields_of(*headers->0), name@)->0);
    }
}

/// Whether header fields are those that go out of given fields by given flags, behind a
/// word that the connection be closed where it is to be.
pub open spec fn is_sent(
    r: Seq<(String, String)>,
    fields: Seq<(Seq<char>, Seq<u8>)>,
    flags: Seq<bool>,
    connection_close: bool,
) -> bool {
    let sent = kept(fields, flags);
    let skip: int = if connection_close {
        1
    } else {
        0
    };
    &&& r.len() == skip + sent.len()
    &&& connection_close ==> r[0].0@ == "Connection"@ && r[0].1@ == "close"@
    &&& forall|i: int|
        skip <= i < r.len() ==> (#[trigger] r[i]).0@ == sent[i - skip].0 && r[i].1@ == sent[i
            - skip].1
}

/// Whether a rule may answer `flag` on a name.
pub open spec fn may_answer<F: Fn(&str) -> bool>(rule: F, name: Seq<char>, flag: bool) -> bool {
    exists|text: &str| text@ == name && #[trigger] rule.ensures((text,), flag)
}

/// A request goes out with the fields that came in: those that the rule lets through
/// and that can be shown, in their order and unchanged, behind a word that the
/// connection be closed where it is to be.
pub proof fn law_fields_go_out_as_they_came_in<F: Fn(&str) -> bool>(
    headers: Option<&HeaderMap>,
    connection_close: bool,
    rule: F,
    r: Vec<(String, String)>,
)
    requires
        call_ensures(build_post_headers::<F>, (headers, connection_close, rule), r),
    ensures
        exists|flags: Seq<bool>|
            flags.len() == all_fields(headers).len() && (forall|i: int|
                0 <= i < flags.len() ==> may_answer(
                    rule,
                    all_fields(headers)[i].0,
                    #[trigger] flags[i],
                )) && #[trigger] is_sent(r@, all_fields(headers), flags, connection_close),
{
    let fields = all_fields(headers);
    let flags = choose|flags: Seq<bool>| #[trigger]
        flags_are(rule, fields_or_none(headers), flags) && header_texts(r@) == (
        if connection_close {
            seq![("Connection"@, "close"@)]
        } else {
            Seq::empty()
        }) + forwarded(fields_or_none(headers), flags);
    assert(fields == fields_or_none(headers));
    lemma_kept(fields, flags);
    let sent = kept(fields, flags);
    let skip: int = if connection_close {
        1
    } else {
        0
    };
    assert(header_texts(r@).len() == r@.len());
    if connection_close {
        assert(header_texts(r@)[0] == ("Connection"@, "close"@));
    }
    assert forall|i: int| skip <= i < r@.len() implies (#[trigger] r@[i]).0@ == sent[i - skip].0
        && r@[i].1@ == sent[i - skip].1 by {
        assert(header_texts(r@)[i] == sent[i - skip]);
    }
    assert(is_sent(r@, fields, flags, connection_close));
    assert forall|i: int| 0 <= i < flags.len() implies may_answer(
        rule,
        fields[i].0,
        #[trigger] flags[i],
    ) by {
        assert(answers(rule, fields[i].0, flags[i]));
    }
}

} // verus!
