use vstd::prelude::*;
use crate::text::{is_uuid_text, seq_eq_ci, str_eq, str_eq_ci};

verus! {

broadcast use vstd::std_specs::vec::group_vec_axioms, vstd::seq::group_seq_axioms;

/// A header list is modelled as the ordered sequence of its (name, value)
/// pairs, both as character sequences.
pub type HeaderModel = Seq<(Seq<char>, Seq<char>)>;

/// The marker a sensitive header value is replaced with before logging.
pub open spec fn redaction_marker() -> Seq<char> {
    "[REDACTED]"@
}

/// Header names whose values carry credentials and must never be logged.
/// Names compare case-insensitively.
pub open spec fn is_sensitive_name(name: Seq<char>) -> bool {
    ||| seq_eq_ci(name, "authorization"@)
    ||| seq_eq_ci(name, "proxy-authorization"@)
    ||| seq_eq_ci(name, "cookie"@)
    ||| seq_eq_ci(name, "set-cookie"@)
}

/// What a header's value looks like after redaction.
pub open spec fn redacted_value(name: Seq<char>, value: Seq<char>) -> Seq<char> {
    if is_sensitive_name(name) {
        redaction_marker()
    } else {
        value
    }
}

/// A header list after redaction: every name kept in order, every sensitive
/// value replaced by the marker, every other value kept.
pub open spec fn redact_model(hs: HeaderModel) -> HeaderModel {
    Seq::new(hs.len(), |i: int| (hs[i].0, redacted_value(hs[i].0, hs[i].1)))
}

/// A header list with every entry of the given name removed; order of the
/// remaining entries kept.
pub open spec fn remove_header(hs: HeaderModel, name: Seq<char>) -> HeaderModel
    decreases hs.len(),
{
    if hs.len() == 0 {
        Seq::empty()
    } else {
        let rest = remove_header(hs.drop_last(), name);
        if hs.last().0 == name {
            rest
        } else {
            rest.push(hs.last())
        }
    }
}

/// A header list after setting a header: every entry of that name replaced by
/// the single new entry, appended at the end.
pub open spec fn set_header_model(hs: HeaderModel, name: Seq<char>, value: Seq<char>) -> HeaderModel {
    remove_header(hs, name).push((name, value))
}

/// The value of the first header of the given name, if one is present.
pub open spec fn get_header_model(hs: HeaderModel, name: Seq<char>) -> Option<Seq<char>>
    decreases hs.len(),
{
    if hs.len() == 0 {
        Option::None
    } else if hs[0].0 == name {
        Option::Some(hs[0].1)
    } else {
        get_header_model(hs.skip(1), name)
    }
}

/// Decides whether a header name is sensitive.
pub fn is_sensitive_header(name: &str) -> (r: bool)
    ensures
        r == is_sensitive_name(name@),
{
    str_eq_ci(name, "authorization")
    || str_eq_ci(name, "proxy-authorization")
    || str_eq_ci(name, "cookie")
    || str_eq_ci(name, "set-cookie")
}

/// Returns the header list with every sensitive value replaced by the
/// redaction marker; names and order are kept.
pub fn redact_sensitive(headers: &Vec<(String, String)>) -> (r: Vec<(String, String)>)
    ensures
        r.deep_view() == redact_model(headers.deep_view()),
{
    let mut out: Vec<(String, String)> = Vec::new();
    let mut i: usize = 0;
    while i < headers.len()
        invariant
            0 <= i <= headers@.len(),
            out@.len() == i,
            forall|j: int| 0 <= j < i ==>
                #[trigger] out@[j].0@ == headers@[j].0@
                && out@[j].1@ == redacted_value(headers@[j].0@, headers@[j].1@),
        decreases headers@.len() - i,
    {
        let name = headers[i].0.clone();
        let value = if is_sensitive_header(headers[i].0.as_str()) {
            "[REDACTED]".to_owned()
        } else {
            headers[i].1.clone()
        };
        out.push((name, value));
        proof {
            assert(out@[i as int].0@ == headers@[i as int].0@);
            assert(out@[i as int].1@ == redacted_value(headers@[i as int].0@, headers@[i as int].1@));
        }
        i += 1;
    }
    proof {
        assert forall|j: int| 0 <= j < out@.len() implies
            out.deep_view()[j] == redact_model(headers.deep_view())[j] by {
            assert(out@[j].0@ == headers@[j].0@);
            assert(out@[j].1@ == redacted_value(headers@[j].0@, headers@[j].1@));
        }
        assert(out.deep_view() =~= redact_model(headers.deep_view()));
    }
    out
}

/// Returns the header list with the named header set to the given value:
/// existing entries of that name are removed and the new one appended.
pub fn set_header(headers: &Vec<(String, String)>, name: &str, value: &str) -> (r: Vec<(String, String)>)
    ensures
        r.deep_view() == set_header_model(headers.deep_view(), name@, value@),
{
    let mut out: Vec<(String, String)> = Vec::new();
    let mut i: usize = 0;
    while i < headers.len()
        invariant
            0 <= i <= headers@.len(),
            out.deep_view() == remove_header(headers.deep_view().take(i as int), name@),
        decreases headers@.len() - i,
    {
        let keep = !str_eq(headers[i].0.as_str(), name);
        proof {
            let h = headers.deep_view();
            assert(h.take(i + 1).drop_last() =~= h.take(i as int));
            assert(h.take(i + 1).last() == h[i as int]);
            assert(h[i as int].0 == headers@[i as int].0@);
        }
        if keep {
            let kept_name = headers[i].0.clone();
            let kept_value = headers[i].1.clone();
            out.push((kept_name, kept_value));
            proof {
                assert(out.deep_view() =~= remove_header(
                    headers.deep_view().take(i + 1), name@));
            }
        } else {
            proof {
                assert(out.deep_view() =~= remove_header(
                    headers.deep_view().take(i + 1), name@));
            }
        }
        i += 1;
    }
    proof {
        assert(headers.deep_view().take(headers@.len() as int) =~= headers.deep_view());
    }
    let set_name = name.to_owned();
    let set_value = value.to_owned();
    out.push((set_name, set_value));
    proof {
        assert(out.deep_view() =~= set_header_model(headers.deep_view(), name@, value@));
    }
    out
}

/// The value of the first header of the given name, if one is present.
pub fn find_header(headers: &Vec<(String, String)>, name: &str) -> (r: Option<String>)
    ensures
        match r {
            Some(v) => get_header_model(headers.deep_view(), name@) == Some(v@),
            None => get_header_model(headers.deep_view(), name@) is None,
        },
{
    let mut i: usize = 0;
    proof {
        assert(headers.deep_view().skip(0) =~= headers.deep_view());
    }
    while i < headers.len()
        invariant
            0 <= i <= headers@.len(),
            get_header_model(headers.deep_view(), name@)
                == get_header_model(headers.deep_view().skip(i as int), name@),
        decreases headers@.len() - i,
    {
        proof {
            let h = headers.deep_view();
            assert(h.skip(i as int).len() == h.len() - i);
            assert(h.skip(i as int)[0] == h[i as int]);
            assert(h.skip(i as int).skip(1) =~= h.skip(i + 1));
        }
        if str_eq(headers[i].0.as_str(), name) {
            return Some(headers[i].1.clone());
        }
        i += 1;
    }
    proof {
        assert(headers.deep_view().skip(headers@.len() as int).len() == 0);
    }
    None
}

/// No entry of a header list survives removal under its own name.
proof fn lemma_remove_header_removes(hs: HeaderModel, name: Seq<char>)
    ensures
        forall|i: int| 0 <= i < remove_header(hs, name).len()
            ==> #[trigger] remove_header(hs, name)[i].0 != name,
    decreases hs.len(),
{
    if hs.len() > 0 {
        lemma_remove_header_removes(hs.drop_last(), name);
        let rest = remove_header(hs.drop_last(), name);
        if hs.last().0 != name {
            assert(remove_header(hs, name) == rest.push(hs.last()));
            assert forall|i: int| 0 <= i < remove_header(hs, name).len() implies
                #[trigger] remove_header(hs, name)[i].0 != name by {
                if i < rest.len() {
                    assert(rest[i].0 != name);
                } else {
                    assert(rest.push(hs.last())[i] == hs.last());
                }
            }
        }
    }
}

/// Looking a name up in a list that nowhere carries it, after appending one
/// entry of that name, yields that entry's value.
proof fn lemma_get_after_append(hs: HeaderModel, name: Seq<char>, value: Seq<char>)
    requires
        forall|i: int| 0 <= i < hs.len() ==> #[trigger] hs[i].0 != name,
    ensures
        get_header_model(hs.push((name, value)), name) == Some(value),
    decreases hs.len(),
{
    let pushed = hs.push((name, value));
    if hs.len() == 0 {
        assert(pushed[0] == (name, value));
    } else {
        assert(pushed[0] == hs[0]);
        assert(pushed.skip(1) =~= hs.skip(1).push((name, value)));
        lemma_get_after_append(hs.skip(1), name, value);
    }
}

/// After setting a header, looking that name up yields exactly the value set:
/// the request id written into a response is the one that is found there.
pub proof fn lemma_set_then_get(hs: HeaderModel, name: Seq<char>, value: Seq<char>)
    ensures
        get_header_model(set_header_model(hs, name, value), name) == Some(value),
{
    lemma_remove_header_removes(hs, name);
    lemma_get_after_append(remove_header(hs, name), name, value);
}

/// A redacted header list never carries a sensitive header's original value:
/// at every sensitive position the value is the fixed marker, which differs
/// from the original whenever the original was not already the marker.
pub proof fn lemma_redaction_masks(hs: HeaderModel, i: int)
    requires
        0 <= i < hs.len(),
        is_sensitive_name(hs[i].0),
    ensures
        redact_model(hs)[i].0 == hs[i].0,
        redact_model(hs)[i].1 == redaction_marker(),
        hs[i].1 != redaction_marker() ==> redact_model(hs)[i].1 != hs[i].1,
{
}

} // verus!
