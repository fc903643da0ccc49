use vstd::prelude::*;
use vstd::string::StrSliceExecFns;

verus! {

/// Two characters are equal up to ASCII case: identical, or the same letter
/// with one side upper-case and the other lower-case.
pub open spec fn chars_eq_ci(a: char, b: char) -> bool {
    a == b
    || ('A' <= a && a <= 'Z' && b as int == a as int + 32)
    || ('A' <= b && b <= 'Z' && a as int == b as int + 32)
}

/// Character sequences equal up to ASCII case, position by position.
pub open spec fn seq_eq_ci(a: Seq<char>, b: Seq<char>) -> bool {
    a.len() == b.len() && forall|i: int| 0 <= i < a.len() ==> chars_eq_ci(a[i], b[i])
}

/// A lower-case hexadecimal digit.
pub open spec fn is_hex_digit(c: char) -> bool {
    ('0' <= c && c <= '9') || ('a' <= c && c <= 'f')
}

/// The canonical textual form of a unique id: 36 characters, hyphens at
/// positions 8, 13, 18 and 23, lower-case hexadecimal digits elsewhere.
pub open spec fn is_uuid_text(s: Seq<char>) -> bool {
    s.len() == 36 && forall|i: int| 0 <= i < s.len() ==> (
        if i == 8 || i == 13 || i == 18 || i == 23 {
            #[trigger] s[i] == '-'
        } else {
            is_hex_digit(s[i])
        }
    )
}

/// Appending to a common prefix is injective: two concatenations with the
/// same left part are equal exactly when the right parts are.
pub proof fn lemma_concat_cancel(a: Seq<char>, b: Seq<char>, c: Seq<char>)
    ensures
        (a + b == a + c) <==> b == c,
{
    if a + b == a + c {
        assert((a + b).len() == (a + c).len());
        assert forall|i: int| 0 <= i < b.len() implies b[i] == c[i] by {
            assert((a + b)[a.len() + i] == b[i]);
            assert((a + c)[a.len() + i] == c[i]);
        }
        assert(b =~= c);
    }
    if b == c {
        assert(a + b =~= a + c);
    }
}

/// A string is its prefix followed by the rest.
pub proof fn lemma_split_concat(s: Seq<char>, n: int)
    requires
        0 <= n <= s.len(),
    ensures
        s == s.subrange(0, n) + s.subrange(n, s.len() as int),
{
    assert(s =~= s.subrange(0, n) + s.subrange(n, s.len() as int));
}

/// Exact string equality, decided over the character views.
pub fn str_eq(a: &str, b: &str) -> (r: bool)
    ensures
        r == (a@ == b@),
{
    let sa: String = a.to_owned();
    let sb: String = b.to_owned();
    sa == sb
}

/// The first sequence starts with the second.
pub open spec fn has_prefix(s: Seq<char>, p: Seq<char>) -> bool {
    p.len() <= s.len() && s.subrange(0, p.len() as int) == p
}

/// Splits the prefix off a string, if the string starts with it.
pub fn strip_prefix<'a>(s: &'a str, p: &str) -> (r: Option<&'a str>)
    ensures
        match r {
            Some(t) => has_prefix(s@, p@) && s@ == p@ + t@,
            None => !has_prefix(s@, p@),
        },
{
    let pl = p.unicode_len();
    let sl = s.unicode_len();
    if pl > sl {
        return None;
    }
    let head = s.substring_char(0, pl);
    if str_eq(head, p) {
        let tail = s.substring_char(pl, sl);
        proof {
            lemma_split_concat(s@, pl as int);
        }
        Some(tail)
    } else {
        None
    }
}

fn char_eq_ci(a: char, b: char) -> (r: bool)
    ensures
        r == chars_eq_ci(a, b),
{
    let au = a as u32;
    let bu = b as u32;
    au == bu
    || (65 <= au && au <= 90 && bu == au + 32)
    || (65 <= bu && bu <= 90 && au == bu + 32)
}

/// String equality up to ASCII case.
pub fn str_eq_ci(a: &str, b: &str) -> (r: bool)
    ensures
        r == seq_eq_ci(a@, b@),
{
    let alen = a.unicode_len();
    let blen = b.unicode_len();
    if alen != blen {
        return false;
    }
    let mut i: usize = 0;
    while i < alen
        invariant
            alen == a@.len(),
            alen == b@.len(),
            0 <= i <= alen,
            forall|j: int| 0 <= j < i ==> chars_eq_ci(a@[j], b@[j]),
        decreases alen - i,
    {
        if !char_eq_ci(a.get_char(i), b.get_char(i)) {
            return false;
        }
        i += 1;
    }
    true
}

/// Decides whether a string has the canonical unique-id form.
pub fn is_uuid_string(s: &str) -> (r: bool)
    ensures
        r == is_uuid_text(s@),
{
    let n = s.unicode_len();
    if n != 36 {
        return false;
    }
    let mut i: usize = 0;
    while i < 36
        invariant
            s@.len() == 36,
            0 <= i <= 36,
            forall|j: int| 0 <= j < i ==> (
                if j == 8 || j == 13 || j == 18 || j == 23 {
                    #[trigger] s@[j] == '-'
                } else {
                    is_hex_digit(s@[j])
                }
            ),
        decreases 36 - i,
    {
        let c = s.get_char(i);
        if i == 8 || i == 13 || i == 18 || i == 23 {
            if c != '-' {
                return false;
            }
        } else {
            if !(('0' <= c && c <= '9') || ('a' <= c && c <= 'f')) {
                return false;
            }
        }
        i += 1;
    }
    true
}

} // verus!
