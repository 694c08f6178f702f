//! Small verified helpers for working with string slices character by
//! character. The wire protocol and the placement rules compare and split
//! strings by value, so these helpers carry exact contracts over `Seq<char>`.

use vstd::prelude::*;

verus! {

/// Character-by-character string equality, specified over the views.
pub fn str_eq(a: &str, b: &str) -> (r: bool)
    ensures
        r == (a@ == b@),
{
    let alen = a.unicode_len();
    let blen = b.unicode_len();
    if alen != blen {
        assert(a@ != b@) by {
            assert(a@.len() != b@.len());
        }
        return false;
    }
    let mut i: usize = 0;
    while i < alen
        invariant
            i <= alen,
            alen == a@.len(),
            alen == b@.len(),
            forall|j: int| 0 <= j < i ==> a@[j] == b@[j],
        decreases alen - i,
    {
        if a.get_char(i) != b.get_char(i) {
            return false;
        }
        i = i + 1;
    }
    assert(a@ =~= b@);
    true
}

/// Whether a character counts as white space in the sense of
/// `char::is_whitespace` (the Unicode `White_Space` property).
pub uninterp spec fn is_unicode_space(c: char) -> bool;

/// Relies on std's `char::is_whitespace`: whether the character has the
/// Unicode `White_Space` property. The result depends on the character
/// alone.
pub assume_specification[ char::is_whitespace ](c: char) -> (r: bool)
    ensures
        r == is_unicode_space(c),
;

/// `s` with every trailing repetition of `suf` removed.
pub open spec fn strip_suffix_all(s: Seq<char>, suf: Seq<char>) -> Seq<char>
    decreases s.len(),
{
    if suf.len() > 0 && s.len() >= suf.len() && s.subrange(
        s.len() - suf.len(),
        s.len() as int,
    ) == suf {
        strip_suffix_all(s.subrange(0, s.len() - suf.len()), suf)
    } else {
        s
    }
}

/// `s` without its leading white space.
pub open spec fn trim_front(s: Seq<char>) -> Seq<char>
    decreases s.len(),
{
    if s.len() > 0 && is_unicode_space(s[0]) {
        trim_front(s.drop_first())
    } else {
        s
    }
}

/// `s` without its trailing white space.
pub open spec fn trim_back(s: Seq<char>) -> Seq<char>
    decreases s.len(),
{
    if s.len() > 0 && is_unicode_space(s.last()) {
        trim_back(s.drop_last())
    } else {
        s
    }
}

/// `s` without leading and trailing white space.
pub open spec fn trim_spec(s: Seq<char>) -> Seq<char> {
    trim_back(trim_front(s))
}

/// Removes every trailing repetition of the two-character suffix `suf`.
pub fn strip_suffix2_all<'a>(s: &'a str, suf: &str) -> (r: &'a str)
    requires
        suf@.len() == 2,
    ensures
        r@ == strip_suffix_all(s@, suf@),
    decreases s@.len(),
{
    let n = s.unicode_len();
    if n >= 2 && s.get_char(n - 2) == suf.get_char(0) && s.get_char(n - 1) == suf.get_char(1) {
        assert(s@.subrange(s@.len() - 2, s@.len() as int) =~= suf@);
        strip_suffix2_all(s.substring_char(0, n - 2), suf)
    } else {
        proof {
            if n >= 2 {
                assert(s@.subrange(s@.len() - 2, s@.len() as int) != suf@) by {
                    if s@.subrange(s@.len() - 2, s@.len() as int) == suf@ {
                        assert(s@[s@.len() - 2] == suf@[0]);
                        assert(s@[s@.len() - 1] == suf@[1]);
                    }
                }
            }
        }
        s
    }
}

/// Removes leading and trailing white space, as `str::trim` does.
pub fn trim(s: &str) -> (r: &str)
    ensures
        r@ == trim_spec(s@),
{
    let n = s.unicode_len();
    proof {
        assert(s@.subrange(0, n as int) =~= s@);
    }
    let mut start: usize = 0;
    while start < n && s.get_char(start).is_whitespace()
        invariant
            start <= n,
            n == s@.len(),
            trim_front(s@) == trim_front(s@.subrange(start as int, n as int)),
        decreases n - start,
    {
        proof {
            let t = s@.subrange(start as int, n as int);
            assert(t[0] == s@[start as int]);
            assert(t.drop_first() =~= s@.subrange(start + 1, n as int));
        }
        start = start + 1;
    }
    proof {
        let t = s@.subrange(start as int, n as int);
        if t.len() > 0 {
            assert(t[0] == s@[start as int]);
        }
        assert(trim_front(s@) == t);
    }
    let ghost t = s@.subrange(start as int, n as int);
    let mut end: usize = n;
    while end > start && s.get_char(end - 1).is_whitespace()
        invariant
            start <= end <= n,
            n == s@.len(),
            t == s@.subrange(start as int, n as int),
            trim_front(s@) == t,
            trim_back(t) == trim_back(s@.subrange(start as int, end as int)),
        decreases end,
    {
        proof {
            let u = s@.subrange(start as int, end as int);
            assert(u.last() == s@[end - 1]);
            assert(u.drop_last() =~= s@.subrange(start as int, end - 1));
        }
        end = end - 1;
    }
    proof {
        let u = s@.subrange(start as int, end as int);
        if u.len() > 0 {
            assert(u.last() == s@[end - 1]);
        }
        assert(trim_back(u) == u);
    }
    s.substring_char(start, end)
}

} // verus!
