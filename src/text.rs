//! Joining strings, and string lengths as the chat platform counts them.
use vstd::prelude::*;
use vstd::string::{StrSliceExecFns, StringExecFns};

verus! {

/// The character sequences of a list of strings.
pub open spec fn views(v: Seq<String>) -> Seq<Seq<char>> {
    v.map_values(|s: String| s@)
}

/// `parts` joined with `sep` between consecutive parts.
pub open spec fn join(parts: Seq<Seq<char>>, sep: Seq<char>) -> Seq<char>
    decreases parts.len(),
{
    if parts.len() == 0 {
        Seq::empty()
    } else if parts.len() == 1 {
        parts[0]
    } else {
        join(parts.drop_last(), sep) + sep + parts.last()
    }
}

/// Joins `parts` with `sep` between consecutive parts.
pub fn join_strings(parts: &Vec<String>, sep: &str) -> (r: String)
    ensures
        r@ == join(views(parts@), sep@),
{
    let mut out = String::new();
    let n = parts.len();
    let mut i: usize = 0;
    while i < n
        invariant
            n == parts@.len(),
            i <= n,
            out@ == join(views(parts@).take(i as int), sep@),
        decreases n - i,
    {
        let ghost before = views(parts@).take(i as int);
        if i > 0 {
            out.append(sep);
        }
        out.append(parts[i].as_str());
        proof {
            let after = views(parts@).take(i + 1);
            assert(after.drop_last() =~= before);
            assert(after.last() == parts@[i as int]@);
            if i == 0 {
                assert(out@ =~= join(after, sep@));
            }
        }
        i = i + 1;
    }
    assert(views(parts@).take(n as int) =~= views(parts@));
    out
}

/// Number of UTF-16 code units that encode `c`.
pub open spec fn utf16_units(c: char) -> nat {
    if (c as u32) >= 0x10000 { 2 } else { 1 }
}

/// Length of `s` in UTF-16 code units, the unit in which the chat platform
/// bounds embed texts.
pub open spec fn utf16_len(s: Seq<char>) -> nat
    decreases s.len(),
{
    if s.len() == 0 {
        0
    } else {
        utf16_len(s.drop_last()) + utf16_units(s.last())
    }
}

/// A longer prefix is at least as long in UTF-16.
pub proof fn lemma_utf16_len_prefix(s: Seq<char>, i: int)
    requires
        0 <= i <= s.len(),
    ensures
        utf16_len(s.take(i)) <= utf16_len(s),
    decreases s.len() - i,
{
    if i < s.len() {
        lemma_utf16_len_prefix(s, i + 1);
        assert(s.take(i + 1).drop_last() =~= s.take(i));
    } else {
        assert(s.take(i) =~= s);
    }
}

/// Whether `s` is longer than `limit` UTF-16 code units.
pub fn utf16_longer_than(s: &str, limit: u32) -> (r: bool)
    ensures
        r == (utf16_len(s@) > limit),
{
    let n = s.unicode_len();
    let mut total: u64 = 0;
    let mut i: usize = 0;
    while i < n
        invariant
            n == s@.len(),
            i <= n,
            total == utf16_len(s@.take(i as int)),
            total <= limit,
        decreases n - i,
    {
        let c = s.get_char(i);
        proof {
            assert(s@.take(i + 1).drop_last() =~= s@.take(i as int));
            assert(s@.take(i + 1).last() == c);
        }
        if (c as u32) >= 0x10000 {
            total = total + 2;
        } else {
            total = total + 1;
        }
        i = i + 1;
        if total > limit as u64 {
            proof {
                lemma_utf16_len_prefix(s@, i as int);
            }
            return true;
        }
    }
    assert(s@.take(n as int) =~= s@);
    false
}

/// Character-wise equality of two strings.
pub fn str_eq(a: &str, b: &str) -> (r: bool)
    ensures
        r == (a@ == b@),
{
    let n = a.unicode_len();
    if n != b.unicode_len() {
        return false;
    }
    let mut i: usize = 0;
    while i < n
        invariant
            n == a@.len(),
            n == b@.len(),
            i <= n,
            forall|k: int| 0 <= k < i ==> a@[k] == b@[k],
        decreases n - i,
    {
        if a.get_char(i) != b.get_char(i) {
            return false;
        }
        i = i + 1;
    }
    assert(a@ =~= b@);
    true
}

} // verus!
