//! Byte-string utilities for parsing tool output and sysfs attributes.
//!
//! The daemon's inputs (sysfs attribute files, external tool output) arrive
//! as raw bytes.  These helpers — ASCII trim, ASCII lower-casing, substring
//! search and splitting — work on bytes, each against an exact spec-level
//! definition, so the parsers built from them have complete contracts.

use vstd::prelude::*;

verus! {

use vstd::slice::{slice_subrange, slice_to_vec};

/// ASCII whitespace: space, tab, line feed, carriage return.
pub open spec fn is_space(b: u8) -> bool {
    b == 32 || b == 9 || b == 10 || b == 13
}

pub open spec fn trim_start(s: Seq<u8>) -> Seq<u8>
    decreases s.len(),
{
    if s.len() > 0 && is_space(s[0]) {
        trim_start(s.drop_first())
    } else {
        s
    }
}

pub open spec fn trim_end(s: Seq<u8>) -> Seq<u8>
    decreases s.len(),
{
    if s.len() > 0 && is_space(s.last()) {
        trim_end(s.drop_last())
    } else {
        s
    }
}

/// The input with ASCII whitespace removed from both ends.
pub open spec fn spec_trim(s: Seq<u8>) -> Seq<u8> {
    trim_end(trim_start(s))
}

proof fn lemma_trim_start_idx(s: Seq<u8>, a: int)
    requires
        0 <= a <= s.len(),
        forall|m: int| 0 <= m < a ==> is_space(s[m]),
        a == s.len() || !is_space(s[a]),
    ensures
        trim_start(s) == s.subrange(a, s.len() as int),
    decreases a,
{
    if a == 0 {
        assert(trim_start(s) =~= s.subrange(0, s.len() as int));
    } else {
        assert(is_space(s[0]));
        let d = s.drop_first();
        assert(forall|m: int| 0 <= m < a - 1 ==> is_space(#[trigger] d[m]));
        lemma_trim_start_idx(d, a - 1);
        assert(d.subrange(a - 1, d.len() as int) =~= s.subrange(a, s.len() as int));
    }
}

proof fn lemma_trim_end_idx(s: Seq<u8>, e: int)
    requires
        0 <= e <= s.len(),
        forall|m: int| e <= m < s.len() ==> is_space(s[m]),
        e == 0 || !is_space(s[e - 1]),
    ensures
        trim_end(s) == s.subrange(0, e),
    decreases s.len(),
{
    if e == s.len() {
        assert(trim_end(s) =~= s.subrange(0, e));
    } else {
        assert(is_space(s.last()));
        let d = s.drop_last();
        lemma_trim_end_idx(d, e);
        assert(d.subrange(0, e) =~= s.subrange(0, e));
    }
}

/// Copy of the input with ASCII whitespace removed from both ends.
pub fn trim_bytes(b: &[u8]) -> (r: Vec<u8>)
    ensures
        r@ == spec_trim(b@),
{
    let n = b.len();
    let mut a: usize = 0;
    while a < n && (b[a] == 32 || b[a] == 9 || b[a] == 10 || b[a] == 13)
        invariant
            a <= n,
            n == b@.len(),
            forall|m: int| 0 <= m < a ==> is_space(b@[m]),
        decreases n - a,
    {
        a += 1;
    }
    let mut e: usize = n;
    while e > a && (b[e - 1] == 32 || b[e - 1] == 9 || b[e - 1] == 10 || b[e - 1] == 13)
        invariant
            a <= e <= n,
            n == b@.len(),
            forall|m: int| 0 <= m < a ==> is_space(b@[m]),
            forall|m: int| e <= m < n ==> is_space(b@[m]),
        decreases e,
    {
        e -= 1;
    }
    proof {
        lemma_trim_start_idx(b@, a as int);
        let t = b@.subrange(a as int, n as int);
        assert(forall|m: int| e - a <= m < t.len() ==> is_space(#[trigger] t[m]));
        lemma_trim_end_idx(t, e - a);
        assert(t.subrange(0, e - a) =~= b@.subrange(a as int, e as int));
    }
    let piece = slice_subrange(b, a, e);
    slice_to_vec(piece)
}

/// ASCII lower-casing of one byte: `A`..`Z` map to `a`..`z`.
pub open spec fn lower_byte(b: u8) -> u8 {
    if 65 <= b <= 90 {
        (b + 32) as u8
    } else {
        b
    }
}

pub open spec fn spec_lower(s: Seq<u8>) -> Seq<u8> {
    s.map_values(|b: u8| lower_byte(b))
}

/// Copy of the input with ASCII letters lower-cased.
pub fn lower_bytes(b: &[u8]) -> (r: Vec<u8>)
    ensures
        r@ == spec_lower(b@),
{
    let n = b.len();
    let mut out: Vec<u8> = Vec::new();
    let mut k: usize = 0;
    while k < n
        invariant
            k <= n,
            n == b@.len(),
            out@ == spec_lower(b@.subrange(0, k as int)),
        decreases n - k,
    {
        let c = b[k];
        let low: u8 = if c >= 65 && c <= 90 {
            c + 32
        } else {
            c
        };
        out.push(low);
        proof {
            assert(b@.subrange(0, k as int).push(b@[k as int]) =~= b@.subrange(0, k as int + 1));
            assert(out@ =~= spec_lower(b@.subrange(0, k as int + 1)));
        }
        k += 1;
    }
    proof {
        assert(b@.subrange(0, n as int) =~= b@);
    }
    out
}

/// The pattern occurs in `s` at offset `i`.
pub open spec fn match_at(s: Seq<u8>, pat: Seq<u8>, i: int) -> bool {
    &&& 0 <= i
    &&& i + pat.len() <= s.len()
    &&& s.subrange(i, i + pat.len()) == pat
}

/// Offset of the first occurrence of `pat` in `s`, if any.
pub open spec fn spec_find(s: Seq<u8>, pat: Seq<u8>) -> Option<int>
    decreases s.len(),
{
    if s.len() < pat.len() {
        None
    } else if s.subrange(0, pat.len() as int) == pat {
        Some(0)
    } else if s.len() == 0 {
        None
    } else {
        match spec_find(s.drop_first(), pat) {
            Some(i) => Some(i + 1),
            None => None,
        }
    }
}

/// Shifting the search window by one position past the first byte.
proof fn lemma_match_shift(s: Seq<u8>, pat: Seq<u8>, j: int)
    requires
        s.len() > 0,
        0 <= j,
    ensures
        match_at(s.drop_first(), pat, j) == match_at(s, pat, j + 1),
{
    let d = s.drop_first();
    if j + pat.len() <= d.len() {
        assert(d.subrange(j, j + pat.len()) =~= s.subrange(j + 1, j + 1 + pat.len()));
    }
}

/// `spec_find` returns the least matching offset, and `None` exactly when
/// no offset matches.
pub proof fn lemma_find_characterizes(s: Seq<u8>, pat: Seq<u8>)
    ensures
        match spec_find(s, pat) {
            Some(i) => match_at(s, pat, i) && (forall|j: int| 0 <= j < i ==> !match_at(s, pat, j)),
            None => forall|j: int| !match_at(s, pat, j),
        },
    decreases s.len(),
{
    if s.len() < pat.len() {
        assert(forall|j: int| !match_at(s, pat, j));
    } else if s.subrange(0, pat.len() as int) == pat {
    } else if s.len() == 0 {
        assert forall|j: int| !match_at(s, pat, j) by {
            if match_at(s, pat, j) {
                assert(j == 0);
                assert(s.subrange(0, pat.len() as int) == pat);
            }
        }
    } else {
        let d = s.drop_first();
        lemma_find_characterizes(d, pat);
        assert forall|j: int| 0 <= j implies match_at(d, pat, j) == match_at(s, pat, j + 1) by {
            lemma_match_shift(s, pat, j);
        }
        match spec_find(s, pat) {
            Some(i) => {
                assert(match_at(d, pat, i - 1));
                assert(match_at(s, pat, i));
                assert forall|j: int| 0 <= j < i implies !match_at(s, pat, j) by {
                    if j > 0 {
                        assert(!match_at(d, pat, j - 1));
                    }
                }
            },
            None => {
                assert forall|j: int| !match_at(s, pat, j) by {
                    if j > 0 {
                        assert(!match_at(d, pat, j - 1));
                    }
                }
            },
        }
    }
}

/// The pieces of `s` between occurrences of the separator, in order.
/// There is always at least one piece; a separator at either end or two in
/// a row contribute empty pieces, as with the usual split convention.
pub open spec fn spec_split(s: Seq<u8>, sep: u8) -> Seq<Seq<u8>>
    decreases s.len(),
{
    if s.len() == 0 {
        seq![Seq::empty()]
    } else if s[0] == sep {
        seq![Seq::<u8>::empty()] + spec_split(s.drop_first(), sep)
    } else {
        let rest = spec_split(s.drop_first(), sep);
        seq![seq![s[0]] + rest[0]] + rest.drop_first()
    }
}

pub proof fn lemma_split_nonempty(s: Seq<u8>, sep: u8)
    ensures
        spec_split(s, sep).len() >= 1,
    decreases s.len(),
{
    if s.len() == 0 {
    } else {
        lemma_split_nonempty(s.drop_first(), sep);
    }
}

/// The pieces already cut, plus the first piece of the rest glued onto the
/// piece currently being collected.
spec fn split_state(done: Seq<Seq<u8>>, cur: Seq<u8>, rest: Seq<u8>, sep: u8) -> Seq<Seq<u8>> {
    let r = spec_split(rest, sep);
    done + (seq![cur + r[0]] + r.drop_first())
}

pub fn split_bytes(b: &[u8], sep: u8) -> (r: Vec<Vec<u8>>)
    ensures
        r@.map_values(|p: Vec<u8>| p@) == spec_split(b@, sep),
        r@.len() >= 1,
{
    let n = b.len();
    let mut done: Vec<Vec<u8>> = Vec::new();
    let mut cur: Vec<u8> = Vec::new();
    let mut k: usize = 0;
    proof {
        lemma_split_nonempty(b@, sep);
        assert(done@.map_values(|p: Vec<u8>| p@) =~= Seq::<Seq<u8>>::empty());
        assert(b@.subrange(0, n as int) =~= b@);
        let r = spec_split(b@, sep);
        assert(Seq::<u8>::empty() + r[0] =~= r[0]);
        assert(seq![r[0]] + r.drop_first() =~= r);
        assert(Seq::<Seq<u8>>::empty() + (seq![Seq::<u8>::empty() + r[0]] + r.drop_first()) =~= r);
        assert(split_state(Seq::<Seq<u8>>::empty(), Seq::<u8>::empty(), b@, sep) == r);
    }
    while k < n
        invariant
            k <= n,
            n == b@.len(),
            split_state(
                done@.map_values(|p: Vec<u8>| p@),
                cur@,
                b@.subrange(k as int, n as int),
                sep,
            ) == spec_split(b@, sep),
        decreases n - k,
    {
        let ghost rest = b@.subrange(k as int, n as int);
        let ghost rest_next = b@.subrange(k as int + 1, n as int);
        proof {
            assert(rest.len() > 0);
            assert(rest[0] == b@[k as int]);
            assert(rest.drop_first() =~= rest_next);
            lemma_split_nonempty(rest_next, sep);
        }
        let c = b[k];
        if c == sep {
            let ghost old_done = done@.map_values(|p: Vec<u8>| p@);
            let ghost old_cur = cur@;
            let finished = cur;
            cur = Vec::new();
            done.push(finished);
            proof {
                let r = spec_split(rest_next, sep);
                // spec_split(rest) = [empty] + r, so the piece being built is
                // exactly old_cur, and the cut pieces gain it.
                assert(spec_split(rest, sep) == seq![Seq::<u8>::empty()] + r);
                assert(old_cur + (seq![Seq::<u8>::empty()] + r)[0] =~= old_cur);
                assert(done@.map_values(|p: Vec<u8>| p@) =~= old_done.push(old_cur));
                assert(split_state(done@.map_values(|p: Vec<u8>| p@), cur@, rest_next, sep)
                    =~= split_state(old_done, old_cur, rest, sep));
            }
        } else {
            let ghost old_cur = cur@;
            cur.push(c);
            proof {
                let r = spec_split(rest_next, sep);
                assert(spec_split(rest, sep) == seq![seq![rest[0]] + r[0]] + r.drop_first());
                assert(old_cur + (seq![rest[0]] + r[0]) =~= cur@ + r[0]);
                assert(split_state(done@.map_values(|p: Vec<u8>| p@), cur@, rest_next, sep)
                    =~= split_state(done@.map_values(|p: Vec<u8>| p@), old_cur, rest, sep));
            }
        }
        k += 1;
    }
    let ghost final_done = done@.map_values(|p: Vec<u8>| p@);
    let ghost final_cur = cur@;
    done.push(cur);
    proof {
        assert(b@.subrange(n as int, n as int) =~= Seq::<u8>::empty());
        let r = spec_split(Seq::<u8>::empty(), sep);
        assert(r == seq![Seq::<u8>::empty()]);
        assert(final_cur + r[0] =~= final_cur);
        assert(done@.map_values(|p: Vec<u8>| p@) =~= final_done.push(final_cur));
        assert(done@.map_values(|p: Vec<u8>| p@) =~= spec_split(b@, sep));
    }
    done
}

/// Does `pat` occur in `b` at offset `i`?
fn bytes_match_at(b: &[u8], pat: &[u8], i: usize) -> (r: bool)
    requires
        i + pat@.len() <= b@.len(),
    ensures
        r == match_at(b@, pat@, i as int),
{
    let n = b.len();
    let pn = pat.len();
    let mut k: usize = 0;
    while k < pn
        invariant
            k <= pn,
            i + pn <= n,
            n == b@.len(),
            pn == pat@.len(),
            forall|m: int| 0 <= m < k ==> b@[i + m] == pat@[m],
        decreases pn - k,
    {
        if b[i + k] != pat[k] {
            proof {
                if match_at(b@, pat@, i as int) {
                    assert(b@.subrange(i as int, i + pn) == pat@);
                    assert(b@.subrange(i as int, i + pn)[k as int] == b@[i + k]);
                }
            }
            return false;
        }
        k += 1;
    }
    proof {
        assert(b@.subrange(i as int, i + pn) =~= pat@);
    }
    true
}

/// Offset of the first occurrence of `pat` in `b`, or `None` when `pat`
/// does not occur.
pub fn find_bytes(b: &[u8], pat: &[u8]) -> (r: Option<usize>)
    ensures
        match r {
            Some(i) => spec_find(b@, pat@) == Some(i as int) && i + pat@.len() <= b@.len(),
            None => spec_find(b@, pat@) is None,
        },
{
    let n = b.len();
    let pn = pat.len();
    proof {
        lemma_find_characterizes(b@, pat@);
    }
    if pn > n {
        return None;
    }
    if pn == 0 {
        proof {
            assert(b@.subrange(0, 0) =~= pat@);
        }
        return Some(0);
    }
    let mut i: usize = 0;
    while i <= n - pn
        invariant
            i <= n - pn + 1,
            1 <= pn <= n,
            n == b@.len(),
            pn == pat@.len(),
            forall|j: int| 0 <= j < i ==> !match_at(b@, pat@, j),
        decreases n - pn - i + 1,
    {
        if bytes_match_at(b, pat, i) {
            proof {
                lemma_find_characterizes(b@, pat@);
                match spec_find(b@, pat@) {
                    Some(x) => {
                        if x < i {
                            assert(match_at(b@, pat@, x));
                        } else if x > i {
                            assert(!match_at(b@, pat@, i as int));
                        }
                    },
                    None => {
                        assert(!match_at(b@, pat@, i as int));
                    },
                }
            }
            return Some(i);
        }
        i += 1;
    }
    proof {
        match spec_find(b@, pat@) {
            Some(x) => {
                assert(match_at(b@, pat@, x));
                assert(x + pat@.len() <= b@.len());
                assert(!match_at(b@, pat@, x));
            },
            None => {},
        }
    }
    None
}

} // verus!
