//! Primitive field encodings of the wire format.
//!
//! Every message field is laid down as one of a small set of primitive
//! shapes: a single byte (`u8`, `bool`), a little-endian 32- or 64-bit
//! integer (`u32`, `i32`, `usize`), or a length-prefixed run of bytes
//! (byte vectors and UTF-8 strings).  Each shape has a spec-level encoder,
//! a spec-level decoder working on an offset into the buffer, and exec
//! implementations proved to match them.  The decoders accept exactly the
//! byte strings the encoders produce, which makes every encoding canonical.

use vstd::prelude::*;

verus! {

use vstd::bytes::{
    spec_u32_to_le_bytes, spec_u32_from_le_bytes, lemma_auto_spec_u32_to_from_le_bytes,
    u32_from_le_bytes, u32_to_le_bytes,
    spec_u64_to_le_bytes, spec_u64_from_le_bytes, lemma_auto_spec_u64_to_from_le_bytes,
    u64_from_le_bytes, u64_to_le_bytes,
};
use vstd::slice::{slice_subrange, slice_to_vec};
use vstd::utf8::{
    valid_utf8, encode_utf8, decode_utf8, encode_utf8_valid_utf8, encode_utf8_decode_utf8,
};

// ---------------------------------------------------------------------------
// Spec-level encoders
// ---------------------------------------------------------------------------

pub open spec fn enc_u8(x: u8) -> Seq<u8> {
    seq![x]
}

pub open spec fn enc_bool(x: bool) -> Seq<u8> {
    seq![if x { 1u8 } else { 0u8 }]
}

pub open spec fn enc_u32(x: u32) -> Seq<u8> {
    spec_u32_to_le_bytes(x)
}

pub open spec fn enc_u64(x: u64) -> Seq<u8> {
    spec_u64_to_le_bytes(x)
}

/// Two's-complement 32-bit image of an `i32`.
pub open spec fn i32_bits(x: i32) -> u32 {
    if x >= 0 {
        x as u32
    } else {
        (x + 0x1_0000_0000int) as u32
    }
}

/// Inverse of [`i32_bits`].
pub open spec fn i32_of_bits(v: u32) -> i32 {
    if v <= 0x7fff_ffffu32 {
        v as i32
    } else {
        (v - 0x1_0000_0000int) as i32
    }
}

pub open spec fn enc_i32(x: i32) -> Seq<u8> {
    enc_u32(i32_bits(x))
}

pub open spec fn enc_usize(x: usize) -> Seq<u8> {
    enc_u64(x as u64)
}

/// A run of bytes is written as its 64-bit length followed by the bytes.
pub open spec fn enc_bytes(s: Seq<u8>) -> Seq<u8> {
    enc_u64(s.len() as u64) + s
}

/// The length prefix is faithful only when the run fits in 64 bits; every
/// run held in memory does.
pub open spec fn bytes_fit(s: Seq<u8>) -> bool {
    s.len() <= u64::MAX
}

/// A string is written as the byte run of its UTF-8 encoding.
pub open spec fn enc_str(s: Seq<char>) -> Seq<u8> {
    enc_bytes(encode_utf8(s))
}

pub open spec fn str_fits(s: Seq<char>) -> bool {
    bytes_fit(encode_utf8(s))
}

// ---------------------------------------------------------------------------
// Spec-level decoders
//
// A decoder takes the buffer and an offset and yields the decoded value
// together with the offset just past the bytes it consumed, or `None` if
// the bytes at the offset are not an encoding of the expected shape.
// ---------------------------------------------------------------------------

pub open spec fn dec_u8(b: Seq<u8>, i: int) -> Option<(u8, int)> {
    if 0 <= i && i + 1 <= b.len() {
        Some((b[i], i + 1))
    } else {
        None
    }
}

pub open spec fn dec_bool(b: Seq<u8>, i: int) -> Option<(bool, int)> {
    match dec_u8(b, i) {
        Some((v, j)) => {
            if v == 0 {
                Some((false, j))
            } else if v == 1 {
                Some((true, j))
            } else {
                None
            }
        },
        None => None,
    }
}

pub open spec fn dec_u32(b: Seq<u8>, i: int) -> Option<(u32, int)> {
    if 0 <= i && i + 4 <= b.len() {
        Some((spec_u32_from_le_bytes(b.subrange(i, i + 4)), i + 4))
    } else {
        None
    }
}

pub open spec fn dec_u64(b: Seq<u8>, i: int) -> Option<(u64, int)> {
    if 0 <= i && i + 8 <= b.len() {
        Some((spec_u64_from_le_bytes(b.subrange(i, i + 8)), i + 8))
    } else {
        None
    }
}

pub open spec fn dec_i32(b: Seq<u8>, i: int) -> Option<(i32, int)> {
    match dec_u32(b, i) {
        Some((v, j)) => Some((i32_of_bits(v), j)),
        None => None,
    }
}

pub open spec fn dec_usize(b: Seq<u8>, i: int) -> Option<(usize, int)> {
    match dec_u64(b, i) {
        Some((v, j)) => {
            if v <= usize::MAX as u64 {
                Some((v as usize, j))
            } else {
                None
            }
        },
        None => None,
    }
}

pub open spec fn dec_bytes(b: Seq<u8>, i: int) -> Option<(Seq<u8>, int)> {
    match dec_u64(b, i) {
        Some((n, j)) => {
            if j + n <= b.len() {
                Some((b.subrange(j, j + n), j + n))
            } else {
                None
            }
        },
        None => None,
    }
}

pub open spec fn dec_str(b: Seq<u8>, i: int) -> Option<(Seq<char>, int)> {
    match dec_bytes(b, i) {
        Some((bs, j)) => {
            if valid_utf8(bs) {
                Some((decode_utf8(bs), j))
            } else {
                None
            }
        },
        None => None,
    }
}

/// When the region of `b` starting at `i` is known to hold `w`, any chunk
/// `[lo, hi)` of `w` can be read back out of `b` at the shifted offsets.
pub proof fn lemma_chunk(b: Seq<u8>, i: int, w: Seq<u8>, lo: int, hi: int)
    requires
        0 <= i,
        i + w.len() <= b.len(),
        b.subrange(i, i + w.len()) == w,
        0 <= lo <= hi <= w.len(),
    ensures
        b.subrange(i + lo, i + hi) == w.subrange(lo, hi),
{
    assert(b.subrange(i + lo, i + hi) =~= w.subrange(lo, hi)) by {
        assert forall|k: int| 0 <= k < hi - lo implies b.subrange(i + lo, i + hi)[k]
            == w.subrange(lo, hi)[k] by {
            assert(w[lo + k] == b.subrange(i, i + w.len())[lo + k]);
        }
    }
}

// ---------------------------------------------------------------------------
// Lengths of the encodings
// ---------------------------------------------------------------------------

pub broadcast proof fn lemma_enc_u32_len(x: u32)
    ensures
        (#[trigger] enc_u32(x)).len() == 4,
{
    lemma_auto_spec_u32_to_from_le_bytes();
    assert(spec_u32_to_le_bytes(x).len() == 4);
}

pub broadcast proof fn lemma_enc_u64_len(x: u64)
    ensures
        (#[trigger] enc_u64(x)).len() == 8,
{
    lemma_auto_spec_u64_to_from_le_bytes();
}

pub broadcast proof fn lemma_enc_i32_len(x: i32)
    ensures
        (#[trigger] enc_i32(x)).len() == 4,
{
    lemma_enc_u32_len(i32_bits(x));
}

pub broadcast proof fn lemma_enc_usize_len(x: usize)
    ensures
        (#[trigger] enc_usize(x)).len() == 8,
{
    lemma_enc_u64_len(x as u64);
}

pub broadcast proof fn lemma_enc_bytes_len(s: Seq<u8>)
    ensures
        (#[trigger] enc_bytes(s)).len() == 8 + s.len(),
{
    lemma_enc_u64_len(s.len() as u64);
}

pub broadcast proof fn lemma_enc_str_len(s: Seq<char>)
    ensures
        (#[trigger] enc_str(s)).len() == 8 + encode_utf8(s).len(),
{
    lemma_enc_bytes_len(encode_utf8(s));
}

pub broadcast group group_enc_lens {
    lemma_enc_u32_len,
    lemma_enc_u64_len,
    lemma_enc_i32_len,
    lemma_enc_usize_len,
    lemma_enc_bytes_len,
    lemma_enc_str_len,
}

// ---------------------------------------------------------------------------
// Round-trip lemmas for the fixed-width primitives
// ---------------------------------------------------------------------------

/// Decoding at offset `i` of a buffer that carries `enc_u8(x)` there
/// yields `x` back and stops right after it.
pub proof fn lemma_dec_enc_u8(b: Seq<u8>, i: int, x: u8)
    requires
        0 <= i,
        i + 1 <= b.len(),
        b.subrange(i, i + 1) == enc_u8(x),
    ensures
        dec_u8(b, i) == Some((x, i + 1)),
{
    assert(b[i] == b.subrange(i, i + 1)[0]);
}

pub proof fn lemma_dec_enc_bool(b: Seq<u8>, i: int, x: bool)
    requires
        0 <= i,
        i + 1 <= b.len(),
        b.subrange(i, i + 1) == enc_bool(x),
    ensures
        dec_bool(b, i) == Some((x, i + 1)),
{
    lemma_dec_enc_u8(b, i, if x { 1u8 } else { 0u8 });
}

pub proof fn lemma_dec_enc_u32(b: Seq<u8>, i: int, x: u32)
    requires
        0 <= i,
        i + 4 <= b.len(),
        b.subrange(i, i + 4) == enc_u32(x),
    ensures
        dec_u32(b, i) == Some((x, i + 4)),
{
    lemma_auto_spec_u32_to_from_le_bytes();
    assert(spec_u32_to_le_bytes(x).len() == 4);
}

pub proof fn lemma_dec_enc_u64(b: Seq<u8>, i: int, x: u64)
    requires
        0 <= i,
        i + 8 <= b.len(),
        b.subrange(i, i + 8) == enc_u64(x),
    ensures
        dec_u64(b, i) == Some((x, i + 8)),
{
    lemma_auto_spec_u64_to_from_le_bytes();
}

pub proof fn lemma_dec_enc_i32(b: Seq<u8>, i: int, x: i32)
    requires
        0 <= i,
        i + 4 <= b.len(),
        b.subrange(i, i + 4) == enc_i32(x),
    ensures
        dec_i32(b, i) == Some((x, i + 4)),
{
    lemma_dec_enc_u32(b, i, i32_bits(x));
}

pub proof fn lemma_dec_enc_usize(b: Seq<u8>, i: int, x: usize)
    requires
        0 <= i,
        i + 8 <= b.len(),
        b.subrange(i, i + 8) == enc_usize(x),
    ensures
        dec_usize(b, i) == Some((x, i + 8)),
{
    lemma_dec_enc_u64(b, i, x as u64);
}

pub proof fn lemma_dec_enc_bytes(b: Seq<u8>, i: int, s: Seq<u8>)
    requires
        0 <= i,
        bytes_fit(s),
        i + 8 + s.len() <= b.len(),
        b.subrange(i, i + 8 + s.len()) == enc_bytes(s),
    ensures
        dec_bytes(b, i) == Some((s, i + 8 + s.len())),
{
    let n = s.len() as u64;
    lemma_auto_spec_u64_to_from_le_bytes();
    assert(spec_u64_to_le_bytes(n).len() == 8);
    let whole = b.subrange(i, i + 8 + s.len());
    assert(b.subrange(i, i + 8) =~= whole.subrange(0, 8));
    assert(whole.subrange(0, 8) =~= enc_u64(n));
    lemma_dec_enc_u64(b, i, n);
    assert(b.subrange(i + 8, i + 8 + s.len() as int) =~= whole.subrange(8, 8 + s.len() as int));
    assert(whole.subrange(8, 8 + s.len() as int) =~= s);
}

pub proof fn lemma_dec_enc_str(b: Seq<u8>, i: int, s: Seq<char>)
    requires
        0 <= i,
        str_fits(s),
        i + 8 + encode_utf8(s).len() <= b.len(),
        b.subrange(i, i + 8 + encode_utf8(s).len() as int) == enc_str(s),
    ensures
        dec_str(b, i) == Some((s, i + 8 + encode_utf8(s).len())),
{
    lemma_dec_enc_bytes(b, i, encode_utf8(s));
    encode_utf8_valid_utf8(s);
    encode_utf8_decode_utf8(s);
}

// ---------------------------------------------------------------------------
// Exec writers: append one field to an output buffer
// ---------------------------------------------------------------------------

pub fn put_u8(out: &mut Vec<u8>, x: u8)
    ensures
        final(out)@ == old(out)@ + enc_u8(x),
{
    out.push(x);
    assert(out@ =~= old(out)@ + enc_u8(x));
}

pub fn put_bool(out: &mut Vec<u8>, x: bool)
    ensures
        final(out)@ == old(out)@ + enc_bool(x),
{
    put_u8(out, if x { 1 } else { 0 });
}

pub fn put_u32(out: &mut Vec<u8>, x: u32)
    ensures
        final(out)@ == old(out)@ + enc_u32(x),
{
    let mut bytes = u32_to_le_bytes(x);
    out.append(&mut bytes);
}

pub fn put_u64(out: &mut Vec<u8>, x: u64)
    ensures
        final(out)@ == old(out)@ + enc_u64(x),
{
    let mut bytes = u64_to_le_bytes(x);
    out.append(&mut bytes);
}

pub fn put_i32(out: &mut Vec<u8>, x: i32)
    ensures
        final(out)@ == old(out)@ + enc_i32(x),
{
    let bits: u32 = if x >= 0 {
        x as u32
    } else {
        ((x as i64) + 0x1_0000_0000i64) as u32
    };
    assert(bits == i32_bits(x));
    put_u32(out, bits);
}

pub fn put_usize(out: &mut Vec<u8>, x: usize)
    ensures
        final(out)@ == old(out)@ + enc_usize(x),
{
    put_u64(out, x as u64);
}

// ---------------------------------------------------------------------------
// Exec readers: mirror the spec decoders exactly
// ---------------------------------------------------------------------------

pub fn take_u8(b: &[u8], i: usize) -> (r: Option<(u8, usize)>)
    ensures
        match r {
            Some((v, j)) => dec_u8(b@, i as int) == Some((v, j as int)) && i < j <= b@.len(),
            None => dec_u8(b@, i as int) is None,
        },
{
    if i < b.len() {
        Some((b[i], i + 1))
    } else {
        None
    }
}

pub fn take_bool(b: &[u8], i: usize) -> (r: Option<(bool, usize)>)
    ensures
        match r {
            Some((v, j)) => dec_bool(b@, i as int) == Some((v, j as int)) && i < j <= b@.len(),
            None => dec_bool(b@, i as int) is None,
        },
{
    match take_u8(b, i) {
        Some((v, j)) => {
            if v == 0 {
                Some((false, j))
            } else if v == 1 {
                Some((true, j))
            } else {
                None
            }
        },
        None => None,
    }
}

pub fn take_u32(b: &[u8], i: usize) -> (r: Option<(u32, usize)>)
    ensures
        match r {
            Some((v, j)) => dec_u32(b@, i as int) == Some((v, j as int)) && i < j <= b@.len(),
            None => dec_u32(b@, i as int) is None,
        },
{
    if b.len() >= 4 && i <= b.len() - 4 {
        let field = slice_subrange(b, i, i + 4);
        let v = u32_from_le_bytes(field);
        Some((v, i + 4))
    } else {
        None
    }
}

pub fn take_u64(b: &[u8], i: usize) -> (r: Option<(u64, usize)>)
    ensures
        match r {
            Some((v, j)) => dec_u64(b@, i as int) == Some((v, j as int)) && i < j <= b@.len(),
            None => dec_u64(b@, i as int) is None,
        },
{
    if b.len() >= 8 && i <= b.len() - 8 {
        let field = slice_subrange(b, i, i + 8);
        let v = u64_from_le_bytes(field);
        Some((v, i + 8))
    } else {
        None
    }
}

pub fn take_i32(b: &[u8], i: usize) -> (r: Option<(i32, usize)>)
    ensures
        match r {
            Some((v, j)) => dec_i32(b@, i as int) == Some((v, j as int)) && i < j <= b@.len(),
            None => dec_i32(b@, i as int) is None,
        },
{
    match take_u32(b, i) {
        Some((v, j)) => {
            let x: i32 = if v <= 0x7fff_ffff {
                v as i32
            } else {
                ((v as i64) - 0x1_0000_0000i64) as i32
            };
            assert(x == i32_of_bits(v));
            Some((x, j))
        },
        None => None,
    }
}

pub fn take_usize(b: &[u8], i: usize) -> (r: Option<(usize, usize)>)
    ensures
        match r {
            Some((v, j)) => dec_usize(b@, i as int) == Some((v, j as int)) && i < j <= b@.len(),
            None => dec_usize(b@, i as int) is None,
        },
{
    match take_u64(b, i) {
        Some((v, j)) => {
            if v <= usize::MAX as u64 {
                Some((v as usize, j))
            } else {
                None
            }
        },
        None => None,
    }
}

pub fn put_bytes(out: &mut Vec<u8>, s: &[u8])
    ensures
        final(out)@ == old(out)@ + enc_bytes(s@),
        bytes_fit(s@),
{
    put_u64(out, s.len() as u64);
    out.extend_from_slice(s);
    assert(out@ =~= old(out)@ + enc_bytes(s@));
}

pub fn put_str(out: &mut Vec<u8>, s: &str)
    ensures
        final(out)@ == old(out)@ + enc_str(s@),
        str_fits(s@),
{
    let bytes = s.as_bytes();
    let n = bytes.len();
    assert(encode_utf8(s@).len() == n);
    put_bytes(out, bytes);
}

pub fn take_bytes(b: &[u8], i: usize) -> (r: Option<(Vec<u8>, usize)>)
    ensures
        match r {
            Some((v, j)) => dec_bytes(b@, i as int) == Some((v@, j as int)) && i < j <= b@.len(),
            None => dec_bytes(b@, i as int) is None,
        },
{
    match take_u64(b, i) {
        Some((n, j)) => {
            if n <= (b.len() - j) as u64 {
                let n_small = n as usize;
                let field = slice_subrange(b, j, j + n_small);
                let v = slice_to_vec(field);
                Some((v, j + n_small))
            } else {
                None
            }
        },
        None => None,
    }
}

/// Relies on `String::from_utf8`: it succeeds exactly on valid UTF-8 input
/// and yields the characters that the bytes encode.
#[verifier::external_body]
pub fn string_from_utf8(v: Vec<u8>) -> (r: Option<String>)
    ensures
        r is Some <==> valid_utf8(v@),
        r matches Some(s) ==> s@ == decode_utf8(v@),
{
    String::from_utf8(v).ok()
}

pub fn take_str(b: &[u8], i: usize) -> (r: Option<(String, usize)>)
    ensures
        match r {
            Some((s, j)) => dec_str(b@, i as int) == Some((s@, j as int)) && i < j <= b@.len(),
            None => dec_str(b@, i as int) is None,
        },
{
    match take_bytes(b, i) {
        Some((v, j)) => {
            match string_from_utf8(v) {
                Some(s) => Some((s, j)),
                None => None,
            }
        },
        None => None,
    }
}

/// Character-for-character equality of two string slices, decided by
/// comparing their UTF-8 bytes.
pub fn str_eq(a: &str, b: &str) -> (r: bool)
    ensures
        r == (a@ == b@),
{
    let ab = a.as_bytes();
    let bb = b.as_bytes();
    proof {
        encode_utf8_decode_utf8(a@);
        encode_utf8_decode_utf8(b@);
    }
    if ab.len() != bb.len() {
        return false;
    }
    let n = ab.len();
    let mut k: usize = 0;
    while k < n
        invariant
            n == ab@.len() == bb@.len(),
            k <= n,
            ab@ == encode_utf8(a@),
            bb@ == encode_utf8(b@),
            decode_utf8(ab@) == a@,
            decode_utf8(bb@) == b@,
            forall|m: int| 0 <= m < k ==> ab@[m] == bb@[m],
        decreases n - k,
    {
        if ab[k] != bb[k] {
            return false;
        }
        k += 1;
    }
    assert(ab@ =~= bb@);
    true
}

} // verus!
