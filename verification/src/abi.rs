//! Byte-level primitives of the signature catalogue.
//!
//! Events are identified by the first topic of a log, calls by the first four
//! bytes of their input.  Payloads are sequences of 32-byte words: static
//! values stand in their word, dynamic values (strings, byte arrays, address
//! arrays) stand behind an offset word that points at a length-prefixed tail.
//! The decode rules here are strict: padding of small scalars and the bounds
//! of every offset and length are checked, and a violation makes the decode
//! fail.  Large unsigned integers are carried onward as decimal strings so
//! that no precision is lost across serialization boundaries.

use vstd::prelude::*;

verus! {

/// The big-endian value of 8 bytes starting at `off`.
pub open spec fn be_u64_at(s: Seq<u8>, off: int) -> int {
    s[off] * 0x0100_0000_0000_0000 + s[off + 1] * 0x0001_0000_0000_0000 + s[off + 2]
        * 0x0000_0100_0000_0000 + s[off + 3] * 0x0000_0001_0000_0000 + s[off + 4]
        * 0x0000_0000_0100_0000 + s[off + 5] * 0x0000_0000_0001_0000 + s[off + 6]
        * 0x0000_0000_0000_0100 + s[off + 7]
}

/// The big-endian value of 4 bytes starting at `off`.
pub open spec fn be_u32_at(s: Seq<u8>, off: int) -> int {
    s[off] * 0x0100_0000 + s[off + 1] * 0x0001_0000 + s[off + 2] * 0x0000_0100 + s[off + 3]
}

/// The big-endian value of a whole byte sequence.
pub open spec fn be_val(s: Seq<u8>) -> nat
    decreases s.len(),
{
    if s.len() == 0 {
        0
    } else {
        be_val(s.drop_last()) * 256 + s.last() as nat
    }
}

/// The 32-byte word starting at `off`.
pub open spec fn word_at(s: Seq<u8>, off: int) -> Seq<u8> {
    s.subrange(off, off + 32)
}

/// The address held in the last 20 bytes of the word starting at `off`.
pub open spec fn addr_at(s: Seq<u8>, off: int) -> Seq<u8> {
    s.subrange(off + 12, off + 32)
}

/// Whether a log's topic equals the 32-byte signature hash given as four
/// big-endian 8-byte limbs.
pub open spec fn topic_is(t: Seq<u8>, c0: int, c1: int, c2: int, c3: int) -> bool {
    &&& t.len() == 32
    &&& be_u64_at(t, 0) == c0
    &&& be_u64_at(t, 8) == c1
    &&& be_u64_at(t, 16) == c2
    &&& be_u64_at(t, 24) == c3
}

/// Whether a call's input starts with the given 4-byte selector.
pub open spec fn sel_is(input: Seq<u8>, c: int) -> bool {
    &&& input.len() >= 4
    &&& be_u32_at(input, 0) == c
}

/// The decimal digit for a value below ten, as its ASCII code.
pub open spec fn dec_digit(d: nat) -> u8 {
    (48 + d) as u8
}

/// The decimal representation of a number as ASCII codes: no sign, no
/// leading zeros, a single zero digit for zero.
pub open spec fn dec_bytes(n: nat) -> Seq<u8>
    decreases n,
{
    if n < 10 {
        seq![dec_digit(n)]
    } else {
        dec_bytes(n / 10).push(dec_digit(n % 10))
    }
}

/// The decimal representation of a number, as characters.
pub open spec fn dec_str(n: nat) -> Seq<char> {
    Seq::new(dec_bytes(n).len(), |i: int| dec_bytes(n)[i] as char)
}

/// Decimal representations are ASCII.
pub proof fn lemma_dec_bytes_ascii(n: nat)
    ensures
        forall|i: int| 0 <= i < dec_bytes(n).len() ==> dec_bytes(n)[i] < 128,
    decreases n,
{
    if n < 10 {
        assert(dec_bytes(n) =~= seq![dec_digit(n)]);
    } else {
        lemma_dec_bytes_ascii(n / 10);
        assert forall|i: int| 0 <= i < dec_bytes(n).len() implies dec_bytes(n)[i] < 128 by {
            if i < dec_bytes(n / 10).len() {
                assert(dec_bytes(n)[i] == dec_bytes(n / 10)[i]);
            } else {
                assert(dec_bytes(n)[i] == dec_digit((n % 10) as nat));
            }
        }
    }
}

/// A big-endian number is zero exactly when every byte is zero.
pub proof fn lemma_be_val_zero(s: Seq<u8>)
    ensures
        (be_val(s) == 0) <==> (forall|i: int| 0 <= i < s.len() ==> s[i] == 0),
    decreases s.len(),
{
    if s.len() > 0 {
        lemma_be_val_zero(s.drop_last());
        assert(s.last() == s[s.len() - 1]);
        if be_val(s) == 0 {
            assert(forall|i: int| 0 <= i < s.len() - 1 ==> s[i] == s.drop_last()[i]);
        }
    }
}

/// The lowercase hexadecimal digit for a value below sixteen, as its ASCII
/// code.
pub open spec fn hex_digit(d: nat) -> u8 {
    if d < 10 {
        (48 + d) as u8
    } else {
        (87 + d) as u8
    }
}

/// The lowercase hexadecimal encoding of a byte sequence, as ASCII codes:
/// two digits per byte, high nibble first.
pub open spec fn hex_bytes(s: Seq<u8>) -> Seq<u8>
    decreases s.len(),
{
    if s.len() == 0 {
        Seq::empty()
    } else {
        hex_bytes(s.drop_last()).push(hex_digit((s.last() / 16) as nat)).push(
            hex_digit((s.last() % 16) as nat),
        )
    }
}

/// The lowercase hexadecimal encoding of a byte sequence, as characters.
pub open spec fn hex_str(s: Seq<u8>) -> Seq<char> {
    Seq::new(hex_bytes(s).len(), |i: int| hex_bytes(s)[i] as char)
}

/// Hexadecimal encodings are ASCII and twice as long as their input.
pub proof fn lemma_hex_bytes_ascii(s: Seq<u8>)
    ensures
        hex_bytes(s).len() == 2 * s.len(),
        forall|i: int| 0 <= i < hex_bytes(s).len() ==> hex_bytes(s)[i] < 128,
    decreases s.len(),
{
    if s.len() > 0 {
        lemma_hex_bytes_ascii(s.drop_last());
    }
}

/// The decoded boolean return value of a call: true exactly when the return
/// data is one word holding one.  Malformed or missing return data decodes
/// to the default, which is indistinguishable from a returned false.
pub open spec fn bool_output(d: Seq<u8>) -> bool {
    &&& d.len() == 32
    &&& (forall|i: int| 0 <= i < 31 ==> d[i] == 0)
    &&& d[31] == 1
}

/// Whether the word at `off` is a well-padded small scalar: all bytes but the
/// last are zero.
pub open spec fn u8_word_ok(s: Seq<u8>, off: int) -> bool {
    forall|i: int| off <= i < off + 31 ==> s[i] == 0
}

/// The value of a well-padded small scalar word.
pub open spec fn u8_word_val(s: Seq<u8>, off: int) -> u64 {
    s[off + 31] as u64
}

/// Whether the word at `off` is a well-padded offset or length: all bytes but
/// the last four are zero.
pub open spec fn u32_word_ok(s: Seq<u8>, off: int) -> bool {
    forall|i: int| off <= i < off + 28 ==> s[i] == 0
}

/// The value of a well-padded offset or length word.
pub open spec fn u32_word_val(s: Seq<u8>, off: int) -> int {
    be_u32_at(s, off + 28)
}

/// Whether head word `k` of the argument area starting at `base` is a valid
/// reference to a length-prefixed dynamic tail that lies within the payload.
pub open spec fn dyn_ok(s: Seq<u8>, base: int, k: int) -> bool {
    let h = base + 32 * k;
    &&& h + 32 <= s.len()
    &&& u32_word_ok(s, h)
    &&& {
        let off = base + u32_word_val(s, h);
        &&& off + 32 <= s.len()
        &&& u32_word_ok(s, off)
        &&& off + 32 + u32_word_val(s, off) <= s.len()
    }
}

/// The bytes of the dynamic tail that head word `k` points at.
pub open spec fn dyn_bytes(s: Seq<u8>, base: int, k: int) -> Seq<u8> {
    let off = base + u32_word_val(s, base + 32 * k);
    s.subrange(off + 32, off + 32 + u32_word_val(s, off))
}

/// Whether head word `k` references a well-formed dynamic array of addresses.
pub open spec fn addr_array_ok(s: Seq<u8>, base: int, k: int) -> bool {
    let h = base + 32 * k;
    &&& h + 32 <= s.len()
    &&& u32_word_ok(s, h)
    &&& {
        let off = base + u32_word_val(s, h);
        &&& off + 32 <= s.len()
        &&& u32_word_ok(s, off)
        &&& off + 32 + 32 * u32_word_val(s, off) <= s.len()
    }
}

/// The element count of the dynamic address array at head word `k`.
pub open spec fn addr_array_len(s: Seq<u8>, base: int, k: int) -> int {
    let off = base + u32_word_val(s, base + 32 * k);
    u32_word_val(s, off)
}

/// Element `i` of the dynamic address array at head word `k`.
pub open spec fn addr_array_elem(s: Seq<u8>, base: int, k: int, i: int) -> Seq<u8> {
    let off = base + u32_word_val(s, base + 32 * k);
    addr_at(s, off + 32 + 32 * i)
}

/// Reads 8 bytes big-endian.
pub fn read_be_u64(v: &Vec<u8>, off: usize) -> (r: u64)
    requires
        off + 8 <= v@.len(),
    ensures
        r == be_u64_at(v@, off as int),
{
    proof {
        vstd::std_specs::vec::axiom_spec_len(v);
    }
    (v[off] as u64) * 0x0100_0000_0000_0000 + (v[off + 1] as u64) * 0x0001_0000_0000_0000 + (v[off
        + 2] as u64) * 0x0000_0100_0000_0000 + (v[off + 3] as u64) * 0x0000_0001_0000_0000 + (v[off
        + 4] as u64) * 0x0000_0000_0100_0000 + (v[off + 5] as u64) * 0x0000_0000_0001_0000 + (v[off
        + 6] as u64) * 0x0000_0000_0000_0100 + (v[off + 7] as u64)
}

/// Reads 4 bytes big-endian.
pub fn read_be_u32(v: &Vec<u8>, off: usize) -> (r: u32)
    requires
        off + 4 <= v@.len(),
    ensures
        r == be_u32_at(v@, off as int),
{
    proof {
        vstd::std_specs::vec::axiom_spec_len(v);
    }
    (v[off] as u32) * 0x0100_0000 + (v[off + 1] as u32) * 0x0001_0000 + (v[off + 2] as u32)
        * 0x0000_0100 + (v[off + 3] as u32)
}

/// Copies the byte range `[start, end)`.
pub fn sub_vec(v: &Vec<u8>, start: usize, end: usize) -> (r: Vec<u8>)
    requires
        start <= end <= v@.len(),
    ensures
        r@ == v@.subrange(start as int, end as int),
{
    proof {
        vstd::std_specs::vec::axiom_spec_len(v);
    }
    let mut r: Vec<u8> = Vec::new();
    let mut i: usize = start;
    while i < end
        invariant
            start <= i <= end <= v@.len(),
            r@ == v@.subrange(start as int, i as int),
        decreases end - i,
    {
        r.push(v[i]);
        proof {
            assert(v@.subrange(start as int, i + 1 as int) =~= v@.subrange(start as int, i as int)
                + seq![v@[i as int]]);
        }
        i += 1;
    }
    r
}

/// Whether every byte in `[start, end)` is zero.
pub fn all_zero(v: &Vec<u8>, start: usize, end: usize) -> (r: bool)
    requires
        start <= end <= v@.len(),
    ensures
        r == (forall|i: int| start <= i < end ==> v@[i] == 0),
{
    proof {
        vstd::std_specs::vec::axiom_spec_len(v);
    }
    let mut i: usize = start;
    while i < end
        invariant
            start <= i <= end <= v@.len(),
            forall|k: int| start <= k < i ==> v@[k] == 0,
        decreases end - i,
    {
        if v[i] != 0 {
            return false;
        }
        i += 1;
    }
    true
}

/// Whether a topic equals the signature hash given as four big-endian limbs.
pub fn check_topic(t: &Vec<u8>, c0: u64, c1: u64, c2: u64, c3: u64) -> (r: bool)
    ensures
        r == topic_is(t@, c0 as int, c1 as int, c2 as int, c3 as int),
{
    proof {
        vstd::std_specs::vec::axiom_spec_len(t);
    }
    if t.len() != 32 {
        return false;
    }
    read_be_u64(t, 0) == c0 && read_be_u64(t, 8) == c1 && read_be_u64(t, 16) == c2 && read_be_u64(
        t,
        24,
    ) == c3
}

/// Whether a call input starts with the given selector.
pub fn check_selector(input: &Vec<u8>, c: u32) -> (r: bool)
    ensures
        r == sel_is(input@, c as int),
{
    proof {
        vstd::std_specs::vec::axiom_spec_len(input);
    }
    if input.len() < 4 {
        return false;
    }
    read_be_u32(input, 0) == c
}

/// Copies the address out of the word at `off`.
pub fn addr_vec_at(v: &Vec<u8>, off: usize) -> (r: Vec<u8>)
    requires
        off + 32 <= v@.len(),
    ensures
        r@ == addr_at(v@, off as int),
{
    proof {
        vstd::std_specs::vec::axiom_spec_len(v);
    }
    sub_vec(v, off + 12, off + 32)
}

/// Copies the whole word at `off`.
pub fn word_vec_at(v: &Vec<u8>, off: usize) -> (r: Vec<u8>)
    requires
        off + 32 <= v@.len(),
    ensures
        r@ == word_at(v@, off as int),
{
    proof {
        vstd::std_specs::vec::axiom_spec_len(v);
    }
    sub_vec(v, off, off + 32)
}

/// Decodes the boolean return value of a call, defaulting to false on
/// malformed or missing return data.
pub fn decode_bool_output(d: &Vec<u8>) -> (r: bool)
    ensures
        r == bool_output(d@),
{
    proof {
        vstd::std_specs::vec::axiom_spec_len(d);
    }
    if d.len() != 32 {
        return false;
    }
    if !all_zero(d, 0, 31) {
        return false;
    }
    d[31] == 1
}

/// Decodes a well-padded small scalar word.
pub fn decode_u8_word(v: &Vec<u8>, off: usize) -> (r: Option<u64>)
    requires
        off + 32 <= v@.len(),
    ensures
        r is Some <==> u8_word_ok(v@, off as int),
        r is Some ==> r->Some_0 == u8_word_val(v@, off as int),
{
    proof {
        vstd::std_specs::vec::axiom_spec_len(v);
    }
    if all_zero(v, off, off + 31) {
        Some(v[off + 31] as u64)
    } else {
        None
    }
}

/// Decodes a well-padded offset or length word.
pub fn decode_u32_word(v: &Vec<u8>, off: usize) -> (r: Option<u64>)
    requires
        off + 32 <= v@.len(),
    ensures
        r is Some <==> u32_word_ok(v@, off as int),
        r is Some ==> r->Some_0 == u32_word_val(v@, off as int),
{
    proof {
        vstd::std_specs::vec::axiom_spec_len(v);
    }
    if all_zero(v, off, off + 28) {
        Some(read_be_u32(v, off + 28) as u64)
    } else {
        None
    }
}

/// Decodes the dynamic byte tail behind head word `k`.
pub fn decode_dyn_bytes(v: &Vec<u8>, base: usize, k: usize) -> (r: Option<Vec<u8>>)
    requires
        base + 32 * k + 32 <= v@.len(),
    ensures
        r is Some <==> dyn_ok(v@, base as int, k as int),
        r is Some ==> r->Some_0@ == dyn_bytes(v@, base as int, k as int),
{
    proof {
        vstd::std_specs::vec::axiom_spec_len(v);
    }
    let h = base + 32 * k;
    let off_w = match decode_u32_word(v, h) {
        Some(x) => x,
        None => {
            return None;
        },
    };
    let off: u128 = base as u128 + off_w as u128;
    if off + 32 > v.len() as u128 {
        return None;
    }
    let off_us = off as usize;
    let len_w = match decode_u32_word(v, off_us) {
        Some(x) => x,
        None => {
            return None;
        },
    };
    let end: u128 = off + 32 + len_w as u128;
    if end > v.len() as u128 {
        return None;
    }
    Some(sub_vec(v, off_us + 32, end as usize))
}

/// Decodes the dynamic address array behind head word `k`.
pub fn decode_addr_array(v: &Vec<u8>, base: usize, k: usize) -> (r: Option<Vec<Vec<u8>>>)
    requires
        base + 32 * k + 32 <= v@.len(),
    ensures
        r is Some <==> addr_array_ok(v@, base as int, k as int),
        r is Some ==> r->Some_0@.len() == addr_array_len(v@, base as int, k as int),
        r is Some ==> forall|i: int|
            0 <= i < r->Some_0@.len() ==> r->Some_0@[i]@ == addr_array_elem(
                v@,
                base as int,
                k as int,
                i,
            ),
{
    proof {
        vstd::std_specs::vec::axiom_spec_len(v);
    }
    let h = base + 32 * k;
    let off_w = match decode_u32_word(v, h) {
        Some(x) => x,
        None => {
            return None;
        },
    };
    let off: u128 = base as u128 + off_w as u128;
    if off + 32 > v.len() as u128 {
        return None;
    }
    let off_us = off as usize;
    let n = match decode_u32_word(v, off_us) {
        Some(x) => x,
        None => {
            return None;
        },
    };
    let end: u128 = off + 32 + 32 * n as u128;
    if end > v.len() as u128 {
        return None;
    }
    let n_us = n as usize;
    let mut out: Vec<Vec<u8>> = Vec::new();
    let mut i: usize = 0;
    while i < n_us
        invariant
            v@.len() <= usize::MAX,
            i <= n_us,
            n_us == addr_array_len(v@, base as int, k as int),
            off_us == base + u32_word_val(v@, base as int + 32 * k as int),
            off_us + 32 + 32 * n_us <= v@.len(),
            out@.len() == i,
            forall|j: int|
                0 <= j < i ==> out@[j]@ == addr_array_elem(v@, base as int, k as int, j),
        decreases n_us - i,
    {
        let a = addr_vec_at(v, off_us + 32 + 32 * i);
        out.push(a);
        i += 1;
    }
    Some(out)
}

/// Relies on `String::from_utf8`: bytes below 0x80 are single-byte code
/// points, so the characters of the result are exactly the input bytes.
#[verifier::external_body]
pub fn ascii_string(v: &Vec<u8>) -> (s: String)
    requires
        forall|i: int| 0 <= i < v@.len() ==> v@[i] < 128,
    ensures
        s@.len() == v@.len(),
        forall|i: int| 0 <= i < v@.len() ==> s@[i] == v@[i] as char,
{
    String::from_utf8(v.clone()).unwrap_or_default()
}

/// What `String::from_utf8_lossy` makes of a byte sequence.
pub uninterp spec fn utf8_lossy_of(s: Seq<u8>) -> Seq<char>;

/// Relies on `String::from_utf8_lossy`: the result is a function of the bytes
/// alone, and bytes below 0x80 decode to themselves.
#[verifier::external_body]
pub fn utf8_lossy_string(v: &Vec<u8>) -> (s: String)
    ensures
        s@ == utf8_lossy_of(v@),
        (forall|i: int| 0 <= i < v@.len() ==> v@[i] < 128) ==> s@.len() == v@.len() && (forall|
            i: int,
        | 0 <= i < v@.len() ==> s@[i] == v@[i] as char),
{
    String::from_utf8_lossy(v.as_slice()).into_owned()
}

/// Long division of a big-endian number by ten: the quotient, byte for
/// byte, and the remainder.
pub fn div_rem_ten(v: &Vec<u8>) -> (qr: (Vec<u8>, u8))
    ensures
        qr.0@.len() == v@.len(),
        be_val(v@) == 10 * be_val(qr.0@) + qr.1,
        qr.1 < 10,
{
    let mut q: Vec<u8> = Vec::new();
    let mut rem: u16 = 0;
    let mut i: usize = 0;
    while i < v.len()
        invariant
            i <= v@.len(),
            q@.len() == i,
            rem < 10,
            be_val(v@.take(i as int)) == 10 * be_val(q@) + rem,
        decreases v@.len() - i,
    {
        let ghost q0 = q@;
        let cur: u16 = rem * 256 + (v[i] as u16);
        let qb: u16 = cur / 10;
        let newrem: u16 = cur % 10;
        q.push(qb as u8);
        proof {
            assert(v@.take(i + 1 as int).drop_last() =~= v@.take(i as int));
            assert(v@.take(i + 1 as int).last() == v@[i as int]);
            assert(q@.drop_last() =~= q0);
            assert(be_val(q@) == be_val(q0) * 256 + qb);
            assert(be_val(v@.take(i + 1 as int)) == be_val(v@.take(i as int)) * 256 + v@[i as int]);
            assert(cur == 10 * qb + newrem);
        }
        rem = newrem;
        i += 1;
    }
    proof {
        assert(v@.take(v@.len() as int) =~= v@);
    }
    (q, rem as u8)
}

/// The decimal digits of a big-endian number, most significant first, as
/// ASCII codes.
pub fn decimal_bytes(v: &Vec<u8>) -> (ds: Vec<u8>)
    ensures
        ds@ == dec_bytes(be_val(v@)),
{
    proof {
        vstd::std_specs::vec::axiom_spec_len(v);
        lemma_be_val_zero(v@);
    }
    if all_zero(v, 0, v.len()) {
        let mut zero: Vec<u8> = Vec::new();
        zero.push(48);
        proof {
            assert(zero@ =~= dec_bytes(0));
        }
        return zero;
    }
    let ghost val0 = be_val(v@);
    let mut cur = sub_vec(v, 0, v.len());
    proof {
        assert(cur@ =~= v@);
    }
    let mut rev: Vec<u8> = Vec::new();
    let mut cur_len = cur.len();
    while !all_zero(&cur, 0, cur_len)
        invariant
            cur_len == cur@.len(),
            be_val(cur@) > 0 ==> dec_bytes(val0) =~= dec_bytes(be_val(cur@)) + rev@.reverse(),
            be_val(cur@) == 0 ==> dec_bytes(val0) =~= rev@.reverse(),
            be_val(cur@) == 0 ==> rev@.len() > 0,
        decreases be_val(cur@),
    {
        proof {
            lemma_be_val_zero(cur@);
        }
        let ghost n = be_val(cur@);
        let ghost rev0 = rev@;
        let (q, d) = div_rem_ten(&cur);
        rev.push(48 + d);
        proof {
            assert(n == 10 * be_val(q@) + d);
            assert(n % 10 == d && n / 10 == be_val(q@));
            assert(rev@ =~= rev0.push(dec_digit((n % 10) as nat)));
            assert((rev0.push(dec_digit((n % 10) as nat))).reverse() =~= seq![
                dec_digit((n % 10) as nat),
            ] + rev0.reverse());
            if be_val(q@) > 0 {
                assert(dec_bytes(n) =~= dec_bytes(n / 10).push(dec_digit((n % 10) as nat)));
                assert(dec_bytes(n / 10) + (seq![dec_digit((n % 10) as nat)] + rev0.reverse())
                    =~= dec_bytes(n) + rev0.reverse());
            } else {
                assert(n < 10);
                assert(dec_bytes(n) =~= seq![dec_digit(n as nat)]);
            }
            lemma_be_val_zero(q@);
        }
        cur = q;
        cur_len = cur.len();
    }
    let mut ds: Vec<u8> = Vec::new();
    let mut k: usize = rev.len();
    while k > 0
        invariant
            k <= rev@.len(),
            ds@.len() == rev@.len() - k,
            forall|i: int| 0 <= i < ds@.len() ==> ds@[i] == rev@[rev@.len() - 1 - i],
        decreases k,
    {
        k -= 1;
        ds.push(rev[k]);
    }
    proof {
        lemma_be_val_zero(cur@);
        assert(ds@ =~= rev@.reverse());
        assert(ds@ =~= dec_bytes(val0));
    }
    ds
}

/// The decimal string of the 32-byte word at `off`.
pub fn dec_word_string(v: &Vec<u8>, off: usize) -> (s: String)
    requires
        off + 32 <= v@.len(),
    ensures
        s@ == dec_str(be_val(word_at(v@, off as int))),
{
    proof {
        vstd::std_specs::vec::axiom_spec_len(v);
    }
    let w = word_vec_at(v, off);
    let ds = decimal_bytes(&w);
    proof {
        lemma_dec_bytes_ascii(be_val(w@));
    }
    let s = ascii_string(&ds);
    proof {
        assert(s@ =~= dec_str(be_val(word_at(v@, off as int))));
    }
    s
}

/// The hexadecimal encoding of a byte vector, as ASCII codes.
pub fn hex_of(v: &Vec<u8>) -> (r: Vec<u8>)
    ensures
        r@ == hex_bytes(v@),
{
    proof {
        vstd::std_specs::vec::axiom_spec_len(v);
    }
    let mut r: Vec<u8> = Vec::new();
    let mut i: usize = 0;
    while i < v.len()
        invariant
            i <= v@.len(),
            r@ == hex_bytes(v@.take(i as int)),
        decreases v@.len() - i,
    {
        let b = v[i];
        let hi: u8 = b / 16;
        let lo: u8 = b % 16;
        r.push(if hi < 10 {
            48 + hi
        } else {
            87 + hi
        });
        r.push(if lo < 10 {
            48 + lo
        } else {
            87 + lo
        });
        proof {
            assert(v@.take(i + 1 as int).drop_last() =~= v@.take(i as int));
            assert(v@.take(i + 1 as int).last() == v@[i as int]);
        }
        i += 1;
    }
    proof {
        assert(v@.take(v@.len() as int) =~= v@);
    }
    r
}

/// The hexadecimal string of a transaction hash, from its precomputed ASCII
/// encoding.
pub fn hash_hex_string(hx: &Vec<u8>, hash: Ghost<Seq<u8>>) -> (s: String)
    requires
        hx@ == hex_bytes(hash@),
    ensures
        s@ == hex_str(hash@),
{
    proof {
        lemma_hex_bytes_ascii(hash@);
    }
    let s = ascii_string(hx);
    proof {
        assert(s@ =~= hex_str(hash@));
    }
    s
}

/// Copies a 32-byte value whole.
pub fn copy_bytes32(v: &Vec<u8>) -> (r: Vec<u8>)
    requires
        v@.len() == 32,
    ensures
        r@ == v@,
{
    let r = sub_vec(v, 0, 32);
    proof {
        assert(r@ =~= v@);
    }
    r
}

} // verus!

