//! Identifiers and their canonical text form.
//!
//! An identifier is a 128-bit value whose high 48 bits hold a millisecond
//! timestamp and whose low 80 bits are random. Its canonical text form is
//! 26 bytes of Crockford base32, most significant 5-bit group first. The
//! generation, formatting and parsing calls go to the `ulid` crate; the
//! encoding itself is pinned down exactly by the spec functions below, so
//! that round-trip and ordering facts can be proved about it.

use vstd::prelude::*;

verus! {

/// Number of bytes in the canonical text form of an identifier.
pub const CANONICAL_LEN: usize = 26;

/// The Crockford base32 digit for a 5-bit value: `0`-`9` then the uppercase
/// alphabet without `I`, `L`, `O` and `U`.
pub open spec fn crockford_digit(v: int) -> u8 {
    if v < 10 {
        (48 + v) as u8 // '0'..'9'
    } else if v < 18 {
        (55 + v) as u8 // 'A'..'H'
    } else if v < 20 {
        (56 + v) as u8 // 'J', 'K'
    } else if v < 22 {
        (57 + v) as u8 // 'M', 'N'
    } else if v < 27 {
        (58 + v) as u8 // 'P'..'T'
    } else {
        (59 + v) as u8 // 'V'..'Z'
    }
}

/// The value of a byte read as a Crockford base32 digit, or -1 where the
/// byte is no digit. Both cases are accepted; `I`, `L`, `O` and `U` are not.
pub open spec fn digit_value(b: u8) -> int {
    let v = b as int;
    if 48 <= v && v <= 57 {
        v - 48 // '0'..'9'
    } else if 65 <= v && v <= 72 {
        v - 55 // 'A'..'H'
    } else if v == 74 || v == 75 {
        v - 56 // 'J', 'K'
    } else if v == 77 || v == 78 {
        v - 57 // 'M', 'N'
    } else if 80 <= v && v <= 84 {
        v - 58 // 'P'..'T'
    } else if 86 <= v && v <= 90 {
        v - 59 // 'V'..'Z'
    } else if 97 <= v && v <= 104 {
        v - 87 // 'a'..'h'
    } else if v == 106 || v == 107 {
        v - 88 // 'j', 'k'
    } else if v == 109 || v == 110 {
        v - 89 // 'm', 'n'
    } else if 112 <= v && v <= 116 {
        v - 90 // 'p'..'t'
    } else if 118 <= v && v <= 122 {
        v - 91 // 'v'..'z'
    } else {
        -1
    }
}

pub open spec fn valid_digit(b: u8) -> bool {
    digit_value(b) >= 0
}

/// The `i`-th 5-bit group of a 128-bit value, most significant first.
/// Group 0 holds only the top 3 bits.
pub open spec fn chunk(bits: u128, i: int) -> int {
    ((bits >> ((125 - 5 * i) as u128)) & 31) as int
}

/// The canonical 26-byte text of a 128-bit identifier.
pub open spec fn encoded(bits: u128) -> Seq<u8> {
    Seq::new(26, |i: int| crockford_digit(chunk(bits, i)))
}

/// The value of the first `n` digits of a text, folded big-endian.
pub open spec fn decoded_prefix(s: Seq<u8>, n: int) -> int
    decreases n,
{
    if n <= 0 {
        0
    } else {
        decoded_prefix(s, n - 1) * 32 + digit_value(s[n - 1])
    }
}

/// What parsing a byte sequence as canonical identifier text yields:
/// exactly 26 bytes, each a Crockford base32 digit, folded big-endian into
/// 128 bits; the two bits of the first digit above the 128-bit width are
/// discarded, as the `ulid` decoder discards them.
pub open spec fn decoded(s: Seq<u8>) -> Option<u128> {
    if s.len() == 26 && (forall|i: int| 0 <= i < 26 ==> valid_digit(s[i])) {
        Some(
            ((decoded_prefix(s, 26) % 0x100000000000000000000000000000000int) as u128),
        )
    } else {
        None
    }
}

/// Lexicographic order on byte sequences.
pub open spec fn lex_le(a: Seq<u8>, b: Seq<u8>) -> bool
    decreases a.len(),
{
    if a.len() == 0 {
        true
    } else if b.len() == 0 {
        false
    } else if a[0] < b[0] {
        true
    } else if a[0] == b[0] {
        lex_le(a.skip(1), b.skip(1))
    } else {
        false
    }
}

/// A 128-bit, time-ordered, collision-resistant identifier.
#[derive(Clone, Copy, PartialEq, Eq, Structural, Debug)]
pub struct Identifier {
    pub bits: u128,
}

impl Identifier {
    /// The millisecond timestamp held in the high 48 bits.
    pub open spec fn timestamp_ms(&self) -> u128 {
        self.bits >> 80
    }

    /// Draws a fresh identifier from the current time and process-local
    /// randomness. Nothing is promised of the value: every caller must be
    /// correct whatever comes back.
    pub fn generate() -> (r: Identifier) {
        Identifier { bits: generate_bits() }
    }

    /// The canonical 26-byte text of this identifier.
    pub fn canonical(&self) -> (r: Vec<u8>)
        ensures
            r@ == encoded(self.bits),
    {
        format_bits(self.bits)
    }

    /// Parses canonical identifier text; `None` on malformed input.
    pub fn parse(s: &[u8]) -> (r: Option<Identifier>)
        ensures
            (match r {
                Some(id) => decoded(s@) == Some(id.bits),
                None => decoded(s@) is None,
            }),
    {
        match parse_bits(s) {
            Some(bits) => Some(Identifier { bits }),
            None => None,
        }
    }
}

proof fn lemma_digit_inverse(v: int)
    requires
        0 <= v < 32,
    ensures
        digit_value(crockford_digit(v)) == v,
{
}

proof fn lemma_digit_monotone(v: int, w: int)
    requires
        0 <= v < 32,
        0 <= w < 32,
        v < w,
    ensures
        crockford_digit(v) < crockford_digit(w),
{
}

proof fn lemma_chunk_in_range(b: u128, s: u128)
    by (bit_vector)
    ensures
        (b >> s) & 31 < 32,
{
}

proof fn lemma_shift_unfold(b: u128, s: u128, t: u128)
    by (bit_vector)
    requires
        t == s + 5,
        t <= 125,
    ensures
        b >> t == (b >> s) >> 5,
{
}

proof fn lemma_low_five(x: u128)
    by (bit_vector)
    ensures
        x == (x >> 5) * 32 + (x & 31),
{
}

proof fn lemma_top_three(b: u128)
    by (bit_vector)
    ensures
        (b >> 125) & 31 == b >> 125,
        b >> 125 < 8,
{
}

proof fn lemma_shift_by_zero(b: u128)
    by (bit_vector)
    ensures
        b >> 0 == b,
{
}

proof fn lemma_first_chunk_le(a: u128, b: u128)
    by (bit_vector)
    requires
        a <= b,
    ensures
        a >> 125 <= b >> 125,
{
}

proof fn lemma_chunk_le(a: u128, b: u128, s: u128, t: u128)
    by (bit_vector)
    requires
        t == s + 5,
        t <= 125,
        a >> t == b >> t,
        a <= b,
    ensures
        (a >> s) & 31 <= (b >> s) & 31,
{
}

proof fn lemma_chunk_eq_extends(a: u128, b: u128, s: u128, t: u128)
    by (bit_vector)
    requires
        t == s + 5,
        t <= 125,
        a >> t == b >> t,
        (a >> s) & 31 == (b >> s) & 31,
    ensures
        a >> s == b >> s,
{
}

proof fn lemma_top_extend(a: u128, b: u128)
    by (bit_vector)
    requires
        (a >> 125) & 31 == (b >> 125) & 31,
    ensures
        a >> 125 == b >> 125,
{
}

proof fn lemma_timestamp_orders_bits(a: u128, b: u128)
    by (bit_vector)
    requires
        a >> 80 < b >> 80,
    ensures
        a < b,
{
}

proof fn lemma_decoded_prefix(bits: u128, n: int)
    requires
        1 <= n <= 26,
    ensures
        decoded_prefix(encoded(bits), n) == (bits >> ((130 - 5 * n) as u128)) as int,
    decreases n,
{
    let s = encoded(bits);
    let sh: u128 = ((130 - 5 * n) as u128);
    lemma_chunk_in_range(bits, sh);
    lemma_digit_inverse(chunk(bits, n - 1));
    assert(s[n - 1] == crockford_digit(chunk(bits, n - 1)));
    assert(decoded_prefix(s, n) == decoded_prefix(s, n - 1) * 32 + digit_value(s[n - 1]));
    assert(digit_value(s[n - 1]) == chunk(bits, n - 1));
    assert(chunk(bits, n - 1) == ((bits >> sh) & 31) as int);
    if n == 1 {
        assert(decoded_prefix(s, 0) == 0);
        lemma_top_three(bits);
        assert((bits >> 125) & 31 == bits >> 125);
    } else {
        lemma_decoded_prefix(bits, n - 1);
        let t: u128 = ((sh + 5) as u128);
        assert(t == ((130 - 5 * (n - 1)) as u128));
        lemma_shift_unfold(bits, sh, t);
        lemma_low_five(bits >> sh);
        assert(decoded_prefix(s, n - 1) == ((bits >> sh) >> 5) as int);
        assert(bits >> sh == ((bits >> sh) >> 5) * 32 + ((bits >> sh) & 31));
    }
}

/// The canonical text of an identifier parses back to the same identifier.
pub proof fn lemma_canonical_round_trip(bits: u128)
    ensures
        decoded(encoded(bits)) == Some(bits),
{
    let s = encoded(bits);
    assert forall|i: int| 0 <= i < 26 implies valid_digit(s[i]) by {
        lemma_chunk_in_range(bits, (125 - 5 * i) as u128);
        lemma_digit_inverse(chunk(bits, i));
    }
    lemma_decoded_prefix(bits, 26);
    lemma_shift_by_zero(bits);
    assert(decoded_prefix(s, 26) == bits as int);
    assert((bits as int) % 0x100000000000000000000000000000000int == bits as int)
        by (nonlinear_arith)
        requires
            0 <= bits as int,
            (bits as int) < 0x100000000000000000000000000000000int;
}

/// No two identifiers share a canonical text.
pub proof fn lemma_canonical_injective(a: u128, b: u128)
    requires
        encoded(a) == encoded(b),
    ensures
        a == b,
{
    lemma_canonical_round_trip(a);
    lemma_canonical_round_trip(b);
}

proof fn lemma_lex_suffix(a: u128, b: u128, k: int)
    requires
        a <= b,
        0 <= k <= 26,
        k == 0 || a >> ((130 - 5 * k) as u128) == b >> ((130 - 5 * k) as u128),
    ensures
        lex_le(encoded(a).skip(k), encoded(b).skip(k)),
    decreases 26 - k,
{
    let sa = encoded(a);
    let sb = encoded(b);
    if k == 26 {
        lemma_shift_by_zero(a);
        lemma_shift_by_zero(b);
        assert(sa.skip(26).len() == 0);
    } else {
        let sh: u128 = ((125 - 5 * k) as u128);
        if k == 0 {
            lemma_first_chunk_le(a, b);
            lemma_top_three(a);
            lemma_top_three(b);
        } else {
            lemma_chunk_le(a, b, sh, (sh + 5) as u128);
        }
        lemma_chunk_in_range(a, sh);
        lemma_chunk_in_range(b, sh);
        assert(sa.skip(k)[0] == sa[k]);
        assert(sb.skip(k)[0] == sb[k]);
        if chunk(a, k) < chunk(b, k) {
            lemma_digit_monotone(chunk(a, k), chunk(b, k));
        } else {
            assert(chunk(a, k) == chunk(b, k));
            if k == 0 {
                lemma_top_extend(a, b);
            } else {
                lemma_chunk_eq_extends(a, b, sh, (sh + 5) as u128);
            }
            lemma_lex_suffix(a, b, k + 1);
            assert(sa.skip(k).skip(1) =~= sa.skip(k + 1));
            assert(sb.skip(k).skip(1) =~= sb.skip(k + 1));
        }
    }
}

/// Canonical text orders as the identifiers themselves do: the encoding is
/// monotone, so identifiers drawn at non-decreasing 128-bit values render
/// in non-decreasing lexicographic order.
pub proof fn lemma_canonical_order(a: u128, b: u128)
    requires
        a <= b,
    ensures
        lex_le(encoded(a), encoded(b)),
{
    lemma_lex_suffix(a, b, 0);
    assert(encoded(a).skip(0) =~= encoded(a));
    assert(encoded(b).skip(0) =~= encoded(b));
}

/// An identifier drawn at a strictly later millisecond renders strictly
/// later in canonical form, whatever the random bits are.
pub proof fn lemma_time_ordered(a: Identifier, b: Identifier)
    requires
        a.timestamp_ms() < b.timestamp_ms(),
    ensures
        lex_le(encoded(a.bits), encoded(b.bits)),
        encoded(a.bits) != encoded(b.bits),
{
    lemma_timestamp_orders_bits(a.bits, b.bits);
    lemma_canonical_order(a.bits, b.bits);
    if encoded(a.bits) == encoded(b.bits) {
        lemma_canonical_injective(a.bits, b.bits);
    }
}

/// Relies on `ulid::Ulid::generate`: a fresh 128-bit value whose high 48
/// bits hold the current millisecond timestamp and whose low 80 bits come
/// from process-local randomness. The result depends on time and chance, so
/// no clause names it.
#[verifier::external_body]
fn generate_bits() -> (r: u128) {
    ulid::Ulid::generate().0
}

/// Relies on `ulid::Ulid::to_string` (its `base32::encode`): 26 bytes, byte
/// `i` the Crockford base32 digit of the `i`-th 5-bit group of the value,
/// most significant group first, uppercase alphabet.
#[verifier::external_body]
fn format_bits(bits: u128) -> (r: Vec<u8>)
    ensures
        r@ == encoded(bits),
{
    ulid::Ulid(bits).to_string().into_bytes()
}

/// Relies on `ulid::Ulid::from_string` (its `base32::decode`): accepts
/// exactly 26 bytes, each a Crockford base32 digit of either case with
/// `I`, `L`, `O`, `U` invalid, and folds them big-endian into 128 bits,
/// discarding the top two bits of the first digit. Input that is not UTF-8
/// holds a byte above 0x7f, which the digit table rejects the same way.
#[verifier::external_body]
fn parse_bits(s: &[u8]) -> (r: Option<u128>)
    ensures
        r == decoded(s@),
{
    match core::str::from_utf8(s) {
        Ok(text) => match ulid::Ulid::from_string(text) {
            Ok(u) => Some(u.0),
            Err(_) => None,
        },
        Err(_) => None,
    }
}

} // verus!
