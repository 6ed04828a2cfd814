use vstd::prelude::*;
use vstd::arithmetic::div_mod::{lemma_div_denominator, lemma_fundamental_div_mod};
use vstd::arithmetic::power::{lemma_pow0, lemma_pow1, lemma_pow_adds, pow};
use vstd::arithmetic::power2::{lemma2_to64, lemma_pow2_adds, pow2};
use vstd::bits::{
    lemma_low_bits_mask_values, lemma_u32_low_bits_mask_is_mod, lemma_u32_shr_is_div,
};
use crate::AccessError;

verus! {

// The text forms that sysfs attributes use: ASCII decimal and `0x`-prefixed
// hexadecimal numbers, surrounded by whitespace (usually one trailing
// newline). Everything here works on bytes; a conversion to `String` for
// display is done by the one trusted `ascii_to_string` below.
/// The characters of an ASCII byte sequence.
pub open spec fn ascii_chars(s: Seq<u8>) -> Seq<char> {
    Seq::new(s.len(), |i: int| s[i] as char)
}

/// Relies on String::from_utf8_lossy: bytes below 0x80 decode to exactly
/// those characters.
#[verifier::external_body]
pub fn ascii_to_string(b: &[u8]) -> (r: String)
    requires
        forall|i: int| 0 <= i < b@.len() ==> b@[i] < 0x80,
    ensures
        r@ == ascii_chars(b@),
{
    String::from_utf8_lossy(b).into_owned()
}

pub open spec fn is_ascii_space(b: u8) -> bool {
    b == 32 || b == 9 || b == 10 || b == 13
}

pub open spec fn spec_trim_start(s: Seq<u8>) -> Seq<u8>
    decreases s.len(),
{
    if s.len() > 0 && is_ascii_space(s[0]) {
        spec_trim_start(s.skip(1))
    } else {
        s
    }
}

pub open spec fn spec_trim_end(s: Seq<u8>) -> Seq<u8>
    decreases s.len(),
{
    if s.len() > 0 && is_ascii_space(s.last()) {
        spec_trim_end(s.take(s.len() - 1))
    } else {
        s
    }
}

/// `s` without its leading and trailing ASCII whitespace.
pub open spec fn spec_trim(s: Seq<u8>) -> Seq<u8> {
    spec_trim_end(spec_trim_start(s))
}

proof fn lemma_trim_start_skip(s: Seq<u8>, a: int)
    requires
        0 <= a <= s.len(),
        forall|i: int| 0 <= i < a ==> is_ascii_space(s[i]),
        a == s.len() || !is_ascii_space(s[a]),
    ensures
        spec_trim_start(s) == s.skip(a),
    decreases a,
{
    if a == 0 {
        assert(s.skip(0) == s);
    } else {
        lemma_trim_start_skip(s.skip(1), a - 1);
        assert(s.skip(1).skip(a - 1) =~= s.skip(a));
    }
}

proof fn lemma_trim_end_take(s: Seq<u8>, b: int)
    requires
        0 <= b <= s.len(),
        forall|i: int| b <= i < s.len() ==> is_ascii_space(s[i]),
        b == 0 || !is_ascii_space(s[b - 1]),
    ensures
        spec_trim_end(s) == s.take(b),
    decreases s.len() - b,
{
    if b == s.len() {
        assert(s.take(b) == s);
    } else {
        lemma_trim_end_take(s.take(s.len() - 1), b);
        assert(s.take(s.len() - 1).take(b) =~= s.take(b));
    }
}

/// Drop leading and trailing ASCII whitespace.
pub fn trim_bytes(s: &[u8]) -> (r: Vec<u8>)
    ensures
        r@ == spec_trim(s@),
{
    let n = s.len();
    let mut a: usize = 0;
    while a < n && (s[a] == 32 || s[a] == 9 || s[a] == 10 || s[a] == 13)
        invariant
            n == s@.len(),
            a <= n,
            forall|i: int| 0 <= i < a ==> is_ascii_space(s@[i]),
        decreases n - a,
    {
        a = a + 1;
    }
    let mut b: usize = n;
    while b > a && (s[b - 1] == 32 || s[b - 1] == 9 || s[b - 1] == 10 || s[b - 1] == 13)
        invariant
            n == s@.len(),
            a <= b <= n,
            forall|i: int| 0 <= i < a ==> is_ascii_space(s@[i]),
            forall|i: int| b <= i < n ==> is_ascii_space(s@[i]),
        decreases b,
    {
        b = b - 1;
    }
    proof {
        lemma_trim_start_skip(s@, a as int);
        if b == a {
            lemma_trim_end_take(s@.skip(a as int), 0);
        } else {
            lemma_trim_end_take(s@.skip(a as int), b - a);
        }
        assert(spec_trim(s@) =~= s@.subrange(a as int, b as int));
    }
    let mut out: Vec<u8> = Vec::new();
    let mut k: usize = a;
    while k < b
        invariant
            a <= k <= b <= n,
            n == s@.len(),
            out@ =~= s@.subrange(a as int, k as int),
        decreases b - k,
    {
        out.push(s[k]);
        k = k + 1;
    }
    proof {
        assert(out@ =~= s@.subrange(a as int, b as int));
    }
    out
}

pub open spec fn is_hex_digit(b: u8) -> bool {
    (48 <= b <= 57) || (97 <= b <= 102) || (65 <= b <= 70)
}

/// Numeric value of a hexadecimal digit.
pub open spec fn hex_digit_val(b: u8) -> nat {
    if 48 <= b <= 57 {
        (b - 48) as nat
    } else if 97 <= b <= 102 {
        (b - 87) as nat
    } else if 65 <= b <= 70 {
        (b - 55) as nat
    } else {
        0
    }
}

pub open spec fn all_hex_digits(s: Seq<u8>) -> bool {
    forall|i: int| 0 <= i < s.len() ==> is_hex_digit(s[i])
}

/// The number that a sequence of hexadecimal digits denotes.
pub open spec fn spec_hex_value(s: Seq<u8>) -> nat
    decreases s.len(),
{
    if s.len() == 0 {
        0
    } else {
        spec_hex_value(s.drop_last()) * 16 + hex_digit_val(s.last())
    }
}

proof fn lemma_hex_value_prefix_le(s: Seq<u8>, i: int)
    requires
        0 <= i <= s.len(),
    ensures
        spec_hex_value(s.take(i)) <= spec_hex_value(s),
    decreases s.len() - i,
{
    if i == s.len() {
        assert(s.take(i) == s);
    } else {
        lemma_hex_value_prefix_le(s, i + 1);
        assert(s.take(i + 1).drop_last() =~= s.take(i));
        assert(s.take(i + 1).last() == s[i]);
    }
}

/// Parse a sequence of hexadecimal digits. Returns the denoted value exactly
/// when the input is non-empty, all digits, and the value fits in `usize`.
pub fn parse_hex_usize(s: &[u8]) -> (r: Option<usize>)
    ensures
        r is Some <==> s@.len() > 0 && all_hex_digits(s@) && spec_hex_value(s@) <= usize::MAX,
        r is Some ==> r->0 == spec_hex_value(s@),
{
    let n = s.len();
    if n == 0 {
        return None;
    }
    let mut acc: usize = 0;
    let mut k: usize = 0;
    while k < n
        invariant
            k <= n,
            n == s@.len(),
            all_hex_digits(s@.take(k as int)),
            acc == spec_hex_value(s@.take(k as int)),
        decreases n - k,
    {
        let b = s[k];
        let d: usize = if 48 <= b && b <= 57 {
            (b - 48) as usize
        } else if 97 <= b && b <= 102 {
            (b - 87) as usize
        } else if 65 <= b && b <= 70 {
            (b - 55) as usize
        } else {
            proof {
                assert(!is_hex_digit(s@[k as int]));
            }
            return None;
        };
        let next = match acc.checked_mul(16) {
            Some(m) => m.checked_add(d),
            None => None,
        };
        match next {
            Some(v) => {
                acc = v;
            },
            None => {
                proof {
                    assert(s@.take(k + 1).drop_last() =~= s@.take(k as int));
                    assert(s@.take(k + 1).last() == s@[k as int]);
                    assert(spec_hex_value(s@.take(k + 1)) > usize::MAX);
                    lemma_hex_value_prefix_le(s@, k + 1);
                }
                return None;
            },
        }
        proof {
            assert(s@.take(k + 1).drop_last() =~= s@.take(k as int));
            assert(s@.take(k + 1).last() == s@[k as int]);
        }
        k = k + 1;
    }
    proof {
        assert(s@.take(n as int) == s@);
    }
    Some(acc)
}

pub open spec fn is_dec_digit(b: u8) -> bool {
    48 <= b <= 57
}

pub open spec fn all_dec_digits(s: Seq<u8>) -> bool {
    forall|i: int| 0 <= i < s.len() ==> is_dec_digit(s[i])
}

/// The number that a sequence of decimal digits denotes.
pub open spec fn spec_dec_value(s: Seq<u8>) -> nat
    decreases s.len(),
{
    if s.len() == 0 {
        0
    } else {
        spec_dec_value(s.drop_last()) * 10 + (s.last() - 48) as nat
    }
}

proof fn lemma_dec_value_prefix_le(s: Seq<u8>, i: int)
    requires
        0 <= i <= s.len(),
        all_dec_digits(s),
    ensures
        spec_dec_value(s.take(i)) <= spec_dec_value(s),
    decreases s.len() - i,
{
    if i == s.len() {
        assert(s.take(i) == s);
    } else {
        lemma_dec_value_prefix_le(s, i + 1);
        assert(s.take(i + 1).drop_last() =~= s.take(i));
        assert(s.take(i + 1).last() == s[i]);
    }
}

/// Parse a sequence of decimal digits. Returns the denoted value exactly when
/// the input is non-empty, all digits, and the value fits in `usize`.
pub fn parse_dec_usize(s: &[u8]) -> (r: Option<usize>)
    ensures
        r is Some <==> s@.len() > 0 && all_dec_digits(s@) && spec_dec_value(s@) <= usize::MAX,
        r is Some ==> r->0 == spec_dec_value(s@),
{
    let n = s.len();
    if n == 0 {
        return None;
    }
    let mut acc: usize = 0;
    let mut k: usize = 0;
    while k < n
        invariant
            k <= n,
            n == s@.len(),
            all_dec_digits(s@.take(k as int)),
            acc == spec_dec_value(s@.take(k as int)),
        decreases n - k,
    {
        let b = s[k];
        if !(48 <= b && b <= 57) {
            proof {
                assert(!is_dec_digit(s@[k as int]));
            }
            return None;
        }
        let d: usize = (b - 48) as usize;
        let next = match acc.checked_mul(10) {
            Some(m) => m.checked_add(d),
            None => None,
        };
        match next {
            Some(v) => {
                acc = v;
            },
            None => {
                proof {
                    assert(s@.take(k + 1).drop_last() =~= s@.take(k as int));
                    assert(s@.take(k + 1).last() == s@[k as int]);
                    assert(spec_dec_value(s@.take(k + 1)) > usize::MAX);
                    assert(all_dec_digits(s@) ==> spec_dec_value(s@.take(k + 1)) <= spec_dec_value(
                        s@,
                    )) by {
                        if all_dec_digits(s@) {
                            lemma_dec_value_prefix_le(s@, k + 1);
                        }
                    }
                }
                return None;
            },
        }
        proof {
            assert(s@.take(k + 1).drop_last() =~= s@.take(k as int));
            assert(s@.take(k + 1).last() == s@[k as int]);
        }
        k = k + 1;
    }
    proof {
        assert(s@.take(n as int) == s@);
    }
    Some(acc)
}

/// Parse a decimal number that must fit in `u32`.
pub fn parse_dec_u32(s: &[u8]) -> (r: Option<u32>)
    ensures
        r is Some <==> s@.len() > 0 && all_dec_digits(s@) && spec_dec_value(s@) <= u32::MAX,
        r is Some ==> r->0 == spec_dec_value(s@),
{
    match parse_dec_usize(s) {
        Some(v) => {
            if v <= 0xFFFF_FFFF {
                Some(v as u32)
            } else {
                None
            }
        },
        None => None,
    }
}

/// The decimal digits of `n`, most significant first.
pub open spec fn spec_dec_digits(n: nat) -> Seq<u8>
    decreases n,
{
    if n < 10 {
        seq![(48 + n) as u8]
    } else {
        spec_dec_digits(n / 10).push((48 + n % 10) as u8)
    }
}

/// Format `n` as decimal ASCII digits.
pub fn fmt_dec_usize(n: usize) -> (r: Vec<u8>)
    ensures
        r@ == spec_dec_digits(n as nat),
    decreases n,
{
    if n < 10 {
        let mut v: Vec<u8> = Vec::new();
        v.push(48 + (n as u8));
        proof {
            assert(v@ =~= spec_dec_digits(n as nat));
        }
        v
    } else {
        let mut v = fmt_dec_usize(n / 10);
        v.push(48 + ((n % 10) as u8));
        proof {
            assert(v@ =~= spec_dec_digits(n as nat));
        }
        v
    }
}

/// Format a `u32` as decimal ASCII digits.
pub fn fmt_dec_u32(n: u32) -> (r: Vec<u8>)
    ensures
        r@ == spec_dec_digits(n as nat),
{
    fmt_dec_usize(n as usize)
}

/// Every byte of a decimal rendering is a digit, hence ASCII.
pub proof fn lemma_dec_digits_ascii(n: nat)
    ensures
        forall|i: int|
            0 <= i < spec_dec_digits(n).len() ==> is_dec_digit(#[trigger] spec_dec_digits(n)[i]),
    decreases n,
{
    if n < 10 {
        assert(spec_dec_digits(n) == seq![(48 + n) as u8]);
        assert(spec_dec_digits(n)[0] == (48 + n) as u8);
    } else {
        lemma_dec_digits_ascii(n / 10);
        let prefix = spec_dec_digits(n / 10);
        assert(spec_dec_digits(n) == prefix.push((48 + n % 10) as u8));
        assert forall|i: int| 0 <= i < spec_dec_digits(n).len() implies is_dec_digit(
            #[trigger] spec_dec_digits(n)[i],
        ) by {
            if i < prefix.len() {
                assert(spec_dec_digits(n)[i] == prefix[i]);
            } else {
                assert(spec_dec_digits(n)[i] == (48 + n % 10) as u8);
            }
        }
    }
}

/// Law: parsing inverts formatting — the decimal digits of `n` are digits
/// and denote `n`.
pub proof fn lemma_dec_digits_value(n: nat)
    ensures
        all_dec_digits(spec_dec_digits(n)),
        spec_dec_value(spec_dec_digits(n)) == n,
    decreases n,
{
    lemma_dec_digits_ascii(n);
    if n < 10 {
        assert(spec_dec_digits(n) == seq![(48 + n) as u8]);
        assert(spec_dec_digits(n).drop_last() =~= Seq::<u8>::empty());
        assert(spec_dec_value(Seq::<u8>::empty()) == 0);
        assert(spec_dec_digits(n).last() == (48 + n) as u8);
    } else {
        lemma_dec_digits_value(n / 10);
        assert(spec_dec_digits(n) == spec_dec_digits(n / 10).push((48 + n % 10) as u8));
        assert(spec_dec_digits(n).drop_last() =~= spec_dec_digits(n / 10));
        assert(spec_dec_digits(n).last() == (48 + n % 10) as u8);
    }
}

/// Whether every byte is ASCII (below 0x80).
pub fn all_ascii(s: &[u8]) -> (r: bool)
    ensures
        r == forall|i: int| 0 <= i < s@.len() ==> s@[i] < 0x80,
{
    let n = s.len();
    let mut k: usize = 0;
    while k < n
        invariant
            k <= n,
            n == s@.len(),
            forall|i: int| 0 <= i < k ==> s@[i] < 0x80,
        decreases n - k,
    {
        if s[k] >= 0x80 {
            return false;
        }
        k = k + 1;
    }
    true
}

/// The name a sysfs attribute file holds: its contents trimmed, when the
/// trimmed text is ASCII.
pub open spec fn spec_name_attr(s: Seq<u8>) -> Option<Seq<char>> {
    let t = spec_trim(s);
    if forall|i: int| 0 <= i < t.len() ==> t[i] < 0x80 {
        Some(ascii_chars(t))
    } else {
        None
    }
}

/// Parse a sysfs attribute holding a name: the trimmed contents as a string.
/// Succeeds exactly when the trimmed text is ASCII, as device names are.
pub fn parse_name_attr(s: &[u8]) -> (r: Result<String, AccessError>)
    ensures
        r is Ok <==> spec_name_attr(s@) is Some,
        r is Ok ==> r->Ok_0@ == spec_name_attr(s@)->0,
        r is Err ==> r->Err_0 == AccessError::Parse,
{
    let t = trim_bytes(s);
    if all_ascii(t.as_slice()) {
        Ok(ascii_to_string(t.as_slice()))
    } else {
        Err(AccessError::Parse)
    }
}

/// The value of a sysfs attribute holding a `0x`-prefixed hexadecimal
/// number, when the attribute is well-formed.
pub open spec fn spec_hex_attr(s: Seq<u8>) -> Option<nat> {
    let t = spec_trim(s);
    if t.len() > 2 && t[0] == 48 && t[1] == 120 && all_hex_digits(t.skip(2)) {
        Some(spec_hex_value(t.skip(2)))
    } else {
        None
    }
}

/// Parse a sysfs attribute of the form `0x<hex digits>`, surrounded by
/// whitespace. Succeeds exactly when the text is well-formed and the value
/// fits in `usize`.
pub fn parse_hex_attr(s: &[u8]) -> (r: Result<usize, AccessError>)
    ensures
        r is Ok <==> spec_hex_attr(s@) is Some && spec_hex_attr(s@)->0 <= usize::MAX,
        r is Ok ==> r->Ok_0 == spec_hex_attr(s@)->0,
        r is Err ==> r->Err_0 == AccessError::Parse,
{
    let t = trim_bytes(s);
    let n = t.len();
    if n > 2 && t.as_slice()[0] == 48 && t.as_slice()[1] == 120 {
        let digits = vstd::slice::slice_subrange(t.as_slice(), 2, n);
        proof {
            assert(digits@ =~= spec_trim(s@).skip(2));
        }
        match parse_hex_usize(digits) {
            Some(v) => Ok(v),
            None => Err(AccessError::Parse),
        }
    } else {
        Err(AccessError::Parse)
    }
}

/// The value of a sysfs attribute holding a decimal number, when the
/// attribute is well-formed.
pub open spec fn spec_dec_attr(s: Seq<u8>) -> Option<nat> {
    let t = spec_trim(s);
    if t.len() > 0 && all_dec_digits(t) {
        Some(spec_dec_value(t))
    } else {
        None
    }
}

/// Parse a sysfs attribute holding a decimal number, surrounded by
/// whitespace. Succeeds exactly when the text is well-formed and the value
/// fits in `usize`.
pub fn parse_dec_attr_usize(s: &[u8]) -> (r: Result<usize, AccessError>)
    ensures
        r is Ok <==> spec_dec_attr(s@) is Some && spec_dec_attr(s@)->0 <= usize::MAX,
        r is Ok ==> r->Ok_0 == spec_dec_attr(s@)->0,
        r is Err ==> r->Err_0 == AccessError::Parse,
{
    let t = trim_bytes(s);
    match parse_dec_usize(t.as_slice()) {
        Some(v) => Ok(v),
        None => Err(AccessError::Parse),
    }
}

/// As `parse_dec_attr_usize`, for values that must fit in `u32`.
pub fn parse_dec_attr_u32(s: &[u8]) -> (r: Result<u32, AccessError>)
    ensures
        r is Ok <==> spec_dec_attr(s@) is Some && spec_dec_attr(s@)->0 <= u32::MAX,
        r is Ok ==> r->Ok_0 == spec_dec_attr(s@)->0,
        r is Err ==> r->Err_0 == AccessError::Parse,
{
    let t = trim_bytes(s);
    match parse_dec_u32(t.as_slice()) {
        Some(v) => Ok(v),
        None => Err(AccessError::Parse),
    }
}

/// Uppercase hexadecimal digit for a value below 16.
pub open spec fn hex_digit_char(d: int) -> u8 {
    if d < 10 {
        (48 + d) as u8
    } else {
        (55 + d) as u8
    }
}

/// The eight uppercase hexadecimal digits of a 32-bit word, most significant
/// first.
pub open spec fn spec_hex8(w: u32) -> Seq<u8> {
    Seq::new(8, |i: int| hex_digit_char(((w >> (((7 - i) * 4) as u32)) & 0xF) as int))
}

/// Values below 16 map to hexadecimal digit characters and back.
proof fn lemma_hex_digit_char_val(d: int)
    requires
        0 <= d < 16,
    ensures
        is_hex_digit(hex_digit_char(d)),
        hex_digit_val(hex_digit_char(d)) == d,
{
}

/// The first `k` hexadecimal digits of a word denote its top `4 * k` bits.
proof fn lemma_hex8_take(w: u32, k: int)
    requires
        1 <= k <= 8,
    ensures
        spec_hex_value(spec_hex8(w).take(k)) == (w as nat) / pow2(((8 - k) * 4) as nat),
    decreases k,
{
    let s = spec_hex8(w);
    let m: u32 = ((8 - k) * 4) as u32;
    let nib: u32 = (w >> m) & 0xF;
    lemma_low_bits_mask_values();
    lemma_u32_low_bits_mask_is_mod(w >> m, 4);
    lemma_u32_shr_is_div(w, m);
    lemma2_to64();
    assert(s[k - 1] == hex_digit_char(nib as int));
    assert(nib == ((w as nat) / pow2(m as nat)) % 16);
    lemma_hex_digit_char_val(nib as int);
    assert(s.take(k).drop_last() =~= s.take(k - 1));
    assert(s.take(k).last() == s[k - 1]);
    if k == 1 {
        assert(s.take(0) =~= Seq::<u8>::empty());
        assert(spec_hex_value(Seq::<u8>::empty()) == 0);
        assert(w >> 28 < 16) by (bit_vector);
    } else {
        lemma_hex8_take(w, k - 1);
        lemma_pow2_adds(m as nat, 4);
        lemma_div_denominator(w as int, pow2(m as nat) as int, 16);
        lemma_fundamental_div_mod(((w as nat) / pow2(m as nat)) as int, 16);
    }
}

/// Law: the eight fixed-width hexadecimal digits of a 32-bit word are
/// hexadecimal digits and denote the word itself.
pub proof fn lemma_hex8_value(w: u32)
    ensures
        all_hex_digits(spec_hex8(w)),
        spec_hex_value(spec_hex8(w)) == w,
{
    let s = spec_hex8(w);
    assert forall|i: int| 0 <= i < s.len() implies is_hex_digit(#[trigger] s[i]) by {
        let m: u32 = ((7 - i) * 4) as u32;
        let nib: u32 = (w >> m) & 0xF;
        lemma_low_bits_mask_values();
        lemma_u32_low_bits_mask_is_mod(w >> m, 4);
        lemma2_to64();
        assert(nib == ((w >> m) as nat) % 16);
        assert(s[i] == hex_digit_char(nib as int));
        lemma_hex_digit_char_val(nib as int);
    }
    lemma_hex8_take(w, 8);
    lemma2_to64();
    assert(s.take(8) =~= s);
    assert(spec_hex_value(s.take(8)) == (w as nat) / pow2(0));
    assert((w as nat) / 1 == w as nat);
}

/// Law: hexadecimal digit sequences concatenate positionally — the value of
/// `a + b` is the value of `a`, shifted past `b`'s digits, plus the value of
/// `b`.
pub proof fn lemma_hex_value_concat(a: Seq<u8>, b: Seq<u8>)
    ensures
        spec_hex_value(a + b) == spec_hex_value(a) * pow(16, b.len()) + spec_hex_value(b),
    decreases b.len(),
{
    if b.len() == 0 {
        assert(a + b =~= a);
        lemma_pow0(16);
    } else {
        lemma_hex_value_concat(a, b.drop_last());
        assert((a + b).drop_last() =~= a + b.drop_last());
        assert((a + b).last() == b.last());
        lemma_pow1(16);
        lemma_pow_adds(16, 1, (b.len() - 1) as nat);
        assert(pow(16, b.len()) == 16 * pow(16, (b.len() - 1) as nat));
        let p = pow(16, (b.len() - 1) as nat);
        let va = spec_hex_value(a) as int;
        assert(va * (16 * p) == (va * p) * 16) by (nonlinear_arith);
    }
}

/// Format a 32-bit word as exactly eight uppercase hexadecimal digits.
pub fn fmt_hex8(w: u32) -> (r: Vec<u8>)
    ensures
        r@ == spec_hex8(w),
{
    let mut out: Vec<u8> = Vec::new();
    let mut k: usize = 0;
    while k < 8
        invariant
            k <= 8,
            out@.len() == k,
            forall|i: int| 0 <= i < k ==> out@[i] == spec_hex8(w)[i],
        decreases 8 - k,
    {
        let sh: u32 = ((7 - k) * 4) as u32;
        let nib: u32 = (w >> sh) & 0xF;
        proof {
            assert((w >> sh) & 0xF < 16) by (bit_vector);
        }
        let d: u8 = if nib < 10 {
            48 + (nib as u8)
        } else {
            55 + (nib as u8)
        };
        out.push(d);
        k = k + 1;
    }
    proof {
        assert(out@ =~= spec_hex8(w));
    }
    out
}

} // verus!
