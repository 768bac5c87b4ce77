use vstd::prelude::*;

verus! {

/// The lowercase hex digit for a value below sixteen.
pub open spec fn hex_digit(n: u8) -> char {
    if n < 10 {
        ('0' as u8 + n) as char
    } else {
        ('a' as u8 + (n - 10)) as char
    }
}

/// Two lowercase digits for each byte, most significant digit first.
pub open spec fn hex_of(b: Seq<u8>) -> Seq<char>
    decreases b.len(),
{
    if b.len() == 0 {
        Seq::empty()
    } else {
        seq![hex_digit(b[0] / 16), hex_digit(b[0] % 16)] + hex_of(b.drop_first())
    }
}

/// The canonical text form of a byte string: `0x` followed by its lowercase digits.
pub open spec fn prefixed_hex_of(b: Seq<u8>) -> Seq<char> {
    seq!['0', 'x'] + hex_of(b)
}

/// The value of a hex digit in either case, or `None` for any other character.
pub open spec fn digit_value(c: char) -> Option<u8> {
    if '0' <= c && c <= '9' {
        Some((c as u8 - '0' as u8) as u8)
    } else if 'a' <= c && c <= 'f' {
        Some((c as u8 - 'a' as u8 + 10) as u8)
    } else if 'A' <= c && c <= 'F' {
        Some((c as u8 - 'A' as u8 + 10) as u8)
    } else {
        None
    }
}

/// The text with one leading `0x` or `0X` taken off, if it has one.
pub open spec fn strip_hex_prefix(s: Seq<char>) -> Seq<char> {
    if s.len() >= 2 && s[0] == '0' && (s[1] == 'x' || s[1] == 'X') {
        s.subrange(2, s.len() as int)
    } else {
        s
    }
}

/// The bytes that a run of digit pairs spells, or `None` if the run has odd
/// length or holds a character that is no hex digit.
pub open spec fn digits_decode(s: Seq<char>) -> Option<Seq<u8>>
    decreases s.len(),
{
    if s.len() == 0 {
        Some(Seq::empty())
    } else if s.len() == 1 {
        None
    } else {
        match (digit_value(s[0]), digit_value(s[1]), digits_decode(s.subrange(2, s.len() as int))) {
            (Some(hi), Some(lo), Some(rest)) => Some(seq![(hi * 16 + lo) as u8] + rest),
            _ => None,
        }
    }
}

/// What a hex text (with or without the `0x` prefix) decodes to.
pub open spec fn hex_decode(s: Seq<char>) -> Option<Seq<u8>> {
    digits_decode(strip_hex_prefix(s))
}

/// Relies on `alloy_primitives::hex::encode_prefixed`: `0x`, then two
/// lowercase digits per byte.
#[verifier::external_body]
fn hex_encode_prefixed(b: &[u8]) -> (r: String)
    ensures
        r@ == prefixed_hex_of(b@),
{
    alloy_primitives::hex::encode_prefixed(b)
}

/// Relies on `alloy_primitives::hex::decode`: an optional `0x`/`0X` prefix, then
/// an even number of digits of either case; anything else is refused.
#[verifier::external_body]
fn hex_decode_vec(s: &str) -> (r: Result<Vec<u8>, alloy_primitives::hex::FromHexError>)
    ensures
        match r {
            Ok(v) => hex_decode(s@) == Some(v@),
            Err(_) => hex_decode(s@) is None,
        },
{
    alloy_primitives::hex::decode(s)
}

/// The decoding error of `alloy_primitives::hex`, carried as is in this
/// library's errors.
#[verifier::external_type_specification]
#[verifier::external_body]
pub struct ExFromHexError(alloy_primitives::hex::FromHexError);

/// Encodes raw key bytes as the prefixed hex text sent as a request parameter.
pub fn encode_content_key(key: &Vec<u8>) -> (r: String)
    ensures
        r@ == prefixed_hex_of(key@),
{
    hex_encode_prefixed(key.as_slice())
}

/// Decodes a hex text (prefixed or not) into raw bytes.
pub fn decode_hex(s: &str) -> (r: Result<Vec<u8>, alloy_primitives::hex::FromHexError>)
    ensures
        match r {
            Ok(v) => hex_decode(s@) == Some(v@),
            Err(_) => hex_decode(s@) is None,
        },
{
    hex_decode_vec(s)
}

proof fn lemma_digit_round_trip(n: u8)
    requires
        n < 16,
    ensures
        digit_value(hex_digit(n)) == Some(n),
{
}

/// Decoding the digits of any byte string gives that byte string back.
pub proof fn lemma_digits_round_trip(b: Seq<u8>)
    ensures
        digits_decode(hex_of(b)) == Some(b),
    decreases b.len(),
{
    if b.len() > 0 {
        let s = hex_of(b);
        let hi = b[0] / 16;
        let lo = b[0] % 16;
        lemma_digit_round_trip(hi);
        lemma_digit_round_trip(lo);
        assert(s.subrange(2, s.len() as int) =~= hex_of(b.drop_first()));
        lemma_digits_round_trip(b.drop_first());
        assert((hi * 16 + lo) as u8 == b[0]);
        assert(seq![b[0]] + b.drop_first() =~= b);
    }
}

/// Hex round trip: decoding the prefixed hex text of any byte string, the
/// empty one included, gives that byte string back.
pub proof fn lemma_hex_round_trip(b: Seq<u8>)
    ensures
        hex_decode(prefixed_hex_of(b)) == Some(b),
{
    let s = prefixed_hex_of(b);
    assert(s.subrange(2, s.len() as int) =~= hex_of(b));
    lemma_digits_round_trip(b);
}

} // verus!

verus! {

/// The digits of a byte string, without the prefix, also decode back to it.
pub proof fn lemma_unprefixed_round_trip(b: Seq<u8>)
    ensures
        hex_decode(hex_of(b)) == Some(b),
{
    let s = hex_of(b);
    if b.len() > 0 {
        let lo = b[0] % 16;
        lemma_digit_round_trip(lo);
        assert(s[1] == hex_digit(lo));
        assert(digit_value('x') is None);
        assert(digit_value('X') is None);
    }
    assert(strip_hex_prefix(s) == s);
    lemma_digits_round_trip(b);
}

} // verus!
