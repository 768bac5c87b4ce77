use vstd::prelude::*;
use vstd::arithmetic::power2::{pow2, lemma_pow2_unfold};
use crate::error::JsonRpcError;
use crate::hex_codec::hex_decode;

verus! {

/// A 256-bit node identifier, most significant byte first.
#[derive(Clone, Copy, Debug, PartialEq, Eq)]
pub struct NodeId {
    pub raw: [u8; 32],
}

/// Byte-wise exclusive-or of two byte strings of equal length.
pub open spec fn xor_seq(a: Seq<u8>, b: Seq<u8>) -> Seq<u8> {
    Seq::new(a.len(), |i: int| a[i] ^ b[i])
}

/// The number of bits needed to write `n`: zero for zero, else one more than
/// the position of its highest set bit.
pub open spec fn bit_len(n: nat) -> nat
    decreases n,
{
    if n == 0 {
        0
    } else {
        1 + bit_len(n / 2)
    }
}

/// The log-distance of a big-endian distance: zero when every byte is zero,
/// else the bit length of the whole number (8 bits for each byte after the
/// first nonzero one, plus that byte's own bit length).
pub open spec fn log_distance_of(d: Seq<u8>) -> nat
    decreases d.len(),
{
    if d.len() == 0 {
        0
    } else if d[0] == 0 {
        log_distance_of(d.drop_first())
    } else {
        8 * (d.len() - 1) as nat + bit_len(d[0] as nat)
    }
}

/// The count of zero bits before the first set bit, most significant first
/// (every bit, for an all-zero string).
pub open spec fn leading_zero_bits(d: Seq<u8>) -> nat
    decreases d.len(),
{
    if d.len() == 0 {
        0
    } else if d[0] == 0 {
        8 + leading_zero_bits(d.drop_first())
    } else {
        (8 - bit_len(d[0] as nat)) as nat
    }
}

/// The log-distance and the leading zero bits of a distance add up to its
/// width in bits.
pub proof fn lemma_log_distance_leading_zeros(d: Seq<u8>)
    ensures
        log_distance_of(d) + leading_zero_bits(d) == 8 * d.len(),
    decreases d.len(),
{
    if d.len() > 0 {
        lemma_byte_bit_len(d[0]);
        lemma_log_distance_leading_zeros(d.drop_first());
    }
}

proof fn lemma_bit_len_bound(x: nat, k: nat)
    requires
        x < pow2(k),
    ensures
        bit_len(x) <= k,
    decreases k,
{
    if x > 0 {
        if k == 0 {
            assert(pow2(0) == 1) by {
                vstd::arithmetic::power2::lemma2_to64();
            }
        } else {
            lemma_pow2_unfold(k);
            lemma_bit_len_bound(x / 2, (k - 1) as nat);
        }
    }
}

proof fn lemma_byte_bit_len(b: u8)
    ensures
        bit_len(b as nat) <= 8,
        b > 0 ==> bit_len(b as nat) >= 1,
{
    vstd::arithmetic::power2::lemma2_to64();
    lemma_bit_len_bound(b as nat, 8);
}

/// The bit length of one byte.
fn byte_bit_len(b: u8) -> (r: u16)
    ensures
        r == bit_len(b as nat),
        r <= 8,
{
    proof {
        lemma_byte_bit_len(b);
    }
    let mut x: u8 = b;
    let mut n: u16 = 0;
    while x > 0
        invariant
            n + bit_len(x as nat) == bit_len(b as nat),
            bit_len(b as nat) <= 8,
        decreases x,
    {
        x = x / 2;
        n = n + 1;
    }
    n
}

impl NodeId {
    /// The XOR distance between two identifiers.
    pub fn distance(&self, other: &NodeId) -> (d: NodeId)
        ensures
            d.raw@ == xor_seq(self.raw@, other.raw@),
    {
        let mut raw: [u8; 32] = [0u8; 32];
        let mut i: usize = 0;
        while i < 32
            invariant
                0 <= i <= 32,
                forall|j: int| 0 <= j < i ==> raw@[j] == self.raw@[j] ^ other.raw@[j],
            decreases 32 - i,
        {
            raw[i] = self.raw[i] ^ other.raw[i];
            i = i + 1;
        }
        let d = NodeId { raw };
        assert(d.raw@ =~= xor_seq(self.raw@, other.raw@));
        d
    }

    /// The log-distance of this identifier read as a distance: 0 for zero,
    /// else 256 minus its count of leading zero bits.
    pub fn log_distance(&self) -> (r: u16)
        ensures
            r == log_distance_of(self.raw@),
            r == 256 - leading_zero_bits(self.raw@),
            r <= 256,
    {
        proof {
            lemma_log_distance_leading_zeros(self.raw@);
        }
        let mut i: usize = 0;
        assert(self.raw@.subrange(0, 32) =~= self.raw@);
        while i < 32 && self.raw[i] == 0
            invariant
                0 <= i <= 32,
                log_distance_of(self.raw@) == log_distance_of(self.raw@.subrange(i as int, 32)),
            decreases 32 - i,
        {
            assert(self.raw@.subrange(i as int, 32).drop_first() =~= self.raw@.subrange(i + 1, 32));
            i = i + 1;
        }
        if i == 32 {
            0
        } else {
            let b = byte_bit_len(self.raw[i]);
            8 * (31 - i as u16) + b
        }
    }

    /// Parses a hex identifier (with or without `0x`) of exactly 32 bytes.
    pub fn from_hex(s: &str) -> (r: Result<NodeId, JsonRpcError>)
        ensures
            match r {
                Ok(id) => hex_decode(s@) == Some(id.raw@),
                Err(e) => {
                    &&& !(hex_decode(s@) is Some && hex_decode(s@)->0.len() == 32)
                    &&& e matches JsonRpcError::InvalidHash { input, .. } && input@ == s@
                },
            },
    {
        match decode_id_bytes(s) {
            Ok(raw) => Ok(NodeId { raw }),
            Err(source) => Err(JsonRpcError::InvalidHash { source, input: s.to_owned() }),
        }
    }
}

/// Relies on `alloy_primitives::hex::decode_to_array` for 32 bytes: the text
/// must decode as `hex::decode` does and to exactly 32 bytes.
#[verifier::external_body]
fn decode_id_bytes(s: &str) -> (r: Result<[u8; 32], alloy_primitives::hex::FromHexError>)
    ensures
        match r {
            Ok(a) => hex_decode(s@) == Some(a@),
            Err(_) => !(hex_decode(s@) is Some && hex_decode(s@)->0.len() == 32),
        },
{
    alloy_primitives::hex::decode_to_array::<_, 32>(s)
}

/// Distance is symmetric, and every identifier is at distance zero from
/// itself, where the log-distance is zero too.
pub proof fn lemma_distance_symmetric(a: NodeId, b: NodeId)
    ensures
        xor_seq(a.raw@, b.raw@) == xor_seq(b.raw@, a.raw@),
        xor_seq(a.raw@, a.raw@) == Seq::new(32, |i: int| 0u8),
        log_distance_of(xor_seq(a.raw@, a.raw@)) == 0,
{
    assert forall|i: int| 0 <= i < 32 implies #[trigger] (a.raw@[i] ^ b.raw@[i]) == b.raw@[i] ^ a.raw@[i] by {
        let x = a.raw@[i];
        let y = b.raw@[i];
        assert(x ^ y == y ^ x) by (bit_vector);
    }
    assert(xor_seq(a.raw@, b.raw@) =~= xor_seq(b.raw@, a.raw@));
    assert forall|i: int| 0 <= i < 32 implies #[trigger] (a.raw@[i] ^ a.raw@[i]) == 0u8 by {
        let x = a.raw@[i];
        assert(x ^ x == 0u8) by (bit_vector);
    }
    assert(xor_seq(a.raw@, a.raw@) =~= Seq::new(32, |i: int| 0u8));
    lemma_log_distance_zero(Seq::new(32, |i: int| 0u8));
}

/// The log-distance of an all-zero distance is zero.
pub proof fn lemma_log_distance_zero(d: Seq<u8>)
    requires
        forall|i: int| 0 <= i < d.len() ==> d[i] == 0,
    ensures
        log_distance_of(d) == 0,
    decreases d.len(),
{
    if d.len() > 0 {
        lemma_log_distance_zero(d.drop_first());
    }
}

/// Two identifiers that differ in their most significant bit alone are at
/// the largest log-distance, 256.
pub proof fn lemma_top_bit_distance(a: NodeId, b: NodeId)
    requires
        b.raw@ == a.raw@.update(0, a.raw@[0] ^ 0x80u8),
    ensures
        log_distance_of(xor_seq(a.raw@, b.raw@)) == 256,
{
    let d = xor_seq(a.raw@, b.raw@);
    let x = a.raw@[0];
    assert(x ^ (x ^ 0x80u8) == 0x80u8) by (bit_vector);
    assert(d[0] == 0x80u8);
    assert(bit_len(128) == 8) by {
        reveal_with_fuel(bit_len, 9);
    }
}

} // verus!
