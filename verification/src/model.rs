//! Mathematical model of the key-derivation algebra.
//!
//! Keys are 32-byte strings. A secret key is read as a scalar by taking its
//! little-endian integer value modulo the prime order of the Ristretto group;
//! a public key is the canonical 32-byte compression of a group element. The
//! group itself is cyclic of prime order, so every element is a multiple of
//! the base point, and the model speaks of compressed points through the
//! uninterpreted function `base_mul` (the compression of `k * BasePoint`).

use vstd::prelude::*;

verus! {

/// The prime order of the Ristretto group over Curve25519:
/// 2^252 + 27742317777372353535851937790883648493.
pub open spec fn group_order() -> nat {
    7237005577332262213973186563042994240857116359379907606001950938285454250989nat
}

/// The little-endian integer value of a byte string.
pub open spec fn le_nat(s: Seq<u8>) -> nat
    decreases s.len(),
{
    if s.len() == 0 {
        0
    } else {
        (s[0] as nat) + 256 * le_nat(s.skip(1))
    }
}

/// The `len`-byte little-endian encoding of `n` (truncating above 256^len).
pub open spec fn le_bytes(n: nat, len: nat) -> Seq<u8>
    decreases len,
{
    if len == 0 {
        Seq::empty()
    } else {
        seq![(n % 256) as u8] + le_bytes(n / 256, (len - 1) as nat)
    }
}

/// The scalar a 32-byte secret key stands for: its little-endian value
/// reduced modulo the group order.
pub open spec fn scalar_of(b: Seq<u8>) -> nat {
    le_nat(b) % group_order()
}

/// 256 raised to the power `len`: the number of `len`-byte strings.
pub open spec fn pow256(len: nat) -> nat
    decreases len,
{
    if len == 0 {
        1
    } else {
        256 * pow256((len - 1) as nat)
    }
}

/// `le_bytes` is a right inverse of `le_nat`: encoding a value below
/// 256^len to `len` bytes and reading it back gives the value itself.
pub proof fn lemma_le_bytes_roundtrip(n: nat, len: nat)
    requires
        n < pow256(len),
    ensures
        le_nat(le_bytes(n, len)) == n,
    decreases len,
{
    if len == 0 {
        assert(le_bytes(n, 0) == Seq::<u8>::empty());
    } else {
        let tail_n = n / 256;
        let rest = le_bytes(tail_n, (len - 1) as nat);
        vstd::arithmetic::div_mod::lemma_fundamental_div_mod(n as int, 256);
        assert(tail_n < pow256((len - 1) as nat)) by {
            if tail_n >= pow256((len - 1) as nat) {
                vstd::arithmetic::mul::lemma_mul_inequality(
                    pow256((len - 1) as nat) as int,
                    tail_n as int,
                    256,
                );
            }
        }
        lemma_le_bytes_roundtrip(tail_n, (len - 1) as nat);
        let s = le_bytes(n, len);
        assert(s.skip(1) =~= rest);
        assert(le_nat(s) == (s[0] as nat) + 256 * le_nat(rest));
    }
}

/// The group order fits in 32 bytes.
pub proof fn lemma_group_order_fits()
    ensures
        group_order() < pow256(32),
{
    reveal_with_fuel(pow256, 33);
    assert(pow256(32)
        == 0x10000000000000000000000000000000000000000000000000000000000000000nat);
}

/// Reading back the canonical 32-byte encoding of a reduced scalar gives
/// that scalar.
pub proof fn lemma_scalar_of_le_bytes(v: nat)
    requires
        v < group_order(),
    ensures
        scalar_of(le_bytes(v, 32)) == v,
{
    lemma_group_order_fits();
    lemma_le_bytes_roundtrip(v, 32);
    vstd::arithmetic::div_mod::lemma_small_mod(v, group_order());
}

} // verus!
