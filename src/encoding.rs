use vstd::prelude::*;

use byteorder::ByteOrder;

verus! {

/// `256` raised to the power `n`.
pub open spec fn pow256(n: nat) -> nat
    decreases n,
{
    if n == 0 {
        1
    } else {
        256 * pow256((n - 1) as nat)
    }
}

/// The `n` low-order bytes of `x`, most significant first.
pub open spec fn be_bytes(x: nat, n: nat) -> Seq<u8>
    decreases n,
{
    if n == 0 {
        Seq::empty()
    } else {
        be_bytes(x / 256, (n - 1) as nat).push((x % 256) as u8)
    }
}

/// The unsigned integer that the bytes `b` encode, most significant first.
pub open spec fn be_value(b: Seq<u8>) -> nat
    decreases b.len(),
{
    if b.len() == 0 {
        0
    } else {
        be_value(b.drop_last()) * 256 + b.last() as nat
    }
}

/// Decoding a big-endian encoding gives back the encoded value, whenever the
/// value fits in the chosen width.
pub proof fn lemma_be_round_trip(x: nat, n: nat)
    requires
        x < pow256(n),
    ensures
        be_bytes(x, n).len() == n,
        be_value(be_bytes(x, n)) == x,
    decreases n,
{
    if n > 0 {
        let m = (n - 1) as nat;
        assert(x / 256 < pow256(m)) by (nonlinear_arith)
            requires
                x < 256 * pow256(m),
        ;
        lemma_be_round_trip(x / 256, m);
        let b = be_bytes(x, n);
        assert(b.drop_last() =~= be_bytes(x / 256, m));
        assert(x == (x / 256) * 256 + x % 256) by (nonlinear_arith);
    }
}

/// How many values eight bytes, and four bytes, can hold.
pub proof fn lemma_pow256_widths()
    ensures
        pow256(8) == 0x1_0000_0000_0000_0000nat,
        pow256(4) == 0x1_0000_0000nat,
{
    reveal_with_fuel(pow256, 9);
}

/// Relies on `byteorder::BigEndian::write_u64`: writes `x` into eight bytes,
/// most significant first.
#[verifier::external_body]
pub(crate) fn be_u64_bytes(x: u64) -> (r: Vec<u8>)
    ensures
        r@ == be_bytes(x as nat, 8),
{
    let mut buf = [0u8; 8];
    byteorder::BigEndian::write_u64(&mut buf, x);
    buf.to_vec()
}

/// Relies on `byteorder::BigEndian::write_u32`: writes `x` into four bytes,
/// most significant first.
#[verifier::external_body]
pub(crate) fn be_u32_bytes(x: u32) -> (r: Vec<u8>)
    ensures
        r@ == be_bytes(x as nat, 4),
{
    let mut buf = [0u8; 4];
    byteorder::BigEndian::write_u32(&mut buf, x);
    buf.to_vec()
}

} // verus!
