//! Byte layouts: little-endian integer encodings and byte-string equality.

use vstd::prelude::*;

verus! {

/// Whether two byte strings hold the same bytes.
pub fn bytes_equal(a: &[u8], b: &[u8]) -> (r: bool)
    ensures
        r == (a@ == b@),
{
    if a.len() != b.len() {
        return false;
    }
    let n = a.len();
    let mut i: usize = 0;
    while i < n
        invariant
            n == a@.len(),
            n == b@.len(),
            i <= n,
            forall|j: int| 0 <= j < i ==> a@[j] == b@[j],
        decreases n - i,
    {
        if a[i] != b[i] {
            return false;
        }
        i = i + 1;
    }
    assert(a@ =~= b@);
    true
}

} // verus!

verus! {

/// `256^n`, the number of values that `n` bytes can hold.
pub open spec fn pow256(n: nat) -> nat
    decreases n,
{
    if n == 0 {
        1
    } else {
        256 * pow256((n - 1) as nat)
    }
}

/// The `n` least significant bytes of `x`, least significant first.
pub open spec fn le_bytes(x: nat, n: nat) -> Seq<u8>
    decreases n,
{
    if n == 0 {
        Seq::empty()
    } else {
        seq![(x % 256) as u8] + le_bytes(x / 256, (n - 1) as nat)
    }
}

/// The little-endian encoding of a `u64`.
pub open spec fn le_u64(x: u64) -> Seq<u8> {
    le_bytes(x as nat, 8)
}

/// The little-endian encoding of a `u32`.
pub open spec fn le_u32(x: u32) -> Seq<u8> {
    le_bytes(x as nat, 4)
}

/// The little-endian two's-complement encoding of an `i64`.
pub open spec fn le_i64(x: i64) -> Seq<u8> {
    le_bytes((x as u64) as nat, 8)
}

/// An `n`-byte encoding has `n` bytes.
pub proof fn lemma_le_bytes_len(x: nat, n: nat)
    ensures
        le_bytes(x, n).len() == n,
    decreases n,
{
    if n > 0 {
        lemma_le_bytes_len(x / 256, (n - 1) as nat);
    }
}

/// Two values that fit in `n` bytes have the same `n`-byte encoding only if
/// they are equal.
pub proof fn lemma_le_bytes_injective(x: nat, y: nat, n: nat)
    requires
        x < pow256(n),
        y < pow256(n),
        le_bytes(x, n) == le_bytes(y, n),
    ensures
        x == y,
    decreases n,
{
    if n == 0 {
    } else {
        let p = pow256((n - 1) as nat);
        let lx = le_bytes(x, n);
        let ly = le_bytes(y, n);
        assert(lx[0] == ly[0]);
        assert(x % 256 == y % 256);
        assert(lx.drop_first() =~= le_bytes(x / 256, (n - 1) as nat));
        assert(ly.drop_first() =~= le_bytes(y / 256, (n - 1) as nat));
        assert(x / 256 < p) by (nonlinear_arith)
            requires
                x < 256 * p,
        ;
        assert(y / 256 < p) by (nonlinear_arith)
            requires
                y < 256 * p,
        ;
        lemma_le_bytes_injective(x / 256, y / 256, (n - 1) as nat);
        assert(x == 256 * (x / 256) + x % 256) by (nonlinear_arith);
        assert(y == 256 * (y / 256) + y % 256) by (nonlinear_arith);
    }
}

/// Every `u64` fits in eight bytes.
pub proof fn lemma_u64_fits(x: u64)
    ensures
        (x as nat) < pow256(8),
{
    reveal_with_fuel(pow256, 9);
    assert(pow256(8) == 0x1_0000_0000_0000_0000nat);
}

/// Every `u32` fits in four bytes.
pub proof fn lemma_u32_fits(x: u32)
    ensures
        (x as nat) < pow256(4),
{
    reveal_with_fuel(pow256, 5);
    assert(pow256(4) == 0x1_0000_0000nat);
}

/// Distinct `u64` values have distinct encodings.
pub proof fn lemma_le_u64_injective(x: u64, y: u64)
    requires
        le_u64(x) == le_u64(y),
    ensures
        x == y,
{
    lemma_u64_fits(x);
    lemma_u64_fits(y);
    lemma_le_bytes_injective(x as nat, y as nat, 8);
}

/// Distinct `u32` values have distinct encodings.
pub proof fn lemma_le_u32_injective(x: u32, y: u32)
    requires
        le_u32(x) == le_u32(y),
    ensures
        x == y,
{
    lemma_u32_fits(x);
    lemma_u32_fits(y);
    lemma_le_bytes_injective(x as nat, y as nat, 4);
}

/// Distinct `i64` values have distinct encodings.
pub proof fn lemma_le_i64_injective(x: i64, y: i64)
    requires
        le_i64(x) == le_i64(y),
    ensures
        x == y,
{
    lemma_le_u64_injective(x as u64, y as u64);
    assert((x as u64) == (y as u64) ==> x == y) by (bit_vector);
}

/// Appends the `n` least significant bytes of `x` to `out`, least significant
/// first.
pub fn push_le(out: &mut Vec<u8>, x: u64, n: usize)
    ensures
        final(out)@ == old(out)@ + le_bytes(x as nat, n as nat),
{
    let mut v: u64 = x;
    let mut i: usize = 0;
    while i < n
        invariant
            i <= n,
            out@ + le_bytes(v as nat, (n - i) as nat) == old(out)@ + le_bytes(x as nat, n as nat),
        decreases n - i,
    {
        let ghost before = out@;
        let byte: u8 = (v & 0xff) as u8;
        assert(v & 0xff == v % 256) by (bit_vector);
        assert(v >> 8 == v / 256) by (bit_vector);
        out.push(byte);
        assert(le_bytes(v as nat, (n - i) as nat) == seq![(v % 256) as u8] + le_bytes(
            (v / 256) as nat,
            (n - i - 1) as nat,
        ));
        assert(out@ + le_bytes((v / 256) as nat, (n - i - 1) as nat) =~= before + le_bytes(
            v as nat,
            (n - i) as nat,
        ));
        v = v >> 8;
        i = i + 1;
    }
    assert(le_bytes(v as nat, 0) =~= Seq::<u8>::empty());
    assert(out@ =~= out@ + le_bytes(v as nat, 0));
}

/// Appends every byte of `src` to `out`.
pub fn push_all(out: &mut Vec<u8>, src: &[u8])
    ensures
        final(out)@ == old(out)@ + src@,
{
    let mut i: usize = 0;
    while i < src.len()
        invariant
            i <= src@.len(),
            out@ == old(out)@ + src@.take(i as int),
        decreases src@.len() - i,
    {
        out.push(src[i]);
        assert(src@.take(i + 1) =~= src@.take(i as int).push(src@[i as int]));
        i = i + 1;
    }
    assert(src@.take(src@.len() as int) =~= src@);
}

} // verus!

verus! {

/// Whether `bytes` begins with `prefix`.
pub fn starts_with(bytes: &[u8], prefix: &[u8]) -> (r: bool)
    ensures
        r == (prefix@.len() <= bytes@.len() && bytes@.take(prefix@.len() as int) == prefix@),
{
    if prefix.len() > bytes.len() {
        return false;
    }
    let n = prefix.len();
    let mut i: usize = 0;
    while i < n
        invariant
            n == prefix@.len(),
            n <= bytes@.len(),
            i <= n,
            forall|j: int| 0 <= j < i ==> bytes@[j] == prefix@[j],
        decreases n - i,
    {
        if bytes[i] != prefix[i] {
            assert(bytes@.take(n as int)[i as int] != prefix@[i as int]);
            return false;
        }
        i = i + 1;
    }
    assert(bytes@.take(n as int) =~= prefix@);
    true
}

} // verus!
