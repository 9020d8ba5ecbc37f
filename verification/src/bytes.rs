//! Big-endian integer encodings and byte-vector helpers.
use vstd::prelude::*;

verus! {

/// The four big-endian bytes of `n`.
pub open spec fn be_u32_bytes(n: u32) -> Seq<u8> {
    seq![
        (n / 0x100_0000) as u8,
        ((n / 0x1_0000) % 0x100) as u8,
        ((n / 0x100) % 0x100) as u8,
        (n % 0x100) as u8,
    ]
}

/// The number that four big-endian bytes encode.
pub open spec fn be_u32_value(b: Seq<u8>) -> int
    recommends
        b.len() == 4,
{
    b[0] * 0x100_0000 + b[1] * 0x1_0000 + b[2] * 0x100 + b[3]
}

/// The number that a sequence of big-endian bytes encodes.
pub open spec fn be_value(b: Seq<u8>) -> nat
    decreases b.len(),
{
    if b.len() == 0 {
        0
    } else {
        be_value(b.drop_last()) * 256 + b.last() as nat
    }
}

/// `256` to the power `n`.
pub open spec fn pow256(n: nat) -> nat
    decreases n,
{
    if n == 0 {
        1
    } else {
        256 * pow256((n - 1) as nat)
    }
}

/// Decoding the big-endian bytes of a number gives the number back.
pub proof fn lemma_be_u32_round_trip(n: u32)
    ensures
        be_u32_bytes(n).len() == 4,
        be_u32_value(be_u32_bytes(n)) == n,
{
    let b = be_u32_bytes(n);
    let a = n / 0x100_0000;
    let r1 = n % 0x100_0000;
    let c = r1 / 0x1_0000;
    let r2 = r1 % 0x1_0000;
    let d = r2 / 0x100;
    let e = r2 % 0x100;
    assert(n == a * 0x100_0000 + c * 0x1_0000 + d * 0x100 + e
        && a < 0x100 && c < 0x100 && d < 0x100 && e < 0x100
        && (n / 0x1_0000) % 0x100 == c && (n / 0x100) % 0x100 == d && n % 0x100 == e) by (nonlinear_arith)
        requires
            a == n / 0x100_0000,
            r1 == n % 0x100_0000,
            c == r1 / 0x1_0000,
            r2 == r1 % 0x1_0000,
            d == r2 / 0x100,
            e == r2 % 0x100,
            n < 0x1_0000_0000,
    ;
}

/// The four big-endian bytes of `n`.
pub fn u32_to_be_bytes(n: u32) -> (b: [u8; 4])
    ensures
        b@ == be_u32_bytes(n),
{
    let b: [u8; 4] = [
        (n / 0x100_0000) as u8,
        ((n / 0x1_0000) % 0x100) as u8,
        ((n / 0x100) % 0x100) as u8,
        (n % 0x100) as u8,
    ];
    assert(b@ =~= be_u32_bytes(n));
    b
}

/// The number that four big-endian bytes encode.
pub fn be_bytes_to_u32(b: [u8; 4]) -> (n: u32)
    ensures
        n == be_u32_value(b@),
{
    (b[0] as u32) * 0x100_0000 + (b[1] as u32) * 0x1_0000 + (b[2] as u32) * 0x100 + (b[3] as u32)
}

/// Appends all of `more` to `v`.
pub fn append_bytes(v: &mut Vec<u8>, more: &[u8])
    ensures
        final(v)@ == old(v)@ + more@,
{
    let mut i: usize = 0;
    while i < more.len()
        invariant
            i <= more@.len(),
            v@ == old(v)@ + more@.subrange(0, i as int),
        decreases more@.len() - i,
    {
        v.push(more[i]);
        i = i + 1;
        assert(v@ =~= old(v)@ + more@.subrange(0, i as int));
    }
    assert(more@.subrange(0, i as int) =~= more@);
}

/// The 32 bytes of `v` as an array.
pub fn to_array32(v: &[u8]) -> (a: [u8; 32])
    requires
        v@.len() == 32,
    ensures
        a@ == v@,
{
    let mut a: [u8; 32] = [0u8; 32];
    let mut i: usize = 0;
    while i < 32
        invariant
            v@.len() == 32,
            i <= 32,
            forall|j: int| 0 <= j < i ==> a@[j] == v@[j],
        decreases 32 - i,
    {
        a[i] = v[i];
        i = i + 1;
    }
    assert(a@ =~= v@);
    a
}

/// The number that the first `count` bytes of `b` encode in big-endian order.
pub fn be_prefix_to_u64(b: &[u8], count: usize) -> (n: u64)
    requires
        count <= 8,
        count <= b@.len(),
    ensures
        n == be_value(b@.subrange(0, count as int)),
{
    let mut acc: u64 = 0;
    let mut i: usize = 0;
    while i < count
        invariant
            i <= count <= 8,
            count <= b@.len(),
            acc == be_value(b@.subrange(0, i as int)),
            acc < pow256(i as nat),
        decreases count - i,
    {
        let ghost prev = acc;
        assert(pow256(i as nat) <= pow256(7)) by {
            lemma_pow256_monotone(i as nat, 7);
        }
        assert(pow256(7) == 0x100_0000_0000_0000) by {
            reveal_with_fuel(pow256, 8);
        }
        assert(acc * 256 + b[i as int] < pow256(i as nat) * 256) by (nonlinear_arith)
            requires
                acc < pow256(i as nat),
                b[i as int] < 256,
        ;
        acc = acc * 256 + b[i] as u64;
        i = i + 1;
        assert(b@.subrange(0, i as int).drop_last() =~= b@.subrange(0, i - 1));
    }
    acc
}

/// Powers of 256 grow with the exponent.
pub proof fn lemma_pow256_monotone(a: nat, b: nat)
    requires
        a <= b,
    ensures
        pow256(a) <= pow256(b),
    decreases b,
{
    if a < b {
        lemma_pow256_monotone(a, (b - 1) as nat);
    }
}

} // verus!
