//! The revealed-message bit-vector.
//!
//! Bit `r % 8` of byte `r / 8` is set for each revealed index `r`, and the
//! bytes are then laid out in reverse, so that on the wire the last byte holds
//! indices 0 to 7.
use vstd::prelude::*;

verus! {

/// Number of bytes of the bit-vector that covers `total` message slots.
pub open spec fn bitvector_len(total: nat) -> nat {
    total / 8 + 1
}

/// Bit `i` of a bit-vector in wire order: bit `i % 8` of the byte that stands
/// `i / 8` places before the end.
pub open spec fn bit_at(bytes: Seq<u8>, i: int) -> bool {
    (bytes[bytes.len() - 1 - i / 8] >> ((i % 8) as u8)) & 1u8 == 1u8
}

/// `bytes` is the bit-vector of `revealed` over `total` message slots: it has
/// the right length and exactly the revealed indices are set.
pub open spec fn encodes(bytes: Seq<u8>, total: nat, revealed: Seq<usize>) -> bool {
    &&& bytes.len() == bitvector_len(total)
    &&& forall|i: int|
        0 <= i < 8 * bytes.len() ==> (#[trigger] bit_at(bytes, i) <==> revealed.contains(
            i as usize,
        ))
}

/// The indices below `n` whose bit is set, in ascending order.
pub open spec fn set_bits(bytes: Seq<u8>, n: nat) -> Seq<usize>
    decreases n,
{
    if n == 0 {
        Seq::empty()
    } else if bit_at(bytes, n - 1) {
        set_bits(bytes, (n - 1) as nat).push((n - 1) as usize)
    } else {
        set_bits(bytes, (n - 1) as nat)
    }
}

/// Every index set in a bit-vector, in ascending order.
pub open spec fn revealed_indices(bytes: Seq<u8>) -> Seq<usize> {
    set_bits(bytes, 8 * bytes.len())
}

pub open spec fn strictly_increasing(s: Seq<usize>) -> bool {
    forall|a: int, b: int| 0 <= a < b < s.len() ==> s[a] < s[b]
}

proof fn lemma_set_bit(b: u8, k: u8, j: u8)
    by (bit_vector)
    requires
        k < 8,
        j < 8,
    ensures
        ((b | (1u8 << k)) >> j) & 1u8 == 1u8 <==> (j == k || (b >> j) & 1u8 == 1u8),
{
}

proof fn lemma_zero_bits(j: u8)
    by (bit_vector)
    ensures
        (0u8 >> j) & 1u8 != 1u8,
{
}

/// Two bytes that agree on all eight bits are equal.
proof fn lemma_byte_from_bits(a: u8, b: u8)
    by (bit_vector)
    requires
        (a >> 0u8) & 1u8 == (b >> 0u8) & 1u8,
        (a >> 1u8) & 1u8 == (b >> 1u8) & 1u8,
        (a >> 2u8) & 1u8 == (b >> 2u8) & 1u8,
        (a >> 3u8) & 1u8 == (b >> 3u8) & 1u8,
        (a >> 4u8) & 1u8 == (b >> 4u8) & 1u8,
        (a >> 5u8) & 1u8 == (b >> 5u8) & 1u8,
        (a >> 6u8) & 1u8 == (b >> 6u8) & 1u8,
        (a >> 7u8) & 1u8 == (b >> 7u8) & 1u8,
    ensures
        a == b,
{
}

proof fn lemma_bit_is_zero_or_one(a: u8, j: u8)
    by (bit_vector)
    ensures
        (a >> j) & 1u8 == 0u8 || (a >> j) & 1u8 == 1u8,
{
}

/// Builds the bit-vector of `revealed` over `total` message slots.
pub fn revealed_to_bitvector(total: usize, revealed: &Vec<usize>) -> (r: Vec<u8>)
    requires
        forall|k: int| 0 <= k < revealed.len() ==> revealed[k] < total,
    ensures
        encodes(r@, total as nat, revealed@),
{
    let len: usize = total / 8 + 1;
    let mut bytes: Vec<u8> = Vec::new();
    let mut z: usize = 0;
    while z < len
        invariant
            z <= len,
            bytes.len() == z,
            forall|k: int| 0 <= k < z ==> bytes[k] == 0u8,
        decreases len - z,
    {
        bytes.push(0u8);
        z = z + 1;
    }
    proof {
        assert forall|i: int| 0 <= i < 8 * len implies !#[trigger] bit_at(bytes@, i) by {
            lemma_zero_bits((i % 8) as u8);
        }
    }
    let mut k: usize = 0;
    while k < revealed.len()
        invariant
            len == total / 8 + 1,
            bytes.len() == len,
            k <= revealed.len(),
            forall|q: int| 0 <= q < revealed.len() ==> revealed[q] < total,
            forall|i: int|
                0 <= i < 8 * len ==> (#[trigger] bit_at(bytes@, i) <==> revealed@.subrange(
                    0,
                    k as int,
                ).contains(i as usize)),
        decreases revealed.len() - k,
    {
        let r = revealed[k];
        let pos: usize = len - 1 - r / 8;
        let bit: u8 = (r % 8) as u8;
        let ghost before = bytes@;
        let updated: u8 = bytes[pos] | (1u8 << bit);
        bytes.set(pos, updated);
        proof {
            let prefix = revealed@.subrange(0, k as int);
            assert(revealed@.subrange(0, k + 1) =~= prefix.push(r));
            assert forall|i: int| 0 <= i < 8 * len implies (#[trigger] bit_at(bytes@, i)
                <==> revealed@.subrange(0, k + 1).contains(i as usize)) by {
                assert(bit_at(before, i) <==> prefix.contains(i as usize));
                assert(prefix.push(r).contains(i as usize) <==> (prefix.contains(i as usize) || r
                    == i as usize)) by {
                    if prefix.contains(i as usize) {
                        let w = choose|w: int| 0 <= w < prefix.len() && prefix[w] == i as usize;
                        assert(prefix.push(r)[w] == i as usize);
                    }
                    if r == i as usize {
                        assert(prefix.push(r)[prefix.len() as int] == r);
                    }
                    if prefix.push(r).contains(i as usize) {
                        let w = choose|w: int|
                            0 <= w < prefix.push(r).len() && prefix.push(r)[w] == i as usize;
                        if w < prefix.len() {
                            assert(prefix[w] == i as usize);
                        }
                    }
                }
                assert(i == 8 * (i / 8) + i % 8);
                assert(r == 8 * (r / 8) + r % 8);
                if i / 8 == r / 8 {
                    assert(len - 1 - i / 8 == pos);
                    assert(bytes@[pos as int] == updated);
                    lemma_set_bit(before[pos as int], bit, (i % 8) as u8);
                    assert((i % 8) as u8 == bit <==> i == r);
                } else {
                    assert(i != r);
                    assert(bytes@[len - 1 - i / 8] == before[len - 1 - i / 8]);
                }
            }
        }
        k = k + 1;
    }
    assert(revealed@.subrange(0, revealed.len() as int) =~= revealed@);
    bytes
}

/// Lists the indices set in a bit-vector, in ascending order.
pub fn bitvector_to_revealed(data: &[u8]) -> (r: Vec<usize>)
    requires
        data@.len() < 0x1000_0000,
    ensures
        r@ == revealed_indices(data@),
{
    let n: usize = 8 * data.len();
    let mut out: Vec<usize> = Vec::new();
    let mut i: usize = 0;
    while i < n
        invariant
            i <= n,
            n == 8 * data@.len(),
            out@ == set_bits(data@, i as nat),
        decreases n - i,
    {
        let byte: u8 = data[data.len() - 1 - i / 8];
        if (byte >> ((i % 8) as u8)) & 1u8 == 1u8 {
            out.push(i);
        }
        i = i + 1;
    }
    out
}

/// What `set_bits` holds: each index below `n` whose bit is set, once, in
/// ascending order.
proof fn lemma_set_bits(bytes: Seq<u8>, n: nat)
    requires
        n <= usize::MAX,
    ensures
        strictly_increasing(set_bits(bytes, n)),
        forall|k: int| 0 <= k < set_bits(bytes, n).len() ==> set_bits(bytes, n)[k] < n,
        forall|x: usize| #[trigger]
            set_bits(bytes, n).contains(x) <==> (x < n && bit_at(bytes, x as int)),
    decreases n,
{
    if n > 0 {
        let m = (n - 1) as nat;
        lemma_set_bits(bytes, m);
        let prev = set_bits(bytes, m);
        if bit_at(bytes, m as int) {
            let cur = prev.push(m as usize);
            assert forall|x: usize| #[trigger] cur.contains(x) <==> (x < n && bit_at(
                bytes,
                x as int,
            )) by {
                if x == m {
                    assert(cur[prev.len() as int] == x);
                } else if prev.contains(x) {
                    let w = choose|w: int| 0 <= w < prev.len() && prev[w] == x;
                    assert(cur[w] == x);
                } else if cur.contains(x) {
                    let w = choose|w: int| 0 <= w < cur.len() && cur[w] == x;
                    assert(w < prev.len());
                    assert(prev[w] == x);
                }
            }
        }
    }
}

/// Two ascending sequences with the same elements are equal.
proof fn lemma_increasing_unique(a: Seq<usize>, b: Seq<usize>)
    requires
        strictly_increasing(a),
        strictly_increasing(b),
        forall|x: usize| a.contains(x) <==> b.contains(x),
    ensures
        a == b,
    decreases a.len() + b.len(),
{
    if a.len() == 0 {
        if b.len() > 0 {
            assert(b.contains(b[0]));
        }
        assert(a =~= b);
    } else if b.len() == 0 {
        assert(a.contains(a[0]));
    } else {
        let la = a.last();
        let lb = b.last();
        assert(a.contains(la));
        let wb = choose|w: int| 0 <= w < b.len() && b[w] == la;
        assert(b.contains(lb));
        let wa = choose|w: int| 0 <= w < a.len() && a[w] == lb;
        assert(la <= lb);
        assert(lb <= la);
        let a2 = a.drop_last();
        let b2 = b.drop_last();
        assert forall|x: usize| a2.contains(x) <==> b2.contains(x) by {
            if a2.contains(x) {
                let w = choose|w: int| 0 <= w < a2.len() && a2[w] == x;
                assert(a[w] == x && x < la);
                assert(b.contains(x));
                let v = choose|v: int| 0 <= v < b.len() && b[v] == x;
                assert(v < b.len() - 1);
                assert(b2[v] == x);
            }
            if b2.contains(x) {
                let w = choose|w: int| 0 <= w < b2.len() && b2[w] == x;
                assert(b[w] == x && x < lb);
                assert(a.contains(x));
                let v = choose|v: int| 0 <= v < a.len() && a[v] == x;
                assert(v < a.len() - 1);
                assert(a2[v] == x);
            }
        }
        lemma_increasing_unique(a2, b2);
        assert(a =~= a2.push(la));
        assert(b =~= b2.push(lb));
    }
}

/// Decoding the bit-vector of a set of indices, all below `total`, gives back
/// that set in ascending order.
pub proof fn lemma_bitvector_round_trip(total: nat, revealed: Seq<usize>, bytes: Seq<u8>)
    requires
        strictly_increasing(revealed),
        forall|k: int| 0 <= k < revealed.len() ==> revealed[k] < total,
        encodes(bytes, total, revealed),
        8 * bytes.len() <= usize::MAX,
    ensures
        revealed_indices(bytes) == revealed,
{
    let n = 8 * bytes.len();
    lemma_set_bits(bytes, n);
    let d = revealed_indices(bytes);
    assert forall|x: usize| d.contains(x) <==> revealed.contains(x) by {
        if revealed.contains(x) {
            let w = choose|w: int| 0 <= w < revealed.len() && revealed[w] == x;
            assert(x < total);
            assert(bit_at(bytes, x as int));
        }
        if d.contains(x) {
            assert(bit_at(bytes, x as int));
        }
    }
    lemma_increasing_unique(d, revealed);
}

/// The bit-vector of a set of indices is unique: two byte strings that both
/// encode it are equal.
pub proof fn lemma_encoding_unique(total: nat, revealed: Seq<usize>, a: Seq<u8>, b: Seq<u8>)
    requires
        encodes(a, total, revealed),
        encodes(b, total, revealed),
    ensures
        a == b,
{
    let len = a.len();
    assert forall|p: int| 0 <= p < len implies a[p] == b[p] by {
        let q = len - 1 - p;
        assert forall|j: u8| j < 8 implies #[trigger] ((a[p] >> j) & 1u8) == (b[p] >> j) & 1u8 by {
            let i = 8 * q + j;
            assert(i / 8 == q && i % 8 == j);
            assert(bit_at(a, i) <==> bit_at(b, i));
            lemma_bit_is_zero_or_one(a[p], j);
            lemma_bit_is_zero_or_one(b[p], j);
        }
        assert((a[p] >> 0u8) & 1u8 == (b[p] >> 0u8) & 1u8);
        assert((a[p] >> 1u8) & 1u8 == (b[p] >> 1u8) & 1u8);
        assert((a[p] >> 2u8) & 1u8 == (b[p] >> 2u8) & 1u8);
        assert((a[p] >> 3u8) & 1u8 == (b[p] >> 3u8) & 1u8);
        assert((a[p] >> 4u8) & 1u8 == (b[p] >> 4u8) & 1u8);
        assert((a[p] >> 5u8) & 1u8 == (b[p] >> 5u8) & 1u8);
        assert((a[p] >> 6u8) & 1u8 == (b[p] >> 6u8) & 1u8);
        assert((a[p] >> 7u8) & 1u8 == (b[p] >> 7u8) & 1u8);
        lemma_byte_from_bits(a[p], b[p]);
    }
    assert(a =~= b);
}

} // verus!
