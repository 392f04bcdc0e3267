//! Little-endian integer fields inside fixed-size byte buffers.
use vstd::prelude::*;

verus! {

/// 256 to the power `n`.
pub open spec fn pow256(n: nat) -> nat
    decreases n,
{
    if n == 0 {
        1
    } else {
        256 * pow256((n - 1) as nat)
    }
}

/// The `n` low bytes of `v`, least significant first.
pub open spec fn le_encode(v: nat, n: nat) -> Seq<u8>
    decreases n,
{
    if n == 0 {
        Seq::empty()
    } else {
        seq![(v % 256) as u8] + le_encode(v / 256, (n - 1) as nat)
    }
}

/// The number whose little-endian bytes are `s`.
pub open spec fn le_decode(s: Seq<u8>) -> nat
    decreases s.len(),
{
    if s.len() == 0 {
        0
    } else {
        s[0] as nat + 256 * le_decode(s.drop_first())
    }
}

/// Encoding to `n` bytes gives `n` bytes.
pub proof fn lemma_le_encode_len(v: nat, n: nat)
    ensures
        le_encode(v, n).len() == n,
    decreases n,
{
    if n > 0 {
        lemma_le_encode_len(v / 256, (n - 1) as nat);
    }
}

/// A byte string decodes to less than 256^len.
pub proof fn lemma_le_decode_bound(s: Seq<u8>)
    ensures
        le_decode(s) < pow256(s.len()),
    decreases s.len(),
{
    if s.len() > 0 {
        lemma_le_decode_bound(s.drop_first());
    }
}

/// Decoding the `n`-byte encoding of a number below 256^n gives it back.
pub proof fn lemma_le_decode_encode(v: nat, n: nat)
    requires
        v < pow256(n),
    ensures
        le_decode(le_encode(v, n)) == v,
    decreases n,
{
    if n > 0 {
        assert(v / 256 < pow256((n - 1) as nat)) by (nonlinear_arith)
            requires
                v < 256 * pow256((n - 1) as nat),
        ;
        lemma_le_decode_encode(v / 256, (n - 1) as nat);
        lemma_le_encode_len(v / 256, (n - 1) as nat);
        assert(le_encode(v, n).drop_first() =~= le_encode(v / 256, (n - 1) as nat));
    }
}

/// Encoding the decoded value of a byte string to its length gives it back.
pub proof fn lemma_le_encode_decode(s: Seq<u8>)
    ensures
        le_encode(le_decode(s), s.len()) == s,
    decreases s.len(),
{
    if s.len() > 0 {
        let rest = s.drop_first();
        lemma_le_encode_decode(rest);
        let v = le_decode(s);
        assert(v % 256 == s[0] as nat && v / 256 == le_decode(rest)) by (nonlinear_arith)
            requires
                v == s[0] as nat + 256 * le_decode(rest),
                s[0] < 256,
        ;
        assert(le_encode(v, s.len()) =~= s);
    }
}

/// 256^n for the widths used here.
pub proof fn lemma_pow256_values()
    ensures
        pow256(1) == 0x100,
        pow256(2) == 0x1_0000,
        pow256(4) == 0x1_0000_0000,
        pow256(16) == 0x1_0000_0000_0000_0000_0000_0000_0000_0000,
{
    reveal_with_fuel(pow256, 17);
}

/// Writes the `width` low bytes of `v`, least significant first, at `at`;
/// the other bytes of `buf` are unchanged.
pub fn put_le<const N: usize>(buf: &mut [u8; N], at: usize, v: u128, width: usize)
    requires
        at + width <= N,
    ensures
        final(buf)@ == old(buf)@.subrange(0, at as int) + le_encode(v as nat, width as nat)
            + old(buf)@.subrange((at + width) as int, N as int),
{
    let ghost orig = buf@;
    let mut x: u128 = v;
    let mut k: usize = 0;
    proof {
        lemma_le_encode_len(v as nat, width as nat);
    }
    while k < width
        invariant
            k <= width,
            at + width <= N,
            buf@.len() == N,
            buf@.subrange(0, at as int) == orig.subrange(0, at as int),
            buf@.subrange((at + width) as int, N as int) == orig.subrange(
                (at + width) as int,
                N as int,
            ),
            buf@.subrange(at as int, (at + k) as int) + le_encode(x as nat, (width - k) as nat)
                == le_encode(v as nat, width as nat),
        decreases width - k,
    {
        let ghost before = buf@;
        let byte: u8 = (x % 256) as u8;
        buf[at + k] = byte;
        proof {
            assert(buf@.subrange(0, at as int) =~= before.subrange(0, at as int));
            assert(buf@.subrange((at + width) as int, N as int) =~= before.subrange(
                (at + width) as int,
                N as int,
            ));
            assert(buf@.subrange(at as int, (at + k + 1) as int) =~= before.subrange(
                at as int,
                (at + k) as int,
            ).push(byte));
            let rest = le_encode((x / 256) as nat, (width - k - 1) as nat);
            assert(le_encode(x as nat, (width - k) as nat) == seq![byte] + rest);
            assert(before.subrange(at as int, (at + k) as int).push(byte) + rest =~= before.subrange(
                at as int,
                (at + k) as int,
            ) + (seq![byte] + rest));
        }
        x = x / 256;
        k = k + 1;
    }
    proof {
        assert(buf@ =~= buf@.subrange(0, at as int) + buf@.subrange(at as int, (at + width) as int)
            + buf@.subrange((at + width) as int, N as int));
    }
}

/// The number stored little-endian in `buf[at .. at + width]`.
pub fn get_le(buf: &[u8], at: usize, width: usize) -> (v: u128)
    requires
        at + width <= buf@.len(),
        width <= 16,
    ensures
        v as nat == le_decode(buf@.subrange(at as int, (at + width) as int)),
{
    let len = buf.len();
    assert(at + width <= len);
    let mut acc: u128 = 0;
    let mut j: usize = at + width;
    proof {
        lemma_pow256_values();
    }
    while j > at
        invariant
            at <= j <= at + width,
            at + width <= buf@.len(),
            width <= 16,
            acc as nat == le_decode(buf@.subrange(j as int, (at + width) as int)),
            acc < pow256((at + width - j) as nat),
            pow256(16) == 0x1_0000_0000_0000_0000_0000_0000_0000_0000,
        decreases j - at,
    {
        let b = buf[j - 1];
        proof {
            let s = buf@.subrange((j - 1) as int, (at + width) as int);
            assert(s.drop_first() =~= buf@.subrange(j as int, (at + width) as int));
            lemma_pow_mono((at + width - j + 1) as nat, 16);
            assert(acc * 256 + b < pow256((at + width - j + 1) as nat));
        }
        acc = acc * 256 + b as u128;
        j = j - 1;
    }
    acc
}

/// Copies `src` into `buf` at `at`; the other bytes of `buf` are unchanged.
pub fn put_bytes<const N: usize>(buf: &mut [u8; N], at: usize, src: &[u8])
    requires
        at + src@.len() <= N,
    ensures
        final(buf)@ == old(buf)@.subrange(0, at as int) + src@ + old(buf)@.subrange(
            (at + src@.len()) as int,
            N as int,
        ),
{
    let ghost orig = buf@;
    let n = src.len();
    let mut k: usize = 0;
    while k < n
        invariant
            k <= n,
            n == src@.len(),
            at + n <= N,
            buf@.len() == N,
            forall|i: int| 0 <= i < at ==> buf@[i] == orig[i],
            forall|i: int| at + n <= i < N ==> buf@[i] == orig[i],
            forall|i: int| 0 <= i < k ==> buf@[at + i] == src@[i],
        decreases n - k,
    {
        buf[at + k] = src[k];
        k = k + 1;
    }
    assert(buf@ =~= orig.subrange(0, at as int) + src@ + orig.subrange((at + n) as int, N as int));
}

/// 256^n grows with n.
pub proof fn lemma_pow_mono(a: nat, b: nat)
    requires
        a <= b,
    ensures
        pow256(a) <= pow256(b),
    decreases b,
{
    if a < b {
        lemma_pow_mono(a, (b - 1) as nat);
    }
}

} // verus!
