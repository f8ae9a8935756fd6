//! Big-endian integers and length-delimited text, the building blocks of every frame.
use vstd::prelude::*;
use vstd::utf8::*;

verus! {

/// `256^n`, the number of distinct values that `n` bytes can hold.
pub open spec fn pow256(n: nat) -> nat
    decreases n,
{
    if n == 0 {
        1
    } else {
        256 * pow256((n - 1) as nat)
    }
}

/// The unsigned number that the bytes `s` spell in big-endian order.
pub open spec fn be_value(s: Seq<u8>) -> nat
    decreases s.len(),
{
    if s.len() == 0 {
        0
    } else {
        be_value(s.drop_last()) * 256 + s.last() as nat
    }
}

/// The last `n` bytes of `x` in big-endian order.
pub open spec fn be_bytes(x: nat, n: nat) -> Seq<u8>
    decreases n,
{
    if n == 0 {
        seq![]
    } else {
        be_bytes(x / 256, (n - 1) as nat).push((x % 256) as u8)
    }
}

pub proof fn lemma_pow256_facts(n: nat)
    ensures
        pow256(n) >= 1,
        n <= 8 ==> pow256(n) <= pow256(8),
        pow256(1) == 256,
        pow256(2) == 0x1_0000,
        pow256(4) == 0x1_0000_0000,
        pow256(8) == 0x1_0000_0000_0000_0000,
    decreases n,
{
    reveal_with_fuel(pow256, 9);
    if n > 0 {
        lemma_pow256_facts((n - 1) as nat);
    }
    if n <= 8 {
        lemma_pow256_mono(n, 8);
    }
}

pub proof fn lemma_pow256_mono(a: nat, b: nat)
    requires
        a <= b,
    ensures
        pow256(a) <= pow256(b),
    decreases b,
{
    if a < b {
        lemma_pow256_mono(a, (b - 1) as nat);
        assert(pow256((b - 1) as nat) >= 1) by {
            lemma_pow256_pos((b - 1) as nat);
        }
    }
}

pub proof fn lemma_pow256_pos(n: nat)
    ensures
        pow256(n) >= 1,
    decreases n,
{
    if n > 0 {
        lemma_pow256_pos((n - 1) as nat);
    }
}

pub proof fn lemma_be_value_bound(s: Seq<u8>)
    ensures
        be_value(s) < pow256(s.len()),
    decreases s.len(),
{
    if s.len() > 0 {
        lemma_be_value_bound(s.drop_last());
        let v = be_value(s.drop_last());
        let p = pow256((s.len() - 1) as nat);
        assert(v * 256 + (s.last() as nat) < 256 * p) by (nonlinear_arith)
            requires
                v < p,
                s.last() < 256,
        ;
    }
}

pub proof fn lemma_be_bytes_len(x: nat, n: nat)
    ensures
        be_bytes(x, n).len() == n,
    decreases n,
{
    if n > 0 {
        lemma_be_bytes_len(x / 256, (n - 1) as nat);
    }
}

/// Reading back `n` bytes written for `x` gives `x` whenever it fits.
pub proof fn lemma_be_round_trip(x: nat, n: nat)
    requires
        x < pow256(n),
    ensures
        be_value(be_bytes(x, n)) == x,
        be_bytes(x, n).len() == n,
    decreases n,
{
    lemma_be_bytes_len(x, n);
    if n > 0 {
        let p = pow256((n - 1) as nat);
        assert(x / 256 < p) by (nonlinear_arith)
            requires
                x < 256 * p,
        ;
        lemma_be_round_trip(x / 256, (n - 1) as nat);
        let s = be_bytes(x, n);
        assert(s.drop_last() =~= be_bytes(x / 256, (n - 1) as nat));
        assert((x / 256) * 256 + x % 256 == x) by (nonlinear_arith);
    }
}

/// The UTF-8 bytes of a text.
pub open spec fn utf8(s: Seq<char>) -> Seq<u8> {
    encode_utf8(s)
}

/// Reads the `n`-byte big-endian number that starts at `pos`.
pub fn read_be(bytes: &[u8], pos: usize, n: usize) -> (r: u64)
    requires
        n <= 8,
        pos + n <= bytes@.len(),
    ensures
        r as nat == be_value(bytes@.subrange(pos as int, pos + n)),
{
    let total = bytes.len();
    let mut v: u64 = 0;
    let mut i: usize = 0;
    while i < n
        invariant
            n <= 8,
            total == bytes@.len(),
            pos + n <= bytes@.len(),
            i <= n,
            v as nat == be_value(bytes@.subrange(pos as int, pos + i)),
        decreases n - i,
    {
        let b = bytes[pos + i];
        proof {
            let s = bytes@.subrange(pos as int, pos + i + 1);
            assert(s.drop_last() =~= bytes@.subrange(pos as int, pos + i));
            lemma_be_value_bound(bytes@.subrange(pos as int, pos + i));
            lemma_pow256_mono((i + 1) as nat, 8);
            lemma_pow256_facts(8);
            let p = pow256(i as nat);
            assert((v as nat) * 256 + (b as nat) < 256 * p) by (nonlinear_arith)
                requires
                    (v as nat) < p,
                    b < 256,
            ;
            assert(pow256((i + 1) as nat) == 256 * p);
        }
        v = v * 256 + b as u64;
        i = i + 1;
    }
    v
}

/// Appends the `n`-byte big-endian form of `x`.
pub fn push_be(out: &mut Vec<u8>, x: u64, n: usize)
    requires
        n <= 8,
    ensures
        final(out)@ == old(out)@ + be_bytes(x as nat, n as nat),
    decreases n,
{
    if n == 0 {
        assert(old(out)@ + be_bytes(x as nat, 0) =~= old(out)@);
        return;
    }
    push_be(out, x / 256, n - 1);
    out.push((x % 256) as u8);
    assert(final(out)@ =~= old(out)@ + be_bytes(x as nat, n as nat));
}

/// The bytes of `bytes` from `i` on.
pub fn tail(bytes: &[u8], i: usize) -> (r: &[u8])
    requires
        i <= bytes@.len(),
    ensures
        r@ == bytes@.skip(i as int),
{
    let (_, r) = bytes.split_at(i);
    assert(r@ =~= bytes@.skip(i as int));
    r
}

/// Appends the bytes of `src`.
pub fn push_all(out: &mut Vec<u8>, src: &[u8])
    ensures
        final(out)@ == old(out)@ + src@,
{
    let mut i: usize = 0;
    while i < src.len()
        invariant
            i <= src@.len(),
            out@ == old(out)@ + src@.subrange(0, i as int),
        decreases src@.len() - i,
    {
        out.push(src[i]);
        i = i + 1;
        assert(out@ =~= old(out)@ + src@.subrange(0, i as int));
    }
    assert(src@.subrange(0, src@.len() as int) =~= src@);
}

} // verus!
