use vstd::prelude::*;

verus! {

/// `256^k`.
pub open spec fn pow256(k: nat) -> nat
    decreases k,
{
    if k == 0 {
        1
    } else {
        256 * pow256((k - 1) as nat)
    }
}

/// The powers of 256 that a 32-bit sample needs.
proof fn lemma_pow256_small()
    ensures
        pow256(0) == 1,
        pow256(1) == 256,
        pow256(2) == 65536,
        pow256(3) == 16777216,
{
    assert(pow256(0) == 1);
    assert(pow256(1) == 256);
    assert(pow256(2) == 65536);
    assert(pow256(3) == 16777216);
}

/// Byte `k` (least significant first) of the 32-bit two's-complement form of `v`.
pub open spec fn byte_of(v: i32, k: nat) -> u8 {
    (((v as int % 0x1_0000_0000) / (pow256(k) as int)) % 256) as u8
}

/// The `n` low bytes of `v`, little-endian.
pub open spec fn sample_bytes(v: i32, n: nat) -> Seq<u8> {
    Seq::new(n, |k: int| byte_of(v, k as nat))
}

/// Interleaved samples laid out as little-endian PCM of `n` bytes per sample.
pub open spec fn pcm_bytes(samples: Seq<i32>, n: nat) -> Seq<u8>
    decreases samples.len(),
{
    if samples.len() == 0 {
        seq![]
    } else {
        pcm_bytes(samples.drop_last(), n) + sample_bytes(samples.last(), n)
    }
}

/// Lays out samples as little-endian signed PCM, `bitdepth / 8` bytes each, as an
/// output device takes them.
pub fn encode_pcm(samples: &Vec<i32>, bitdepth: u32) -> (r: Vec<u8>)
    requires
        bitdepth == 8 || bitdepth == 16 || bitdepth == 24 || bitdepth == 32,
    ensures
        r@ == pcm_bytes(samples@, (bitdepth / 8) as nat),
{
    let n: u32 = bitdepth / 8;
    let mut out: Vec<u8> = Vec::new();
    let mut i: usize = 0;
    while i < samples.len()
        invariant
            i <= samples@.len(),
            n == bitdepth / 8,
            1 <= n <= 4,
            out@ == pcm_bytes(samples@.subrange(0, i as int), n as nat),
        decreases samples.len() - i,
    {
        let v = samples[i];
        let u: u64 = ((v as i64 + 0x1_0000_0000) % 0x1_0000_0000) as u64;
        proof {
            assert(u == v as int % 0x1_0000_0000);
            let s = samples@.subrange(0, i + 1);
            assert(s.drop_last() == samples@.subrange(0, i as int));
            assert(s.last() == v);
        }
        let ghost before = out@;
        let mut k: u32 = 0;
        let mut div: u64 = 1;
        while k < n
            invariant
                k <= n,
                1 <= n <= 4,
                k < n ==> div == pow256(k as nat),
                u == v as int % 0x1_0000_0000,
                out@ == before + sample_bytes(v, k as nat),
            decreases n - k,
        {
            proof {
                lemma_pow256_small();
            }
            assert(pow256((k + 1) as nat) == 256 * pow256(k as nat));
            out.push(((u / div) % 256) as u8);
            assert(out@ =~= before + sample_bytes(v, (k + 1) as nat));
            if k + 1 < n {
                div = div * 256;
            }
            k = k + 1;
        }
        i = i + 1;
    }
    assert(samples@.subrange(0, samples@.len() as int) == samples@);
    out
}

} // verus!
