use vstd::prelude::*;
use crate::generator::{
    gen_step, gen_wf, phase_den, table_wf, wave_value, Generator, AMP_ONE, MAX_RATE, WAVE_ONE,
};

verus! {

/// The clip level of a mixed channel: one full-scale generator at full volume.
pub const CLIP_MAX: i64 = 32768000;

/// A generator's contribution to the left (or right) channel of the current frame:
/// its waveform value scaled by that channel's amplitude, or nothing when it is
/// muted or was never initialized.
pub open spec fn voice_level(g: Generator, den: nat, table: Seq<i32>, right: bool) -> int {
    if g.initialized && !g.muted {
        wave_value(g, den, table) * (if right { g.r_amp as int } else { g.l_amp as int })
    } else {
        0
    }
}

/// The sum of the contributions of all generators of `bank` to one channel.
pub open spec fn mix_sum(bank: Seq<Generator>, den: nat, table: Seq<i32>, right: bool) -> int
    decreases bank.len(),
{
    if bank.len() == 0 {
        0
    } else {
        mix_sum(bank.drop_last(), den, table, right) + voice_level(bank.last(), den, table, right)
    }
}

/// Hard clip of a mixed sum to `[-CLIP_MAX, CLIP_MAX]`.
pub open spec fn clip(s: int) -> int {
    if s > CLIP_MAX {
        CLIP_MAX as int
    } else if s < -CLIP_MAX {
        -CLIP_MAX
    } else {
        s
    }
}

/// The output bit depths the mixer can produce.
pub open spec fn bitdepth_ok(bitdepth: nat) -> bool {
    bitdepth == 8 || bitdepth == 16 || bitdepth == 24 || bitdepth == 32
}

/// The largest sample value at a bit depth: `2^(bitdepth - 1) - 1`.
pub open spec fn full_scale(bitdepth: nat) -> int {
    if bitdepth == 8 {
        127
    } else if bitdepth == 16 {
        32767
    } else if bitdepth == 24 {
        8388607
    } else {
        2147483647
    }
}

/// A clipped sum mapped to the integer range of the bit depth, rounding toward zero.
pub open spec fn scale(c: int, bitdepth: nat) -> int {
    if c >= 0 {
        (c * full_scale(bitdepth)) / (CLIP_MAX as int)
    } else {
        -(((-c) * full_scale(bitdepth)) / (CLIP_MAX as int))
    }
}

/// The output sample of one channel for the bank's current state.
pub open spec fn channel_out(
    bank: Seq<Generator>,
    den: nat,
    table: Seq<i32>,
    bitdepth: nat,
    right: bool,
) -> int {
    scale(clip(mix_sum(bank, den, table, right)), bitdepth)
}

/// One interleaved output frame: the left channel alone for mono, left then right for stereo.
pub open spec fn frame_of(
    bank: Seq<Generator>,
    den: nat,
    table: Seq<i32>,
    bitdepth: nat,
    channels: nat,
) -> Seq<i32> {
    if channels == 1 {
        seq![channel_out(bank, den, table, bitdepth, false) as i32]
    } else {
        seq![
            channel_out(bank, den, table, bitdepth, false) as i32,
            channel_out(bank, den, table, bitdepth, true) as i32,
        ]
    }
}

/// Every generator of the bank after one frame.
pub open spec fn bank_step(bank: Seq<Generator>, den: nat) -> Seq<Generator> {
    Seq::new(bank.len(), |i: int| gen_step(bank[i], den))
}

/// The bank after `n` frames.
pub open spec fn bank_steps(bank: Seq<Generator>, den: nat, n: nat) -> Seq<Generator>
    decreases n,
{
    if n == 0 {
        bank
    } else {
        bank_step(bank_steps(bank, den, (n - 1) as nat), den)
    }
}

/// The interleaved output of `n` frames, starting from `bank`.
pub open spec fn render_of(
    bank: Seq<Generator>,
    den: nat,
    table: Seq<i32>,
    bitdepth: nat,
    channels: nat,
    n: nat,
) -> Seq<i32>
    decreases n,
{
    if n == 0 {
        seq![]
    } else {
        render_of(bank, den, table, bitdepth, channels, (n - 1) as nat) + frame_of(
            bank_steps(bank, den, (n - 1) as nat),
            den,
            table,
            bitdepth,
            channels,
        )
    }
}

/// A well-formed bank: each generator well-formed.
pub open spec fn bank_wf(bank: Seq<Generator>, den: nat) -> bool {
    forall|i: int| 0 <= i < bank.len() ==> gen_wf(#[trigger] bank[i], den)
}

/// One generator's contribution to a channel.
pub fn voice_level_of(g: &Generator, den: u64, table: &Vec<i32>, right: bool) -> (r: i64)
    requires
        0 < den <= phase_den(MAX_RATE as nat),
        gen_wf(*g, den as nat),
        table_wf(table@),
    ensures
        r == voice_level(*g, den as nat, table@, right),
        -CLIP_MAX <= r <= CLIP_MAX,
{
    if g.initialized && !g.muted {
        let v = g.wave_value(den, table);
        let a: i64 = if right { g.r_amp as i64 } else { g.l_amp as i64 };
        proof {
            assert(-CLIP_MAX <= v * a <= CLIP_MAX) by (nonlinear_arith)
                requires -WAVE_ONE <= v <= WAVE_ONE, 0 <= a <= AMP_ONE;
        }
        v * a
    } else {
        0
    }
}

/// The unclipped sum of all contributions of `bank` to one channel.
pub fn mix_channel(bank: &Vec<Generator>, den: u64, table: &Vec<i32>, right: bool) -> (r: i128)
    requires
        0 < den <= phase_den(MAX_RATE as nat),
        bank_wf(bank@, den as nat),
        table_wf(table@),
    ensures
        r == mix_sum(bank@, den as nat, table@, right),
{
    let mut acc: i128 = 0;
    let mut i: usize = 0;
    while i < bank.len()
        invariant
            i <= bank@.len(),
            0 < den <= phase_den(MAX_RATE as nat),
            bank_wf(bank@, den as nat),
            table_wf(table@),
            acc == mix_sum(bank@.subrange(0, i as int), den as nat, table@, right),
            -CLIP_MAX * i <= acc <= CLIP_MAX * i,
        decreases bank.len() - i,
    {
        let c = voice_level_of(&bank[i], den, table, right);
        proof {
            let s = bank@.subrange(0, i + 1);
            assert(s.drop_last() == bank@.subrange(0, i as int));
            assert(s.last() == bank@[i as int]);
            assert(-CLIP_MAX * (i + 1) <= acc + c <= CLIP_MAX * (i + 1)) by (nonlinear_arith)
                requires
                    -CLIP_MAX * i <= acc <= CLIP_MAX * i,
                    -CLIP_MAX <= c <= CLIP_MAX;
            assert(i < usize::MAX);
            assert(CLIP_MAX * (i + 1) <= 32768000 * 0x1_0000_0000_0000_0000);
            assert(-CLIP_MAX * (i + 1) >= -32768000 * 0x1_0000_0000_0000_0000);
        }
        acc = acc + c as i128;
        i = i + 1;
    }
    assert(bank@.subrange(0, bank@.len() as int) == bank@);
    acc
}

/// Hard clip of a mixed sum.
pub fn clip_sum(s: i128) -> (r: i64)
    ensures
        r == clip(s as int),
{
    if s > CLIP_MAX as i128 {
        CLIP_MAX
    } else if s < -CLIP_MAX as i128 {
        -CLIP_MAX
    } else {
        s as i64
    }
}

/// The largest sample value at a supported bit depth.
pub fn full_scale_of(bitdepth: u32) -> (r: i64)
    requires
        bitdepth_ok(bitdepth as nat),
    ensures
        r == full_scale(bitdepth as nat),
{
    if bitdepth == 8 {
        127
    } else if bitdepth == 16 {
        32767
    } else if bitdepth == 24 {
        8388607
    } else {
        2147483647
    }
}

/// Maps a clipped sum to the integer sample range of the bit depth.
pub fn scale_to_depth(c: i64, bitdepth: u32) -> (r: i32)
    requires
        -CLIP_MAX <= c <= CLIP_MAX,
        bitdepth_ok(bitdepth as nat),
    ensures
        r == scale(c as int, bitdepth as nat),
        -full_scale(bitdepth as nat) <= r <= full_scale(bitdepth as nat),
{
    let fs = full_scale_of(bitdepth);
    let m: i64 = if c >= 0 { c } else { -c };
    proof {
        assert(0 <= m * fs <= CLIP_MAX * fs) by (nonlinear_arith)
            requires 0 <= m <= CLIP_MAX, 0 < fs;
        assert(CLIP_MAX * fs == fs * CLIP_MAX) by (nonlinear_arith);
        vstd::arithmetic::div_mod::lemma_multiply_divide_le(m * fs, CLIP_MAX as int, fs as int);
        vstd::arithmetic::div_mod::lemma_div_pos_is_pos(m * fs, CLIP_MAX as int);
    }
    let q = (m * fs) / CLIP_MAX;
    if c >= 0 {
        q as i32
    } else {
        -(q as i32)
    }
}

/// The output sample of one channel.
pub fn channel_sample(
    bank: &Vec<Generator>,
    den: u64,
    table: &Vec<i32>,
    bitdepth: u32,
    right: bool,
) -> (r: i32)
    requires
        0 < den <= phase_den(MAX_RATE as nat),
        bank_wf(bank@, den as nat),
        table_wf(table@),
        bitdepth_ok(bitdepth as nat),
    ensures
        r == channel_out(bank@, den as nat, table@, bitdepth as nat, right),
{
    let s = mix_channel(bank, den, table, right);
    let c = clip_sum(s);
    scale_to_depth(c, bitdepth)
}

/// The interleaved output frame for the bank's current state.
pub fn mix_frame_of(
    bank: &Vec<Generator>,
    den: u64,
    table: &Vec<i32>,
    bitdepth: u32,
    channels: u32,
) -> (r: Vec<i32>)
    requires
        0 < den <= phase_den(MAX_RATE as nat),
        bank_wf(bank@, den as nat),
        table_wf(table@),
        bitdepth_ok(bitdepth as nat),
        channels == 1 || channels == 2,
    ensures
        r@ == frame_of(bank@, den as nat, table@, bitdepth as nat, channels as nat),
{
    let mut out: Vec<i32> = Vec::new();
    let left = channel_sample(bank, den, table, bitdepth, false);
    out.push(left);
    if channels == 2 {
        let right = channel_sample(bank, den, table, bitdepth, true);
        out.push(right);
    }
    proof {
        let f = frame_of(bank@, den as nat, table@, bitdepth as nat, channels as nat);
        assert(out@ =~= f);
    }
    out
}

/// Advances every generator of the bank by one frame.
pub fn step_bank(bank: &mut Vec<Generator>, den: u64)
    requires
        0 < den <= phase_den(MAX_RATE as nat),
        bank_wf(old(bank)@, den as nat),
    ensures
        final(bank)@ == bank_step(old(bank)@, den as nat),
        bank_wf(final(bank)@, den as nat),
{
    let n = bank.len();
    let mut i: usize = 0;
    while i < n
        invariant
            i <= n,
            n == bank@.len(),
            n == old(bank)@.len(),
            0 < den <= phase_den(MAX_RATE as nat),
            bank_wf(old(bank)@, den as nat),
            forall|j: int| 0 <= j < i ==> bank@[j] == gen_step(old(bank)@[j], den as nat),
            forall|j: int| i <= j < n ==> bank@[j] == old(bank)@[j],
        decreases n - i,
    {
        bank[i].step(den);
        i = i + 1;
    }
    assert(bank@ =~= bank_step(old(bank)@, den as nat));
    proof {
        lemma_bank_step_wf(old(bank)@, den as nat);
    }
}

/// A step keeps every generator of a well-formed bank well-formed.
pub proof fn lemma_bank_step_wf(bank: Seq<Generator>, den: nat)
    requires
        0 < den,
        bank_wf(bank, den),
    ensures
        bank_wf(bank_step(bank, den), den),
{
    assert forall|i: int| 0 <= i < bank.len() implies gen_wf(
        #[trigger] bank_step(bank, den)[i],
        den,
    ) by {
        assert(gen_wf(bank[i], den));
    }
}

} // verus!
