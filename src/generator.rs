use vstd::prelude::*;

verus! {

/// Full scale of a waveform value: every generator outputs a value in `[-WAVE_ONE, WAVE_ONE]`.
pub const WAVE_ONE: i64 = 32768;

/// Unit of amplitude: `AMP_ONE` is full volume (amplitudes are per-mille).
pub const AMP_ONE: u32 = 1000;

/// Unit of the square-wave duty cycle (duty is per-mille of a cycle).
pub const DUTY_ONE: u32 = 1000;

/// Millihertz per hertz: frequencies are held in millihertz.
pub const MHZ_PER_HZ: u64 = 1000;

/// Largest accepted sample rate, in frames per second: the rate is held in a `u32`.
pub const MAX_RATE: u32 = 4294967295;

/// Largest accepted number of entries of the sine table.
pub const MAX_TABLE: usize = 65536;

/// The synthesis algorithm of a generator.
#[allow(non_camel_case_types)]
#[derive(Clone, Copy, Debug, PartialEq, Eq, Structural)]
pub enum poly_wavetype {
    poly_sine,
    poly_square,
    poly_saw,
    poly_triangle,
    poly_sample,
    poly_loopsample,
}

/// One synthesis voice.
///
/// `freq` is in millihertz. `phase` is the position within the cycle, counted in
/// `1 / phase_den(rate)` of a cycle, where `phase_den(rate) = 1000 * rate`: advancing
/// by `freq` each frame is then exact. Amplitudes and duty are per-mille.
/// `position` is the playback position (in samples) of a sample-backed voice.
pub struct Generator {
    pub initialized: bool,
    pub wave_type: poly_wavetype,
    pub freq: u32,
    pub phase: u64,
    pub l_amp: u32,
    pub r_amp: u32,
    pub duty: u32,
    pub muted: bool,
    pub sample: Vec<u8>,
    pub sample_bitdepth: u32,
    pub sample_length: u32,
    pub position: u32,
}

/// Number of phase units in one cycle at sample rate `rate`.
pub open spec fn phase_den(rate: nat) -> nat {
    (MHZ_PER_HZ as nat) * rate
}

/// A well-formed generator for phase denominator `den`.
pub open spec fn gen_wf(g: Generator, den: nat) -> bool {
    &&& g.phase < den
    &&& g.l_amp <= AMP_ONE
    &&& g.r_amp <= AMP_ONE
    &&& 0 < g.duty < DUTY_ONE
}

/// A well-formed sine table: non-empty, bounded in length, entries within full scale.
pub open spec fn table_wf(table: Seq<i32>) -> bool {
    &&& 0 < table.len() <= MAX_TABLE
    &&& forall|k: int| 0 <= k < table.len() ==> -WAVE_ONE <= #[trigger] table[k] <= WAVE_ONE
}

/// Whether the wave type plays a sample buffer.
pub open spec fn is_sample_type(w: poly_wavetype) -> bool {
    w == poly_wavetype::poly_sample || w == poly_wavetype::poly_loopsample
}

/// The playback position after one frame.
pub open spec fn next_position(g: Generator) -> u32 {
    if g.wave_type == poly_wavetype::poly_sample {
        if g.position < g.sample_length { (g.position + 1) as u32 } else { g.position }
    } else if g.wave_type == poly_wavetype::poly_loopsample {
        if g.position + 1 < g.sample_length { (g.position + 1) as u32 } else { 0 }
    } else {
        g.position
    }
}

/// The generator after one frame: the phase advances by `freq` and wraps, a
/// sample-backed voice moves one sample on. Mute state plays no part.
pub open spec fn gen_step(g: Generator, den: nat) -> Generator {
    Generator { phase: ((g.phase + g.freq) % (den as int)) as u64, position: next_position(g), ..g }
}

/// The sample buffer's value at the current playback position, scaled to full scale.
/// 8-bit samples are unsigned, 16-bit samples signed little-endian; any other
/// bit depth, or a position past the length or the buffer, is silent.
pub open spec fn sample_value(g: Generator) -> int {
    let pos = g.position as int;
    if pos >= g.sample_length {
        0
    } else if g.sample_bitdepth == 8 {
        if pos < g.sample@.len() { (g.sample@[pos] - 128) * 256 } else { 0 }
    } else if g.sample_bitdepth == 16 {
        if 2 * pos + 1 < g.sample@.len() {
            let u = g.sample@[2 * pos] + 256 * g.sample@[2 * pos + 1];
            if u >= 32768 { u - 65536 } else { u }
        } else {
            0
        }
    } else {
        0
    }
}

/// The waveform value of `g` at its current phase and position.
///
/// Sine reads the table at the phase. Square follows the duty cycle as the
/// fraction of each cycle spent high: `+WAVE_ONE` while `phase < duty`, `-WAVE_ONE`
/// for the rest of the cycle. Saw ramps linearly from `-WAVE_ONE` to `+WAVE_ONE`;
/// triangle rises over the first half-cycle and falls over the second.
/// Sample-backed types read the buffer at the playback position.
pub open spec fn wave_value(g: Generator, den: nat, table: Seq<i32>) -> int {
    let p = g.phase as int;
    let w = WAVE_ONE as int;
    match g.wave_type {
        poly_wavetype::poly_sine => table[(p * table.len()) / (den as int)] as int,
        poly_wavetype::poly_square => if p * DUTY_ONE < g.duty * den { w } else { -w },
        poly_wavetype::poly_saw => (2 * w * p) / (den as int) - w,
        poly_wavetype::poly_triangle => if 2 * p < den {
            (4 * w * p) / (den as int) - w
        } else {
            3 * w - (4 * w * p) / (den as int)
        },
        _ => sample_value(g),
    }
}

/// The generator after `n` frames.
pub open spec fn gen_steps(g: Generator, den: nat, n: nat) -> Generator
    decreases n,
{
    if n == 0 {
        g
    } else {
        gen_step(gen_steps(g, den, (n - 1) as nat), den)
    }
}

/// `g` with its mute flag set to `m`.
pub open spec fn with_muted(g: Generator, m: bool) -> Generator {
    Generator { muted: m, ..g }
}

/// `g` with frequency `f`.
pub open spec fn with_freq(g: Generator, f: u32) -> Generator {
    Generator { freq: f, ..g }
}

/// An amplitude held to `[0, AMP_ONE]`.
pub open spec fn clamp_amp(a: u32) -> u32 {
    if a > AMP_ONE { AMP_ONE } else { a }
}

/// A duty cycle held to the open interval `(0, DUTY_ONE)`.
pub open spec fn clamp_duty(d: u32) -> u32 {
    if d == 0 {
        1
    } else if d >= DUTY_ONE {
        (DUTY_ONE - 1) as u32
    } else {
        d
    }
}

/// A frequency moved by `delta` millihertz, saturating at `0` and `u32::MAX`.
pub open spec fn bumped(f: u32, delta: i64) -> u32 {
    let s = f + delta;
    if s < 0 {
        0
    } else if s > u32::MAX {
        u32::MAX
    } else {
        s as u32
    }
}

/// `g` as `init_generator` leaves it: the given wave type, amplitude on both
/// channels and frequency, phase 0, duty one half, marked initialized.
pub open spec fn initialized_gen(g: Generator, w: poly_wavetype, amplitude: u32, freq: u32) -> Generator {
    Generator {
        initialized: true,
        wave_type: w,
        freq: freq,
        phase: 0,
        l_amp: clamp_amp(amplitude),
        r_amp: clamp_amp(amplitude),
        duty: DUTY_ONE / 2,
        ..g
    }
}

/// A fresh, silent and uninitialized generator.
pub open spec fn is_default_gen(g: Generator) -> bool {
    &&& !g.initialized
    &&& g.wave_type == poly_wavetype::poly_sine
    &&& g.freq == 0
    &&& g.phase == 0
    &&& g.l_amp == 0
    &&& g.r_amp == 0
    &&& g.duty == DUTY_ONE / 2
    &&& !g.muted
    &&& g.sample@.len() == 0
    &&& g.sample_bitdepth == 16
    &&& g.sample_length == 0
    &&& g.position == 0
}

impl Generator {
    /// A fresh generator: uninitialized, silent, phase 0, duty one half.
    pub fn new() -> (g: Generator)
        ensures
            is_default_gen(g),
    {
        Generator {
            initialized: false,
            wave_type: poly_wavetype::poly_sine,
            freq: 0,
            phase: 0,
            l_amp: 0,
            r_amp: 0,
            duty: DUTY_ONE / 2,
            muted: false,
            sample: Vec::new(),
            sample_bitdepth: 16,
            sample_length: 0,
            position: 0,
        }
    }

    /// Advances this generator by one frame.
    pub fn step(&mut self, den: u64)
        requires
            0 < den <= phase_den(MAX_RATE as nat),
            old(self).phase < den,
        ensures
            *final(self) == gen_step(*old(self), den as nat),
    {
        self.phase = (self.phase + self.freq as u64) % den;
        if self.wave_type == poly_wavetype::poly_sample {
            if self.position < self.sample_length {
                self.position = self.position + 1;
            }
        } else if self.wave_type == poly_wavetype::poly_loopsample {
            if self.position < self.sample_length && self.position + 1 < self.sample_length {
                self.position = self.position + 1;
            } else {
                self.position = 0;
            }
        }
    }

    /// The sample buffer's value at the current playback position.
    pub fn sample_value(&self) -> (r: i64)
        ensures
            r == sample_value(*self),
            -WAVE_ONE <= r <= WAVE_ONE,
    {
        if self.position >= self.sample_length {
            0
        } else if self.sample_bitdepth == 8 {
            let pos = self.position as usize;
            if pos < self.sample.len() {
                (self.sample[pos] as i64 - 128) * 256
            } else {
                0
            }
        } else if self.sample_bitdepth == 16 {
            let pos = self.position as u64;
            if 2 * pos + 1 < self.sample.len() as u64 {
                let lo = self.sample[(2 * pos) as usize] as i64;
                let hi = self.sample[(2 * pos + 1) as usize] as i64;
                let u = lo + 256 * hi;
                if u >= 32768 {
                    u - 65536
                } else {
                    u
                }
            } else {
                0
            }
        } else {
            0
        }
    }

    /// The waveform value at the current phase, using `table` as one cycle of sine.
    pub fn wave_value(&self, den: u64, table: &Vec<i32>) -> (r: i64)
        requires
            0 < den <= phase_den(MAX_RATE as nat),
            gen_wf(*self, den as nat),
            table_wf(table@),
        ensures
            r == wave_value(*self, den as nat, table@),
            -WAVE_ONE <= r <= WAVE_ONE,
    {
        let p = self.phase;
        let w: u64 = WAVE_ONE as u64;
        proof {
            lemma_phase_fraction(p as int, den as int, table@.len() as int);
            lemma_phase_fraction(p as int, den as int, 2 * WAVE_ONE);
            lemma_phase_fraction(p as int, den as int, 4 * WAVE_ONE);
            assert(p * (table@.len() as int) <= den * MAX_TABLE) by (nonlinear_arith)
                requires p < den, table@.len() <= MAX_TABLE;
            assert(4 * (w as int) * p <= 4 * WAVE_ONE * den) by (nonlinear_arith)
                requires p < den, w == WAVE_ONE;
            assert(p * DUTY_ONE <= den * DUTY_ONE) by (nonlinear_arith) requires p < den;
            assert(self.duty * den <= den * DUTY_ONE) by (nonlinear_arith)
                requires self.duty < DUTY_ONE;
        }
        match self.wave_type {
            poly_wavetype::poly_sine => {
                let k = ((p * table.len() as u64) / den) as usize;
                let v = table[k];
                assert(-WAVE_ONE <= table@[k as int] <= WAVE_ONE);
                v as i64
            },
            poly_wavetype::poly_square => {
                if p * (DUTY_ONE as u64) < (self.duty as u64) * den {
                    WAVE_ONE
                } else {
                    -WAVE_ONE
                }
            },
            poly_wavetype::poly_saw => ((2 * w * p) / den) as i64 - WAVE_ONE,
            poly_wavetype::poly_triangle => {
                if 2 * p < den {
                    proof {
                        assert(4 * WAVE_ONE * p < den * (2 * WAVE_ONE)) by (nonlinear_arith)
                            requires 2 * p < den;
                        vstd::arithmetic::div_mod::lemma_multiply_divide_lt(
                            4 * WAVE_ONE * p,
                            den as int,
                            2 * WAVE_ONE,
                        );
                    }
                    ((4 * w * p) / den) as i64 - WAVE_ONE
                } else {
                    proof {
                        assert(2 * WAVE_ONE * den <= 4 * WAVE_ONE * p) by (nonlinear_arith)
                            requires 2 * p >= den;
                        vstd::arithmetic::div_mod::lemma_div_multiples_vanish(
                            2 * WAVE_ONE,
                            den as int,
                        );
                        vstd::arithmetic::div_mod::lemma_div_is_ordered(
                            2 * WAVE_ONE * den,
                            4 * WAVE_ONE * p,
                            den as int,
                        );
                        assert(2 * WAVE_ONE * den == (2 * WAVE_ONE) * den) by (nonlinear_arith);
                    }
                    3 * WAVE_ONE - ((4 * w * p) / den) as i64
                }
            },
            _ => self.sample_value(),
        }
    }
}

/// An amplitude held to `[0, AMP_ONE]`.
pub fn clamp_amplitude(a: u32) -> (r: u32)
    ensures
        r == clamp_amp(a),
{
    if a > AMP_ONE {
        AMP_ONE
    } else {
        a
    }
}

/// A duty cycle held to `(0, DUTY_ONE)`.
pub fn clamp_duty_cycle(d: u32) -> (r: u32)
    ensures
        r == clamp_duty(d),
{
    if d == 0 {
        1
    } else if d >= DUTY_ONE {
        DUTY_ONE - 1
    } else {
        d
    }
}

/// A frequency moved by `delta`, saturating at both ends of `u32`.
pub fn bump(f: u32, delta: i64) -> (r: u32)
    ensures
        r == bumped(f, delta),
{
    let f = f as i64;
    if delta < 0 && f + delta < 0 {
        0
    } else if delta > 0 && delta > u32::MAX as i64 - f {
        u32::MAX
    } else {
        (f + delta) as u32
    }
}

/// For a phase `p < den` and a positive scale `c`, `(c * p) / den` lies in `[0, c)`.
pub proof fn lemma_phase_fraction(p: int, den: int, c: int)
    requires
        0 <= p < den,
        0 < c,
    ensures
        0 <= (c * p) / den < c,
        0 <= (p * c) / den < c,
{
    assert(c * p < den * c) by (nonlinear_arith)
        requires p < den, 0 < c;
    assert(0 <= c * p) by (nonlinear_arith)
        requires 0 <= p, 0 < c;
    assert(p * c == c * p) by (nonlinear_arith);
    vstd::arithmetic::div_mod::lemma_multiply_divide_lt(c * p, den, c);
    vstd::arithmetic::div_mod::lemma_div_pos_is_pos(c * p, den);
}

} // verus!
