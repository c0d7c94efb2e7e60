use vstd::prelude::*;
use crate::engine::{start_outcome, stop_state, EngineState, Poly, PolyError};
use crate::generator::{gen_steps, poly_wavetype, wave_value, with_freq, with_muted, Generator};
use crate::mixer::{bank_step, bank_steps, clip, mix_sum, voice_level, CLIP_MAX};

verus! {

/// `bank` with the mute flag of generator `i` set to `m`.
pub open spec fn muted_at(bank: Seq<Generator>, i: int, m: bool) -> Seq<Generator> {
    bank.update(i, with_muted(bank[i], m))
}

/// After `n` frames, generator `i` of the bank is generator `i` stepped `n` times.
pub proof fn lemma_bank_steps_index(bank: Seq<Generator>, den: nat, n: nat, i: int)
    requires
        0 <= i < bank.len(),
    ensures
        bank_steps(bank, den, n).len() == bank.len(),
        bank_steps(bank, den, n)[i] == gen_steps(bank[i], den, n),
    decreases n,
{
    if n > 0 {
        lemma_bank_steps_index(bank, den, (n - 1) as nat, i);
    }
}

/// Stepping never changes whether a generator is muted, its wave type or its frequency.
pub proof fn lemma_steps_keep_settings(g: Generator, den: nat, n: nat)
    ensures
        gen_steps(g, den, n).muted == g.muted,
        gen_steps(g, den, n).wave_type == g.wave_type,
        gen_steps(g, den, n).freq == g.freq,
        gen_steps(g, den, n).initialized == g.initialized,
        gen_steps(g, den, n).l_amp == g.l_amp,
        gen_steps(g, den, n).r_amp == g.r_amp,
    decreases n,
{
    if n > 0 {
        lemma_steps_keep_settings(g, den, (n - 1) as nat);
    }
}

/// Reading the frequency back after setting it gives the value that was set.
pub proof fn lemma_freq_round_trip(
    before: Poly,
    after: Poly,
    index: isize,
    f: u32,
    r: Result<u32, PolyError>,
)
    requires
        before.in_range(index),
        Poly::set_outcome(before, after, index, Ok(()), with_freq(before.bank()[index as int], f)),
        after.get_outcome(index, r, after.bank()[index as int].freq),
    ensures
        r == Ok::<u32, PolyError>(f),
{
}

/// Muting commutes with stepping the bank: the muted generator advances exactly
/// as it would have unmuted.
pub proof fn lemma_steps_commute_mute(bank: Seq<Generator>, den: nat, i: int, m: bool, n: nat)
    requires
        0 <= i < bank.len(),
    ensures
        bank_steps(muted_at(bank, i, m), den, n) == muted_at(bank_steps(bank, den, n), i, m),
    decreases n,
{
    if n > 0 {
        let k = (n - 1) as nat;
        lemma_steps_commute_mute(bank, den, i, m, k);
        lemma_bank_steps_index(bank, den, k, i);
        let c = bank_steps(bank, den, k);
        assert(bank_step(muted_at(c, i, m), den) =~= muted_at(bank_step(c, den), i, m));
    }
}

/// Muting a generator, running `n` frames and unmuting it leaves the bank exactly
/// as running `n` frames without muting: phase and playback position carry on.
pub proof fn lemma_mute_keeps_phase(bank: Seq<Generator>, den: nat, i: int, n: nat)
    requires
        0 <= i < bank.len(),
        !bank[i].muted,
    ensures
        muted_at(bank_steps(muted_at(bank, i, true), den, n), i, false) == bank_steps(bank, den, n),
{
    lemma_steps_commute_mute(bank, den, i, true, n);
    lemma_bank_steps_index(bank, den, n, i);
    lemma_steps_keep_settings(bank[i], den, n);
    let x = bank_steps(bank, den, n);
    assert(muted_at(muted_at(x, i, true), i, false) =~= x);
}

/// A sine generator at frequency 0 keeps its phase, so its output is the same in
/// every frame: the sine table's entry at the starting phase.
pub proof fn lemma_sine_at_rest(bank: Seq<Generator>, den: nat, table: Seq<i32>, i: int, n: nat, right: bool)
    requires
        0 < den,
        0 <= i < bank.len(),
        bank[i].phase < den,
        bank[i].wave_type == poly_wavetype::poly_sine,
        bank[i].freq == 0,
    ensures
        bank_steps(bank, den, n)[i].phase == bank[i].phase,
        wave_value(bank_steps(bank, den, n)[i], den, table)
            == table[(bank[i].phase * table.len()) / (den as int)] as int,
        voice_level(bank_steps(bank, den, n)[i], den, table, right)
            == voice_level(bank[i], den, table, right),
    decreases n,
{
    lemma_bank_steps_index(bank, den, n, i);
    lemma_rest_phase(bank[i], den, n);
    lemma_steps_keep_settings(bank[i], den, n);
}

/// At frequency 0 the phase never moves.
proof fn lemma_rest_phase(g: Generator, den: nat, n: nat)
    requires
        0 < den,
        g.phase < den,
        g.freq == 0,
    ensures
        gen_steps(g, den, n).phase == g.phase,
        gen_steps(g, den, n).freq == 0,
    decreases n,
{
    if n > 0 {
        lemma_rest_phase(g, den, (n - 1) as nat);
        vstd::arithmetic::div_mod::lemma_small_mod(g.phase as nat, den);
    }
}

/// Mixing generators that each put the same non-negative level `a` on a channel
/// gives `len * a`, and the clipped result is `min(len * a, CLIP_MAX)`.
pub proof fn lemma_mix_in_phase(bank: Seq<Generator>, den: nat, table: Seq<i32>, right: bool, a: int)
    requires
        0 <= a,
        forall|i: int| 0 <= i < bank.len() ==> #[trigger] voice_level(bank[i], den, table, right) == a,
    ensures
        mix_sum(bank, den, table, right) == bank.len() * a,
        clip(mix_sum(bank, den, table, right)) == if bank.len() * a < CLIP_MAX {
            bank.len() * a
        } else {
            CLIP_MAX as int
        },
    decreases bank.len(),
{
    if bank.len() > 0 {
        let d = bank.drop_last();
        assert forall|i: int| 0 <= i < d.len() implies #[trigger] voice_level(d[i], den, table, right) == a by {
            assert(d[i] == bank[i]);
        }
        lemma_mix_in_phase(d, den, table, right, a);
        assert(voice_level(bank.last(), den, table, right) == a);
        assert(d.len() * a + a == bank.len() * a) by (nonlinear_arith)
            requires d.len() + 1 == bank.len();
    }
    assert(0 <= bank.len() * a) by (nonlinear_arith)
        requires 0 <= a;
}

/// Stopping twice is the same as stopping once.
pub proof fn lemma_stop_idempotent(s: EngineState)
    ensures
        stop_state(stop_state(s)) == stop_state(s),
{
}

/// Starting again after a stop succeeds (when the device accepts) and resumes with
/// the bank exactly as it was: same phases and playback positions.
pub proof fn lemma_restart_resumes(p0: Poly, p1: Poly, p2: Poly, r: Result<(), PolyError>)
    requires
        p0.state() != EngineState::ShutDown,
        p1.state() == stop_state(p0.state()),
        p1.bank() == p0.bank(),
        (p2.state(), r) == start_outcome(p1.state(), true),
        p2.bank() == p1.bank(),
    ensures
        r == Ok::<(), PolyError>(()),
        p2.state() == EngineState::Playing,
        p2.bank() == p0.bank(),
{
}

/// After `n` frames the phase is the starting phase advanced by `n * freq`, wrapped.
pub proof fn lemma_phase_after(g: Generator, den: nat, n: nat)
    requires
        0 < den <= u64::MAX,
        g.phase < den,
    ensures
        gen_steps(g, den, n).phase == (g.phase + n * g.freq) % (den as int),
        gen_steps(g, den, n).freq == g.freq,
    decreases n,
{
    if n == 0 {
        vstd::arithmetic::div_mod::lemma_small_mod(g.phase as nat, den);
    } else {
        let k = (n - 1) as nat;
        lemma_phase_after(g, den, k);
        lemma_steps_keep_settings(g, den, k);
        let x = g.phase + k * g.freq;
        vstd::arithmetic::div_mod::lemma_add_mod_noop_right(g.freq as int, x, den as int);
        assert(0 <= (x + g.freq) % (den as int) < den) by {
            vstd::arithmetic::div_mod::lemma_mod_bound(x + g.freq, den as int);
        }
        assert(x + g.freq == g.phase + n * g.freq) by (nonlinear_arith)
            requires x == g.phase + k * g.freq, k + 1 == n;
    }
}

/// When `n` frames advance the phase by exactly `c` whole cycles (`n * freq == c * den`),
/// the generator has completed `c` full cycles and is back at its starting phase.
pub proof fn lemma_whole_cycles(g: Generator, den: nat, n: nat, c: nat)
    requires
        0 < den <= u64::MAX,
        g.phase < den,
        n * g.freq == c * den,
    ensures
        gen_steps(g, den, n).phase == g.phase,
        (g.phase + n * g.freq) / (den as int) == c,
{
    lemma_phase_after(g, den, n);
    vstd::arithmetic::div_mod::lemma_fundamental_div_mod(g.phase + n * g.freq, den as int);
    vstd::arithmetic::div_mod::lemma_small_mod(g.phase as nat, den);
    vstd::arithmetic::div_mod::lemma_mod_multiples_vanish(c as int, g.phase as int, den as int);
    assert(c * den == den * c) by (nonlinear_arith);
    vstd::arithmetic::div_mod::lemma_div_multiples_vanish_fancy(c as int, g.phase as int, den as int);
}

/// On a well-formed engine, muting generator `i` for `n` frames and unmuting it
/// leaves the bank exactly as `n` frames without muting, and generator `i`'s phase
/// is its starting phase advanced by `n * freq`, wrapped into one cycle.
pub proof fn lemma_engine_mute_keeps_phase(p: Poly, i: int, n: nat)
    requires
        p.wf(),
        0 <= i < p.bank().len(),
        !p.bank()[i].muted,
    ensures
        muted_at(bank_steps(muted_at(p.bank(), i, true), p.den(), n), i, false)
            == bank_steps(p.bank(), p.den(), n),
        bank_steps(p.bank(), p.den(), n)[i].phase
            == (p.bank()[i].phase + n * p.bank()[i].freq) % (p.den() as int),
        bank_steps(p.bank(), p.den(), n)[i].phase < p.den(),
{
    lemma_mute_keeps_phase(p.bank(), p.den(), i, n);
    lemma_engine_phase_after(p, i, n);
}

/// On a well-formed engine, after `n` frames generator `i`'s phase is its starting
/// phase advanced by `n * freq`, wrapped: it always lies within one cycle.
pub proof fn lemma_engine_phase_after(p: Poly, i: int, n: nat)
    requires
        p.wf(),
        0 <= i < p.bank().len(),
    ensures
        bank_steps(p.bank(), p.den(), n)[i].phase
            == (p.bank()[i].phase + n * p.bank()[i].freq) % (p.den() as int),
        bank_steps(p.bank(), p.den(), n)[i].phase < p.den(),
{
    p.lemma_wf();
    lemma_bank_steps_index(p.bank(), p.den(), n, i);
    lemma_phase_after(p.bank()[i], p.den(), n);
    vstd::arithmetic::div_mod::lemma_mod_bound(
        p.bank()[i].phase + n * p.bank()[i].freq,
        p.den() as int,
    );
}

/// On a well-formed engine, a sine generator at frequency 0 keeps its phase in
/// every frame, and its output stays the sine table's entry at that phase.
pub proof fn lemma_engine_sine_at_rest(p: Poly, i: int, n: nat, right: bool)
    requires
        p.wf(),
        0 <= i < p.bank().len(),
        p.bank()[i].wave_type == poly_wavetype::poly_sine,
        p.bank()[i].freq == 0,
    ensures
        bank_steps(p.bank(), p.den(), n)[i].phase == p.bank()[i].phase,
        wave_value(bank_steps(p.bank(), p.den(), n)[i], p.den(), p.table())
            == p.table()[(p.bank()[i].phase * p.table().len()) / (p.den() as int)] as int,
        voice_level(bank_steps(p.bank(), p.den(), n)[i], p.den(), p.table(), right)
            == voice_level(p.bank()[i], p.den(), p.table(), right),
{
    p.lemma_wf();
    lemma_sine_at_rest(p.bank(), p.den(), p.table(), i, n, right);
}

/// On a well-formed engine, when `n` frames advance generator `i` by exactly `c`
/// whole cycles (`n * freq == c * den`), it has completed `c` full cycles and is
/// back at its starting phase.
pub proof fn lemma_engine_whole_cycles(p: Poly, i: int, n: nat, c: nat)
    requires
        p.wf(),
        0 <= i < p.bank().len(),
        n * p.bank()[i].freq == c * p.den(),
    ensures
        bank_steps(p.bank(), p.den(), n)[i].phase == p.bank()[i].phase,
        (p.bank()[i].phase + n * p.bank()[i].freq) / (p.den() as int) == c,
{
    p.lemma_wf();
    lemma_bank_steps_index(p.bank(), p.den(), n, i);
    lemma_whole_cycles(p.bank()[i], p.den(), n, c);
}

} // verus!
