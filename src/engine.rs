use vstd::prelude::*;
use crate::generator::{
    bumped, clamp_amp, clamp_amplitude, clamp_duty, clamp_duty_cycle, bump, gen_wf,
    initialized_gen, is_default_gen, phase_den, table_wf, with_freq, with_muted, Generator,
    poly_wavetype, DUTY_ONE, MAX_RATE, MAX_TABLE, MHZ_PER_HZ, WAVE_ONE,
};
use crate::mixer::{
    bank_step, bank_steps, bank_wf, bitdepth_ok, frame_of, mix_frame_of, render_of, step_bank,
};

verus! {

/// What can go wrong when driving the engine.
#[derive(Clone, Copy, Debug, PartialEq, Eq, Structural)]
pub enum PolyError {
    /// Bad configuration at construction.
    InitError,
    /// A generator index outside the bank.
    IndexOutOfRange,
    /// `start` while already playing.
    AlreadyPlaying,
    /// Frames asked for while not playing.
    NotPlaying,
    /// The output device refused to start.
    DeviceError,
    /// The engine has been shut down.
    ShutDown,
}

/// The playback state of an engine.
#[derive(Clone, Copy, Debug, PartialEq, Eq, Structural)]
pub enum EngineState {
    Ready,
    Playing,
    ShutDown,
}

/// The state after `stop`: playing stops, any other state stays.
pub open spec fn stop_state(s: EngineState) -> EngineState {
    if s == EngineState::Playing { EngineState::Ready } else { s }
}

/// The state and result of `start`, given whether the device accepted.
pub open spec fn start_outcome(s: EngineState, device_ok: bool) -> (EngineState, Result<(), PolyError>) {
    match s {
        EngineState::Playing => (s, Err(PolyError::AlreadyPlaying)),
        EngineState::ShutDown => (s, Err(PolyError::ShutDown)),
        EngineState::Ready => if device_ok {
            (EngineState::Playing, Ok(()))
        } else {
            (s, Err(PolyError::DeviceError))
        },
    }
}

/// The parameters that `Poly::new` accepts.
pub open spec fn config_ok(bitdepth: int, channels: int, bitrate: int, max: int, table: Seq<i32>) -> bool {
    &&& 0 <= bitdepth && bitdepth_ok(bitdepth as nat)
    &&& channels == 1 || channels == 2
    &&& 0 < bitrate <= MAX_RATE
    &&& 0 < max
    &&& table_wf(table)
}

/// A polyphonic synthesis engine: a fixed bank of generators, the output format,
/// the sine table the sine generators read, and the playback state.
pub struct Poly {
    state: EngineState,
    bitdepth: u32,
    channels: u32,
    bitrate: u32,
    generators: Vec<Generator>,
    sine_table: Vec<i32>,
}

impl Poly {
    pub closed spec fn state(&self) -> EngineState {
        self.state
    }

    pub closed spec fn bank(&self) -> Seq<Generator> {
        self.generators@
    }

    pub closed spec fn table(&self) -> Seq<i32> {
        self.sine_table@
    }

    pub closed spec fn bitdepth(&self) -> nat {
        self.bitdepth as nat
    }

    pub closed spec fn channels(&self) -> nat {
        self.channels as nat
    }

    pub closed spec fn bitrate(&self) -> nat {
        self.bitrate as nat
    }

    /// Phase units per cycle for this engine's sample rate.
    pub open spec fn den(&self) -> nat {
        phase_den(self.bitrate())
    }

    pub closed spec fn wf(&self) -> bool {
        &&& bitdepth_ok(self.bitdepth as nat)
        &&& self.channels == 1 || self.channels == 2
        &&& 0 < self.bitrate <= MAX_RATE
        &&& table_wf(self.sine_table@)
        &&& bank_wf(self.generators@, phase_den(self.bitrate as nat))
    }

    /// What a well-formed engine guarantees: a supported format, a positive number
    /// of phase units per cycle, a valid sine table, and every generator well-formed,
    /// so that every phase lies within one cycle.
    pub proof fn lemma_wf(&self)
        requires
            self.wf(),
        ensures
            bitdepth_ok(self.bitdepth()),
            self.channels() == 1 || self.channels() == 2,
            0 < self.bitrate() <= MAX_RATE,
            0 < self.den() <= phase_den(MAX_RATE as nat),
            table_wf(self.table()),
            bank_wf(self.bank(), self.den()),
            forall|i: int| 0 <= i < self.bank().len() ==> #[trigger] self.bank()[i].phase < self.den(),
    {
        assert forall|i: int| 0 <= i < self.bank().len() implies #[trigger] self.bank()[i].phase < self.den() by {
            assert(gen_wf(self.bank()[i], self.den()));
        }
    }

    /// Whether `index` names a generator of the bank.
    pub open spec fn in_range(&self, index: isize) -> bool {
        0 <= index < self.bank().len()
    }

    /// Same state, format and sine table.
    pub open spec fn same_config(&self, other: Poly) -> bool {
        &&& self.state() == other.state()
        &&& self.bitdepth() == other.bitdepth()
        &&& self.channels() == other.channels()
        &&& self.bitrate() == other.bitrate()
        &&& self.table() == other.table()
    }

    /// What a setter on `index` owes: in range, generator `index` becomes `g` and
    /// nothing else changes; out of range, `IndexOutOfRange` and no change at all.
    pub open spec fn set_outcome(
        before: Poly,
        after: Poly,
        index: isize,
        r: Result<(), PolyError>,
        g: Generator,
    ) -> bool {
        if before.in_range(index) {
            &&& r == Ok::<(), PolyError>(())
            &&& after.same_config(before)
            &&& after.bank() == before.bank().update(index as int, g)
        } else {
            &&& r == Err::<(), PolyError>(PolyError::IndexOutOfRange)
            &&& after == before
        }
    }

    /// What a getter on `index` owes: the value `v` in range, `IndexOutOfRange` out of it.
    pub open spec fn get_outcome<T>(&self, index: isize, r: Result<T, PolyError>, v: T) -> bool {
        if self.in_range(index) {
            r == Ok::<T, PolyError>(v)
        } else {
            r == Err::<T, PolyError>(PolyError::IndexOutOfRange)
        }
    }

    /// Builds an engine with `max` silent, uninitialized generators, producing
    /// `channels` interleaved channels of `bitdepth`-bit samples at `bitrate`
    /// frames per second. `sine_table` holds one cycle of sine at full scale
    /// `WAVE_ONE`, read by sine generators.
    pub fn new(bitdepth: isize, channels: isize, bitrate: isize, max: isize, sine_table: Vec<i32>) -> (r: Result<Poly, PolyError>)
        ensures
            r is Ok <==> config_ok(bitdepth as int, channels as int, bitrate as int, max as int, sine_table@),
            r is Err ==> r == Err::<Poly, PolyError>(PolyError::InitError),
            r matches Ok(p) ==> {
                &&& p.wf()
                &&& p.state() == EngineState::Ready
                &&& p.bitdepth() == bitdepth
                &&& p.channels() == channels
                &&& p.bitrate() == bitrate
                &&& p.table() == sine_table@
                &&& p.bank().len() == max
                &&& forall|i: int| 0 <= i < max ==> is_default_gen(#[trigger] p.bank()[i])
            },
    {
        if !(bitdepth == 8 || bitdepth == 16 || bitdepth == 24 || bitdepth == 32) {
            return Err(PolyError::InitError);
        }
        if !(channels == 1 || channels == 2) {
            return Err(PolyError::InitError);
        }
        if bitrate <= 0 || bitrate as u64 > MAX_RATE as u64 {
            return Err(PolyError::InitError);
        }
        if max <= 0 {
            return Err(PolyError::InitError);
        }
        if sine_table.len() == 0 || sine_table.len() > MAX_TABLE {
            return Err(PolyError::InitError);
        }
        let mut k: usize = 0;
        while k < sine_table.len()
            invariant
                k <= sine_table@.len(),
                forall|j: int| 0 <= j < k ==> -WAVE_ONE <= #[trigger] sine_table@[j] <= WAVE_ONE,
            decreases sine_table.len() - k,
        {
            if sine_table[k] < -WAVE_ONE as i32 || sine_table[k] > WAVE_ONE as i32 {
                return Err(PolyError::InitError);
            }
            k = k + 1;
        }
        let ghost den = phase_den(bitrate as nat);
        let mut generators: Vec<Generator> = Vec::new();
        let mut i: usize = 0;
        while i < max as usize
            invariant
                0 < max,
                i <= max,
                generators@.len() == i,
                forall|j: int| 0 <= j < i ==> is_default_gen(#[trigger] generators@[j]),
                0 < den,
            decreases max - i,
        {
            generators.push(Generator::new());
            i = i + 1;
        }
        let p = Poly {
            state: EngineState::Ready,
            bitdepth: bitdepth as u32,
            channels: channels as u32,
            bitrate: bitrate as u32,
            generators,
            sine_table,
        };
        assert(bank_wf(p.generators@, den)) by {
            assert forall|j: int| 0 <= j < p.generators@.len() implies gen_wf(#[trigger] p.generators@[j], den) by {
                assert(is_default_gen(p.generators@[j]));
            }
        }
        Ok(p)
    }

    /// The position of generator `index` in the bank, if it is in range.
    fn slot(&self, index: isize) -> (r: Option<usize>)
        ensures
            r == (if self.in_range(index) { Some(index as usize) } else { None::<usize> }),
    {
        if index >= 0 && (index as usize) < self.generators.len() {
            Some(index as usize)
        } else {
            None
        }
    }

    /// The playback state.
    pub fn get_state(&self) -> (r: EngineState)
        ensures
            r == self.state(),
    {
        self.state
    }

    /// Whether the engine is playing.
    pub fn is_playing(&self) -> (r: bool)
        ensures
            r == (self.state() == EngineState::Playing),
    {
        self.state == EngineState::Playing
    }

    /// The output bit depth.
    pub fn get_bitdepth(&self) -> (r: u32)
        ensures
            r == self.bitdepth(),
    {
        self.bitdepth
    }

    /// The number of interleaved output channels.
    pub fn get_channels(&self) -> (r: u32)
        ensures
            r == self.channels(),
    {
        self.channels
    }

    /// The sample rate, in frames per second.
    pub fn get_bitrate(&self) -> (r: u32)
        ensures
            r == self.bitrate(),
    {
        self.bitrate
    }

    /// The number of generators in the bank.
    pub fn max(&self) -> (r: usize)
        ensures
            r == self.bank().len(),
    {
        self.generators.len()
    }

    /// Starts playback. `device_ok` says whether the output device accepted to start.
    pub fn start(&mut self, device_ok: bool) -> (r: Result<(), PolyError>)
        requires
            old(self).wf(),
        ensures
            final(self).wf(),
            (final(self).state(), r) == start_outcome(old(self).state(), device_ok),
            final(self).bank() == old(self).bank(),
            final(self).table() == old(self).table(),
            final(self).bitrate() == old(self).bitrate(),
            final(self).bitdepth() == old(self).bitdepth(),
            final(self).channels() == old(self).channels(),
    {
        match self.state {
            EngineState::Playing => Err(PolyError::AlreadyPlaying),
            EngineState::ShutDown => Err(PolyError::ShutDown),
            EngineState::Ready => {
                if device_ok {
                    self.state = EngineState::Playing;
                    Ok(())
                } else {
                    Err(PolyError::DeviceError)
                }
            },
        }
    }

    /// Stops playback; stopping an engine that is not playing does nothing.
    pub fn stop(&mut self)
        requires
            old(self).wf(),
        ensures
            final(self).wf(),
            final(self).state() == stop_state(old(self).state()),
            final(self).bank() == old(self).bank(),
            final(self).table() == old(self).table(),
            final(self).bitrate() == old(self).bitrate(),
            final(self).bitdepth() == old(self).bitdepth(),
            final(self).channels() == old(self).channels(),
    {
        if self.state == EngineState::Playing {
            self.state = EngineState::Ready;
        }
    }

    /// Stops playback if needed and releases every generator; the engine is then
    /// shut down for good. Shutting down twice does nothing more.
    pub fn shutdown(&mut self)
        requires
            old(self).wf(),
        ensures
            final(self).wf(),
            final(self).state() == EngineState::ShutDown,
            final(self).bank().len() == 0,
            final(self).table() == old(self).table(),
            final(self).bitrate() == old(self).bitrate(),
            final(self).bitdepth() == old(self).bitdepth(),
            final(self).channels() == old(self).channels(),
    {
        self.stop();
        self.state = EngineState::ShutDown;
        self.generators = Vec::new();
    }

    /// Produces one interleaved frame from the bank and advances every generator.
    pub fn mix_frame(&mut self) -> (r: Result<Vec<i32>, PolyError>)
        requires
            old(self).wf(),
        ensures
            final(self).wf(),
            final(self).same_config(*old(self)),
            old(self).state() == EngineState::Playing ==> {
                &&& r matches Ok(f) && f@ == frame_of(
                    old(self).bank(),
                    old(self).den(),
                    old(self).table(),
                    old(self).bitdepth(),
                    old(self).channels(),
                )
                &&& final(self).bank() == bank_step(old(self).bank(), old(self).den())
            },
            old(self).state() != EngineState::Playing ==> {
                &&& r == Err::<Vec<i32>, PolyError>(PolyError::NotPlaying)
                &&& final(self).bank() == old(self).bank()
            },
    {
        if self.state != EngineState::Playing {
            return Err(PolyError::NotPlaying);
        }
        let den = MHZ_PER_HZ * self.bitrate as u64;
        let f = mix_frame_of(&self.generators, den, &self.sine_table, self.bitdepth, self.channels);
        step_bank(&mut self.generators, den);
        Ok(f)
    }

    /// Produces `frames` interleaved frames, advancing the bank one frame each.
    pub fn render(&mut self, frames: usize) -> (r: Result<Vec<i32>, PolyError>)
        requires
            old(self).wf(),
        ensures
            final(self).wf(),
            final(self).same_config(*old(self)),
            old(self).state() == EngineState::Playing ==> {
                &&& r matches Ok(out) && out@ == render_of(
                    old(self).bank(),
                    old(self).den(),
                    old(self).table(),
                    old(self).bitdepth(),
                    old(self).channels(),
                    frames as nat,
                )
                &&& final(self).bank() == bank_steps(old(self).bank(), old(self).den(), frames as nat)
            },
            old(self).state() != EngineState::Playing ==> {
                &&& r == Err::<Vec<i32>, PolyError>(PolyError::NotPlaying)
                &&& final(self).bank() == old(self).bank()
            },
    {
        if self.state != EngineState::Playing {
            return Err(PolyError::NotPlaying);
        }
        let den = MHZ_PER_HZ * self.bitrate as u64;
        let ghost b0 = self.generators@;
        let mut out: Vec<i32> = Vec::new();
        let mut i: usize = 0;
        while i < frames
            invariant
                i <= frames,
                self.wf(),
                self.same_config(*old(self)),
                den == old(self).den(),
                0 < den <= phase_den(MAX_RATE as nat),
                b0 == old(self).bank(),
                self.generators@ == bank_steps(b0, den as nat, i as nat),
                out@ == render_of(b0, den as nat, self.sine_table@, self.bitdepth as nat, self.channels as nat, i as nat),
            decreases frames - i,
        {
            let f = mix_frame_of(&self.generators, den, &self.sine_table, self.bitdepth, self.channels);
            step_bank(&mut self.generators, den);
            let mut k: usize = 0;
            let ghost before = out@;
            while k < f.len()
                invariant
                    k <= f@.len(),
                    out@ == before + f@.subrange(0, k as int),
                decreases f.len() - k,
            {
                out.push(f[k]);
                k = k + 1;
            }
            assert(f@.subrange(0, f@.len() as int) == f@);
            i = i + 1;
        }
        Ok(out)
    }

    /// Mutes generator `index`. It keeps advancing while muted.
    pub fn mute(&mut self, index: isize) -> (r: Result<(), PolyError>)
        requires
            old(self).wf(),
        ensures
            final(self).wf(),
            Poly::set_outcome(
                *old(self),
                *final(self),
                index,
                r,
                with_muted(old(self).bank()[index as int], true),
            ),
    {
        match self.slot(index) {
            Some(i) => {
                self.generators[i].muted = true;
                Ok(())
            },
            None => Err(PolyError::IndexOutOfRange),
        }
    }

    /// Unmutes generator `index`.
    pub fn unmute(&mut self, index: isize) -> (r: Result<(), PolyError>)
        requires
            old(self).wf(),
        ensures
            final(self).wf(),
            Poly::set_outcome(
                *old(self),
                *final(self),
                index,
                r,
                with_muted(old(self).bank()[index as int], false),
            ),
    {
        match self.slot(index) {
            Some(i) => {
                self.generators[i].muted = false;
                Ok(())
            },
            None => Err(PolyError::IndexOutOfRange),
        }
    }

    /// Changes the wave type; the phase is kept, so the sound does not click.
    pub fn set_wavetype(&mut self, index: isize, wavetype: poly_wavetype) -> (r: Result<(), PolyError>)
        requires
            old(self).wf(),
        ensures
            final(self).wf(),
            Poly::set_outcome(
                *old(self),
                *final(self),
                index,
                r,
                (Generator { wave_type: wavetype, ..old(self).bank()[index as int] }),
            ),
    {
        match self.slot(index) {
            Some(i) => {
                self.generators[i].wave_type = wavetype;
                Ok(())
            },
            None => Err(PolyError::IndexOutOfRange),
        }
    }

    /// Sets both channels' amplitude (per-mille, held to `AMP_ONE`).
    pub fn set_amplitude(&mut self, index: isize, amplitude: u32) -> (r: Result<(), PolyError>)
        requires
            old(self).wf(),
        ensures
            final(self).wf(),
            Poly::set_outcome(
                *old(self),
                *final(self),
                index,
                r,
                (Generator { l_amp: clamp_amp(amplitude), r_amp: clamp_amp(amplitude), ..old(self).bank()[index as int] }),
            ),
    {
        match self.slot(index) {
            Some(i) => {
                let a = clamp_amplitude(amplitude);
                let g = &mut self.generators[i];
                g.l_amp = a;
                g.r_amp = a;
                Ok(())
            },
            None => Err(PolyError::IndexOutOfRange),
        }
    }

    /// Sets the left channel's amplitude (per-mille, held to `AMP_ONE`).
    #[allow(non_snake_case)]
    pub fn set_L_amp(&mut self, index: isize, l_amp: u32) -> (r: Result<(), PolyError>)
        requires
            old(self).wf(),
        ensures
            final(self).wf(),
            Poly::set_outcome(
                *old(self),
                *final(self),
                index,
                r,
                (Generator { l_amp: clamp_amp(l_amp), ..old(self).bank()[index as int] }),
            ),
    {
        match self.slot(index) {
            Some(i) => {
                self.generators[i].l_amp = clamp_amplitude(l_amp);
                Ok(())
            },
            None => Err(PolyError::IndexOutOfRange),
        }
    }

    /// Sets the right channel's amplitude (per-mille, held to `AMP_ONE`).
    #[allow(non_snake_case)]
    pub fn set_R_amp(&mut self, index: isize, r_amp: u32) -> (r: Result<(), PolyError>)
        requires
            old(self).wf(),
        ensures
            final(self).wf(),
            Poly::set_outcome(
                *old(self),
                *final(self),
                index,
                r,
                (Generator { r_amp: clamp_amp(r_amp), ..old(self).bank()[index as int] }),
            ),
    {
        match self.slot(index) {
            Some(i) => {
                self.generators[i].r_amp = clamp_amplitude(r_amp);
                Ok(())
            },
            None => Err(PolyError::IndexOutOfRange),
        }
    }

    /// Adds `freq` millihertz to the frequency, saturating at `0` and `u32::MAX`.
    pub fn bump_freq(&mut self, index: isize, freq: i64) -> (r: Result<(), PolyError>)
        requires
            old(self).wf(),
        ensures
            final(self).wf(),
            Poly::set_outcome(
                *old(self),
                *final(self),
                index,
                r,
                with_freq(old(self).bank()[index as int], bumped(old(self).bank()[index as int].freq, freq)),
            ),
    {
        match self.slot(index) {
            Some(i) => {
                let f = bump(self.generators[i].freq, freq);
                self.generators[i].freq = f;
                Ok(())
            },
            None => Err(PolyError::IndexOutOfRange),
        }
    }

    /// Replaces the frequency (millihertz).
    pub fn set_freq(&mut self, index: isize, freq: u32) -> (r: Result<(), PolyError>)
        requires
            old(self).wf(),
        ensures
            final(self).wf(),
            Poly::set_outcome(
                *old(self),
                *final(self),
                index,
                r,
                with_freq(old(self).bank()[index as int], freq),
            ),
    {
        match self.slot(index) {
            Some(i) => {
                self.generators[i].freq = freq;
                Ok(())
            },
            None => Err(PolyError::IndexOutOfRange),
        }
    }

    /// Sets the phase, wrapped into one cycle.
    pub fn set_phase(&mut self, index: isize, phase: u64) -> (r: Result<(), PolyError>)
        requires
            old(self).wf(),
        ensures
            final(self).wf(),
            Poly::set_outcome(
                *old(self),
                *final(self),
                index,
                r,
                (Generator { phase: ((phase as int) % (old(self).den() as int)) as u64, ..old(self).bank()[index as int] }),
            ),
            old(self).in_range(index) ==> final(self).bank()[index as int].phase < final(self).den(),
    {
        match self.slot(index) {
            Some(i) => {
                let den = MHZ_PER_HZ * self.bitrate as u64;
                self.generators[i].phase = phase % den;
                Ok(())
            },
            None => Err(PolyError::IndexOutOfRange),
        }
    }

    /// Sets the square-wave duty cycle (per-mille, held inside `(0, DUTY_ONE)`).
    pub fn set_duty(&mut self, index: isize, duty: u32) -> (r: Result<(), PolyError>)
        requires
            old(self).wf(),
        ensures
            final(self).wf(),
            Poly::set_outcome(
                *old(self),
                *final(self),
                index,
                r,
                (Generator { duty: clamp_duty(duty), ..old(self).bank()[index as int] }),
            ),
    {
        match self.slot(index) {
            Some(i) => {
                self.generators[i].duty = clamp_duty_cycle(duty);
                Ok(())
            },
            None => Err(PolyError::IndexOutOfRange),
        }
    }

    /// Sets the bit depth of the sample buffer (8 and 16 play; others are silent).
    pub fn set_sample_bitdepth(&mut self, index: isize, sample_bitdepth: u32) -> (r: Result<(), PolyError>)
        requires
            old(self).wf(),
        ensures
            final(self).wf(),
            Poly::set_outcome(
                *old(self),
                *final(self),
                index,
                r,
                (Generator { sample_bitdepth: sample_bitdepth, ..old(self).bank()[index as int] }),
            ),
    {
        match self.slot(index) {
            Some(i) => {
                self.generators[i].sample_bitdepth = sample_bitdepth;
                Ok(())
            },
            None => Err(PolyError::IndexOutOfRange),
        }
    }

    /// Sets the length of the sample, in samples; 0 makes the generator silent.
    pub fn set_sample_length(&mut self, index: isize, sample_length: u32) -> (r: Result<(), PolyError>)
        requires
            old(self).wf(),
        ensures
            final(self).wf(),
            Poly::set_outcome(
                *old(self),
                *final(self),
                index,
                r,
                (Generator { sample_length: sample_length, ..old(self).bank()[index as int] }),
            ),
    {
        match self.slot(index) {
            Some(i) => {
                self.generators[i].sample_length = sample_length;
                Ok(())
            },
            None => Err(PolyError::IndexOutOfRange),
        }
    }

    /// Attaches a raw PCM buffer and rewinds playback to its start.
    pub fn set_sample(&mut self, index: isize, sample: Vec<u8>) -> (r: Result<(), PolyError>)
        requires
            old(self).wf(),
        ensures
            final(self).wf(),
            Poly::set_outcome(
                *old(self),
                *final(self),
                index,
                r,
                (Generator { sample: sample, position: 0, ..old(self).bank()[index as int] }),
            ),
    {
        match self.slot(index) {
            Some(i) => {
                let g = &mut self.generators[i];
                g.sample = sample;
                g.position = 0;
                Ok(())
            },
            None => Err(PolyError::IndexOutOfRange),
        }
    }

    /// Readies generator `index`: wave type, amplitude on both channels, frequency;
    /// phase 0, duty one half; marks it initialized.
    pub fn init_generator(&mut self, index: isize, wavetype: poly_wavetype, amplitude: u32, freq: u32) -> (r: Result<(), PolyError>)
        requires
            old(self).wf(),
        ensures
            final(self).wf(),
            Poly::set_outcome(
                *old(self),
                *final(self),
                index,
                r,
                initialized_gen(old(self).bank()[index as int], wavetype, amplitude, freq),
            ),
    {
        match self.slot(index) {
            Some(i) => {
                let a = clamp_amplitude(amplitude);
                let g = &mut self.generators[i];
                g.initialized = true;
                g.wave_type = wavetype;
                g.freq = freq;
                g.phase = 0;
                g.l_amp = a;
                g.r_amp = a;
                g.duty = DUTY_ONE / 2;
                Ok(())
            },
            None => Err(PolyError::IndexOutOfRange),
        }
    }

    /// Whether generator `index` has been initialized.
    pub fn get_init(&self, index: isize) -> (r: Result<bool, PolyError>)
        ensures
            self.get_outcome(index, r, self.bank()[index as int].initialized),
    {
        match self.slot(index) {
            Some(i) => Ok(self.generators[i].initialized),
            None => Err(PolyError::IndexOutOfRange),
        }
    }

    /// The wave type of generator `index`.
    pub fn get_wavetype(&self, index: isize) -> (r: Result<poly_wavetype, PolyError>)
        ensures
            self.get_outcome(index, r, self.bank()[index as int].wave_type),
    {
        match self.slot(index) {
            Some(i) => Ok(self.generators[i].wave_type),
            None => Err(PolyError::IndexOutOfRange),
        }
    }

    /// The left amplitude of generator `index`.
    #[allow(non_snake_case)]
    pub fn get_L_amp(&self, index: isize) -> (r: Result<u32, PolyError>)
        ensures
            self.get_outcome(index, r, self.bank()[index as int].l_amp),
    {
        match self.slot(index) {
            Some(i) => Ok(self.generators[i].l_amp),
            None => Err(PolyError::IndexOutOfRange),
        }
    }

    /// The right amplitude of generator `index`.
    #[allow(non_snake_case)]
    pub fn get_R_amp(&self, index: isize) -> (r: Result<u32, PolyError>)
        ensures
            self.get_outcome(index, r, self.bank()[index as int].r_amp),
    {
        match self.slot(index) {
            Some(i) => Ok(self.generators[i].r_amp),
            None => Err(PolyError::IndexOutOfRange),
        }
    }

    /// The frequency of generator `index`, in millihertz.
    pub fn get_freq(&self, index: isize) -> (r: Result<u32, PolyError>)
        ensures
            self.get_outcome(index, r, self.bank()[index as int].freq),
    {
        match self.slot(index) {
            Some(i) => Ok(self.generators[i].freq),
            None => Err(PolyError::IndexOutOfRange),
        }
    }

    /// The phase of generator `index`.
    /// It always lies within one cycle: below `den()`.
    pub fn get_phase(&self, index: isize) -> (r: Result<u64, PolyError>)
        requires
            self.wf(),
        ensures
            self.get_outcome(index, r, self.bank()[index as int].phase),
            r matches Ok(ph) ==> ph < self.den(),
    {
        match self.slot(index) {
            Some(i) => Ok(self.generators[i].phase),
            None => Err(PolyError::IndexOutOfRange),
        }
    }

    /// The duty cycle of generator `index`.
    pub fn get_duty(&self, index: isize) -> (r: Result<u32, PolyError>)
        ensures
            self.get_outcome(index, r, self.bank()[index as int].duty),
    {
        match self.slot(index) {
            Some(i) => Ok(self.generators[i].duty),
            None => Err(PolyError::IndexOutOfRange),
        }
    }

    /// Whether generator `index` is muted.
    pub fn get_muted(&self, index: isize) -> (r: Result<bool, PolyError>)
        ensures
            self.get_outcome(index, r, self.bank()[index as int].muted),
    {
        match self.slot(index) {
            Some(i) => Ok(self.generators[i].muted),
            None => Err(PolyError::IndexOutOfRange),
        }
    }

    /// The sample bit depth of generator `index`.
    pub fn get_sample_bitdepth(&self, index: isize) -> (r: Result<u32, PolyError>)
        ensures
            self.get_outcome(index, r, self.bank()[index as int].sample_bitdepth),
    {
        match self.slot(index) {
            Some(i) => Ok(self.generators[i].sample_bitdepth),
            None => Err(PolyError::IndexOutOfRange),
        }
    }

    /// The sample length of generator `index`.
    pub fn get_sample_length(&self, index: isize) -> (r: Result<u32, PolyError>)
        ensures
            self.get_outcome(index, r, self.bank()[index as int].sample_length),
    {
        match self.slot(index) {
            Some(i) => Ok(self.generators[i].sample_length),
            None => Err(PolyError::IndexOutOfRange),
        }
    }

    /// The playback position of generator `index`.
    pub fn get_position(&self, index: isize) -> (r: Result<u32, PolyError>)
        ensures
            self.get_outcome(index, r, self.bank()[index as int].position),
    {
        match self.slot(index) {
            Some(i) => Ok(self.generators[i].position),
            None => Err(PolyError::IndexOutOfRange),
        }
    }

    /// A copy of the sample buffer of generator `index`.
    pub fn get_sample(&self, index: isize) -> (r: Result<Vec<u8>, PolyError>)
        ensures
            self.in_range(index) ==> (r matches Ok(v) && v@ == self.bank()[index as int].sample@),
            !self.in_range(index) ==> r == Err::<Vec<u8>, PolyError>(PolyError::IndexOutOfRange),
    {
        match self.slot(index) {
            Some(i) => {
                let src = &self.generators[i].sample;
                let mut v: Vec<u8> = Vec::new();
                let mut k: usize = 0;
                while k < src.len()
                    invariant
                        k <= src@.len(),
                        v@ == src@.subrange(0, k as int),
                    decreases src.len() - k,
                {
                    v.push(src[k]);
                    k = k + 1;
                }
                assert(src@.subrange(0, src@.len() as int) == src@);
                Ok(v)
            },
            None => Err(PolyError::IndexOutOfRange),
        }
    }
}

} // verus!
