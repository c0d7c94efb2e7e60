use poly::{poly_wavetype, EngineState, Poly, PolyError};

fn sine_table(n: usize) -> Vec<i32> {
    (0..n)
        .map(|k| {
            let x = 2.0 * std::f64::consts::PI * (k as f64) / (n as f64);
            (x.sin() * 32767.0).round() as i32
        })
        .collect()
}

fn engine(bitdepth: isize, channels: isize, rate: isize, max: isize) -> Poly {
    Poly::new(bitdepth, channels, rate, max, sine_table(1024)).unwrap()
}

#[test]
fn set_freq_then_get_freq() {
    let mut p = engine(16, 2, 44100, 8);
    for i in 0..8 {
        assert_eq!(p.set_freq(i, 1000 + i as u32), Ok(()));
    }
    for i in 0..8 {
        assert_eq!(p.get_freq(i), Ok(1000 + i as u32));
    }
}

#[test]
fn out_of_range_index_is_refused() {
    let mut p = engine(16, 2, 44100, 8);
    for &i in &[8isize, 9, 100, -1] {
        assert_eq!(p.set_freq(i, 5), Err(PolyError::IndexOutOfRange));
        assert_eq!(p.get_freq(i), Err(PolyError::IndexOutOfRange));
        assert_eq!(p.mute(i), Err(PolyError::IndexOutOfRange));
        assert_eq!(p.get_init(i), Err(PolyError::IndexOutOfRange));
        assert_eq!(p.get_sample(i), Err(PolyError::IndexOutOfRange));
        assert_eq!(
            p.init_generator(i, poly_wavetype::poly_sine, 500, 440000),
            Err(PolyError::IndexOutOfRange)
        );
    }
    for i in 0..8 {
        assert_eq!(p.get_freq(i), Ok(0));
        assert_eq!(p.get_init(i), Ok(false));
        assert_eq!(p.get_muted(i), Ok(false));
    }
}

#[test]
fn muting_keeps_phase() {
    let mut a = engine(16, 2, 44100, 8);
    let mut b = engine(16, 2, 44100, 8);
    for p in [&mut a, &mut b] {
        p.init_generator(0, poly_wavetype::poly_sine, 500, 440000).unwrap();
        p.start(true).unwrap();
    }
    a.mute(0).unwrap();
    let quiet = a.render(1000).unwrap();
    assert!(quiet.iter().all(|&s| s == 0));
    a.unmute(0).unwrap();
    b.render(1000).unwrap();
    assert_eq!(a.get_phase(0), b.get_phase(0));
    assert_eq!(a.get_phase(0), Ok(43_100_000));
    assert_eq!(a.render(50).unwrap(), b.render(50).unwrap());
}

#[test]
fn sine_at_rest_is_constant() {
    let mut p = engine(16, 2, 1000, 4);
    p.init_generator(0, poly_wavetype::poly_sine, 1000, 0).unwrap();
    p.set_phase(0, 250_000).unwrap();
    p.start(true).unwrap();
    let out = p.render(20).unwrap();
    assert_eq!(out.len(), 40);
    assert!(out.iter().all(|&s| s == 32766));
    assert_eq!(p.get_phase(0), Ok(250_000));
}

#[test]
fn mixing_sums_and_clips() {
    for (k, amp, expected) in [(1, 500, 16383), (2, 500, 32767), (3, 500, 32767), (3, 300, 29490)] {
        let mut p = engine(16, 2, 1000, 4);
        for i in 0..k {
            p.init_generator(i, poly_wavetype::poly_square, amp, 0).unwrap();
        }
        p.start(true).unwrap();
        assert_eq!(p.mix_frame().unwrap(), vec![expected, expected]);
    }
}

#[test]
fn stop_is_idempotent_and_start_resumes() {
    let mut p = engine(16, 2, 44100, 8);
    p.init_generator(0, poly_wavetype::poly_saw, 500, 440000).unwrap();
    p.start(true).unwrap();
    p.render(123).unwrap();
    let phase = p.get_phase(0);
    p.stop();
    p.stop();
    assert_eq!(p.get_state(), EngineState::Ready);
    assert_eq!(p.mix_frame(), Err(PolyError::NotPlaying));
    assert_eq!(p.start(true), Ok(()));
    assert_eq!(p.get_phase(0), phase);
    assert!(p.is_playing());
}

#[test]
fn one_second_of_a440() {
    let mut p = engine(16, 2, 44100, 8);
    p.init_generator(0, poly_wavetype::poly_sine, 500, 440000).unwrap();
    assert_eq!(p.start(true), Ok(()));
    let out = p.render(44100).unwrap();
    assert_eq!(out.len(), 88200);
    assert_eq!(p.get_phase(0), Ok(0));
}

#[test]
fn init_rejects_bad_config() {
    assert!(Poly::new(16, 2, 44100, 8, sine_table(256)).is_ok());
    assert_eq!(Poly::new(12, 2, 44100, 8, sine_table(256)).err(), Some(PolyError::InitError));
    assert_eq!(Poly::new(0, 2, 44100, 8, sine_table(256)).err(), Some(PolyError::InitError));
    assert_eq!(Poly::new(16, 0, 44100, 8, sine_table(256)).err(), Some(PolyError::InitError));
    assert_eq!(Poly::new(16, 3, 44100, 8, sine_table(256)).err(), Some(PolyError::InitError));
    assert_eq!(Poly::new(16, 2, 0, 8, sine_table(256)).err(), Some(PolyError::InitError));
    assert!(Poly::new(16, 2, 384001, 8, sine_table(256)).is_ok());
    assert!(Poly::new(16, 2, 4294967295, 1, sine_table(256)).is_ok());
    assert_eq!(Poly::new(16, 2, 4294967296, 1, sine_table(256)).err(), Some(PolyError::InitError));
    assert_eq!(Poly::new(16, 2, -44100, 8, sine_table(256)).err(), Some(PolyError::InitError));
    assert_eq!(Poly::new(16, 2, 44100, 0, sine_table(256)).err(), Some(PolyError::InitError));
    assert_eq!(Poly::new(16, 2, 44100, -3, sine_table(256)).err(), Some(PolyError::InitError));
    let big = Poly::new(16, 2, 44100, 5000, sine_table(256)).unwrap();
    assert_eq!(big.max(), 5000);
    assert_eq!(big.get_init(4999), Ok(false));
    assert_eq!(Poly::new(16, 2, 44100, 8, Vec::new()).err(), Some(PolyError::InitError));
    assert_eq!(Poly::new(16, 2, 44100, 8, vec![0, 40000]).err(), Some(PolyError::InitError));
    assert!(Poly::new(8, 1, 1, 4096, vec![0]).is_ok());
}

#[test]
fn new_engine_is_ready_and_silent() {
    let mut p = engine(16, 2, 44100, 8);
    assert_eq!(p.max(), 8);
    assert_eq!(p.get_state(), EngineState::Ready);
    assert_eq!(p.get_wavetype(3), Ok(poly_wavetype::poly_sine));
    assert_eq!(p.get_duty(3), Ok(500));
    assert_eq!(p.get_L_amp(3), Ok(0));
    p.start(true).unwrap();
    assert_eq!(p.render(10).unwrap(), vec![0; 20]);
}

#[test]
fn start_errors() {
    let mut p = engine(16, 2, 44100, 8);
    assert_eq!(p.start(false), Err(PolyError::DeviceError));
    assert_eq!(p.get_state(), EngineState::Ready);
    assert_eq!(p.start(true), Ok(()));
    assert_eq!(p.start(true), Err(PolyError::AlreadyPlaying));
    p.shutdown();
    assert_eq!(p.get_state(), EngineState::ShutDown);
    assert_eq!(p.start(true), Err(PolyError::ShutDown));
    assert_eq!(p.render(1), Err(PolyError::NotPlaying));
    assert_eq!(p.get_freq(0), Err(PolyError::IndexOutOfRange));
    p.shutdown();
    assert_eq!(p.max(), 0);
}

#[test]
fn init_generator_sets_defaults() {
    let mut p = engine(16, 2, 44100, 8);
    p.set_phase(2, 77).unwrap();
    p.set_duty(2, 100).unwrap();
    p.init_generator(2, poly_wavetype::poly_triangle, 700, 220000).unwrap();
    assert_eq!(p.get_init(2), Ok(true));
    assert_eq!(p.get_wavetype(2), Ok(poly_wavetype::poly_triangle));
    assert_eq!(p.get_L_amp(2), Ok(700));
    assert_eq!(p.get_R_amp(2), Ok(700));
    assert_eq!(p.get_freq(2), Ok(220000));
    assert_eq!(p.get_phase(2), Ok(0));
    assert_eq!(p.get_duty(2), Ok(500));
}

#[test]
fn setters_clamp_and_wrap() {
    let mut p = engine(16, 2, 1000, 2);
    p.set_amplitude(0, 5000).unwrap();
    assert_eq!(p.get_L_amp(0), Ok(1000));
    assert_eq!(p.get_R_amp(0), Ok(1000));
    p.set_L_amp(0, 250).unwrap();
    p.set_R_amp(0, 2000).unwrap();
    assert_eq!(p.get_L_amp(0), Ok(250));
    assert_eq!(p.get_R_amp(0), Ok(1000));
    p.set_duty(0, 0).unwrap();
    assert_eq!(p.get_duty(0), Ok(1));
    p.set_duty(0, 1000).unwrap();
    assert_eq!(p.get_duty(0), Ok(999));
    p.set_duty(0, 250).unwrap();
    assert_eq!(p.get_duty(0), Ok(250));
    p.set_phase(0, 2_500_000).unwrap();
    assert_eq!(p.get_phase(0), Ok(500_000));
}

#[test]
fn bump_freq_adds_and_saturates() {
    let mut p = engine(16, 2, 44100, 2);
    p.set_freq(0, 100).unwrap();
    p.bump_freq(0, 50).unwrap();
    assert_eq!(p.get_freq(0), Ok(150));
    p.bump_freq(0, -200).unwrap();
    assert_eq!(p.get_freq(0), Ok(0));
    p.set_freq(0, u32::MAX).unwrap();
    p.bump_freq(0, 5).unwrap();
    assert_eq!(p.get_freq(0), Ok(u32::MAX));
}

#[test]
fn wavetype_change_keeps_phase() {
    let mut p = engine(16, 2, 1000, 2);
    p.init_generator(0, poly_wavetype::poly_sine, 1000, 100000).unwrap();
    p.start(true).unwrap();
    p.render(3).unwrap();
    assert_eq!(p.get_phase(0), Ok(300_000));
    p.set_wavetype(0, poly_wavetype::poly_saw).unwrap();
    assert_eq!(p.get_phase(0), Ok(300_000));
}

#[test]
fn saw_and_triangle_values() {
    // 250 Hz at 1000 frames per second: a quarter cycle per frame.
    let mut p = engine(16, 1, 1000, 1);
    p.init_generator(0, poly_wavetype::poly_saw, 1000, 250000).unwrap();
    p.start(true).unwrap();
    assert_eq!(p.render(4).unwrap(), vec![-32767, -16383, 0, 16383]);
    p.set_wavetype(0, poly_wavetype::poly_triangle).unwrap();
    assert_eq!(p.render(4).unwrap(), vec![-32767, 0, 32767, 0]);
}

#[test]
fn square_duty_cycle() {
    let mut p = engine(8, 1, 1000, 1);
    p.init_generator(0, poly_wavetype::poly_square, 1000, 250000).unwrap();
    p.set_duty(0, 250).unwrap();
    p.start(true).unwrap();
    assert_eq!(p.render(4).unwrap(), vec![127, -127, -127, -127]);
}

#[test]
fn stereo_panning() {
    let mut p = engine(16, 2, 1000, 1);
    p.init_generator(0, poly_wavetype::poly_square, 1000, 0).unwrap();
    p.set_R_amp(0, 0).unwrap();
    p.start(true).unwrap();
    assert_eq!(p.mix_frame().unwrap(), vec![32767, 0]);
}

#[test]
fn looped_eight_bit_sample() {
    let mut p = engine(16, 1, 1000, 1);
    p.init_generator(0, poly_wavetype::poly_loopsample, 1000, 0).unwrap();
    p.set_sample(0, vec![128, 255, 0]).unwrap();
    p.set_sample_bitdepth(0, 8).unwrap();
    p.set_sample_length(0, 3).unwrap();
    assert_eq!(p.get_sample(0), Ok(vec![128, 255, 0]));
    assert_eq!(p.get_sample_length(0), Ok(3));
    assert_eq!(p.get_sample_bitdepth(0), Ok(8));
    p.start(true).unwrap();
    assert_eq!(p.render(5).unwrap(), vec![0, 32511, -32767, 0, 32511]);
    assert_eq!(p.get_position(0), Ok(2));
}

#[test]
fn one_shot_sixteen_bit_sample_stops() {
    let mut p = engine(16, 1, 1000, 1);
    p.init_generator(0, poly_wavetype::poly_sample, 1000, 0).unwrap();
    p.set_sample(0, vec![0x00, 0x40, 0x00, 0xC0]).unwrap();
    p.set_sample_bitdepth(0, 16).unwrap();
    p.set_sample_length(0, 2).unwrap();
    p.start(true).unwrap();
    assert_eq!(p.render(4).unwrap(), vec![16383, -16383, 0, 0]);
    assert_eq!(p.get_position(0), Ok(2));
}

#[test]
fn empty_sample_is_silent() {
    let mut p = engine(16, 1, 1000, 1);
    p.init_generator(0, poly_wavetype::poly_loopsample, 1000, 0).unwrap();
    p.set_sample(0, vec![255, 255]).unwrap();
    p.set_sample_bitdepth(0, 8).unwrap();
    p.set_sample_length(0, 0).unwrap();
    p.start(true).unwrap();
    assert_eq!(p.render(3).unwrap(), vec![0, 0, 0]);
}

#[test]
fn mute_silences_output() {
    let mut p = engine(16, 2, 1000, 1);
    p.init_generator(0, poly_wavetype::poly_square, 1000, 0).unwrap();
    p.start(true).unwrap();
    p.mute(0).unwrap();
    assert_eq!(p.get_muted(0), Ok(true));
    assert_eq!(p.mix_frame().unwrap(), vec![0, 0]);
    p.unmute(0).unwrap();
    assert_eq!(p.mix_frame().unwrap(), vec![32767, 32767]);
}

#[test]
fn bit_depths_scale_full_range() {
    for (depth, full) in [(8, 127), (16, 32767), (24, 8388607), (32, 2147483647)] {
        let mut p = engine(depth, 1, 1000, 2);
        p.init_generator(0, poly_wavetype::poly_square, 1000, 0).unwrap();
        p.init_generator(1, poly_wavetype::poly_square, 1000, 0).unwrap();
        p.start(true).unwrap();
        assert_eq!(p.mix_frame().unwrap(), vec![full]);
    }
}


#[test]
fn pcm_layout_is_little_endian() {
    assert_eq!(poly::encode_pcm(&vec![1, -1, 256], 16), vec![1, 0, 255, 255, 0, 1]);
    assert_eq!(poly::encode_pcm(&vec![1, -1, -128], 8), vec![1, 255, 128]);
    assert_eq!(poly::encode_pcm(&vec![-2], 24), vec![254, 255, 255]);
    assert_eq!(poly::encode_pcm(&vec![0x01020304], 32), vec![4, 3, 2, 1]);
    assert_eq!(poly::encode_pcm(&Vec::new(), 16), Vec::<u8>::new());
}

#[test]
fn engine_reports_format() {
    let p = engine(24, 1, 48000, 3);
    assert_eq!(p.get_bitdepth(), 24);
    assert_eq!(p.get_channels(), 1);
    assert_eq!(p.get_bitrate(), 48000);
}
