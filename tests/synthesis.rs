use faloops::synth::{check_stream_format, frames_in, write_frames, PhaseClock};
use faloops::Error;

#[test]
fn phase_advances_and_wraps_at_sample_rate() {
    let mut clock = PhaseClock::new(4);
    assert_eq!(clock.phase(), 0);
    assert_eq!(clock.advance(), 1);
    assert_eq!(clock.advance(), 2);
    assert_eq!(clock.advance(), 3);
    assert_eq!(clock.advance(), 0);
    assert_eq!(clock.phase(), 0);
    assert_eq!(clock.sample_rate(), 4);
}

#[test]
fn phase_stays_below_sample_rate_over_long_pulse() {
    let mut clock = PhaseClock::new(48000);
    for _ in 0..200_000 {
        let p = clock.advance();
        assert!(p < 48000);
    }
    assert_eq!(clock.phase(), (200_000 % 48000) as u32);
}

#[test]
fn phase_with_unit_rate_is_always_zero() {
    let mut clock = PhaseClock::new(1);
    assert_eq!(clock.advance(), 0);
    assert_eq!(clock.advance(), 0);
}

#[test]
fn advance_frames_gives_one_phase_per_frame() {
    let mut clock = PhaseClock::new(3);
    assert_eq!(clock.advance_frames(5), vec![1, 2, 0, 1, 2]);
    assert_eq!(clock.phase(), 2);
    assert_eq!(clock.advance_frames(0), Vec::<u32>::new());
    assert_eq!(clock.phase(), 2);
}

#[test]
fn sine_of_drawn_phases_stays_in_unit_range() {
    let rate = 44100u32;
    let frequency = 9000.0f64;
    let mut clock = PhaseClock::new(rate);
    for p in clock.advance_frames(10_000) {
        let v = (p as f64 * frequency * 2.0 * std::f64::consts::PI / rate as f64).sin();
        assert!((-1.0..=1.0).contains(&v));
    }
}

#[test]
fn frames_in_counts_partial_frame() {
    assert_eq!(frames_in(10, 2), 5);
    assert_eq!(frames_in(5, 2), 3);
    assert_eq!(frames_in(0, 3), 0);
    assert_eq!(frames_in(7, 1), 7);
    assert_eq!(frames_in(1, 8), 1);
}

#[test]
fn write_frames_replicates_each_value_across_channels() {
    let mut out = [0i32; 6];
    write_frames(&mut out, 2, &vec![7, 8, 9]);
    assert_eq!(out, [7, 7, 8, 8, 9, 9]);
}

#[test]
fn write_frames_fills_trailing_partial_frame() {
    let mut out = [0.0f32; 5];
    write_frames(&mut out, 2, &vec![0.5, -0.25, 1.0]);
    assert_eq!(out, [0.5, 0.5, -0.25, -0.25, 1.0]);
}

#[test]
fn frames_are_bit_identical_within_each_frame() {
    let channels = 3usize;
    let mut out = vec![0.0f64; 12];
    let mut clock = PhaseClock::new(100);
    let phases = clock.advance_frames(frames_in(out.len(), channels));
    let values: Vec<f64> = phases.iter().map(|p| (*p as f64 * 0.3).sin()).collect();
    write_frames(&mut out, channels, &values);
    for frame in out.chunks(channels) {
        for s in frame {
            assert_eq!(s.to_bits(), frame[0].to_bits());
        }
    }
    assert_ne!(out[0].to_bits(), out[3].to_bits());
}

#[test]
fn write_frames_on_empty_buffer_does_nothing() {
    let mut out: [u8; 0] = [];
    write_frames(&mut out, 2, &vec![]);
    assert_eq!(out.len(), 0);
}

#[test]
fn stream_format_needs_rate_and_channels() {
    assert!(check_stream_format(44100, 2).is_ok());
    assert!(check_stream_format(1, 1).is_ok());
    match check_stream_format(0, 2) {
        Err(Error::DefaultStreamConfigError(m)) => {
            assert_eq!(m, "stream format needs a positive sample rate and at least one channel")
        },
        other => panic!("unexpected {other:?}"),
    }
    assert!(matches!(check_stream_format(48000, 0), Err(Error::DefaultStreamConfigError(_))));
}

#[test]
fn error_message_is_the_carried_text() {
    assert_eq!(Error::DevicesError("no device".to_string()).message(), "no device");
    assert_eq!(Error::PlayStreamError("busy".to_string()).message(), "busy");
    assert_eq!(Error::RandomError(String::new()).message(), "");
}
