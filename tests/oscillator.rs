use wavetable::oscillator::{OscillatorError, WaveTableOscillator, PHASE_ONE};
use wavetable::table::{build_square, FULL_SCALE};

fn oscillator(sample_rate: u32, table: Vec<i16>) -> WaveTableOscillator {
    WaveTableOscillator::new(sample_rate, table).expect("valid oscillator")
}

fn ramp(len: usize) -> Vec<i16> {
    (0..len).map(|n| (n as i16) * 100 - 350).collect()
}

#[test]
fn square_table_levels_and_boundary() {
    let table = build_square(64);
    assert_eq!(table.len(), 64);
    assert!(table.iter().all(|&s| s == FULL_SCALE || s == -FULL_SCALE));
    assert_eq!(table[0], -FULL_SCALE);
    assert_eq!(table[32], -FULL_SCALE);
    assert_eq!(table[33], FULL_SCALE);
    assert_eq!(table[63], FULL_SCALE);
    assert_eq!(table.iter().filter(|&&s| s == -FULL_SCALE).count(), 33);
}

#[test]
fn square_table_small_lengths() {
    assert_eq!(build_square(0), Vec::<i16>::new());
    assert_eq!(build_square(1), vec![-FULL_SCALE]);
    assert_eq!(build_square(2), vec![-FULL_SCALE, -FULL_SCALE]);
    assert_eq!(build_square(4), vec![-FULL_SCALE, -FULL_SCALE, -FULL_SCALE, FULL_SCALE]);
    assert_eq!(
        build_square(5),
        vec![-FULL_SCALE, -FULL_SCALE, -FULL_SCALE, FULL_SCALE, FULL_SCALE]
    );
}

#[test]
fn square_at_220_hz_scenario() {
    let mut osc = oscillator(44100, build_square(64));
    osc.set_frequency(220_000);
    // 220 * 64 / 44100 of a slot, about 0.3193, rounded down to a phase unit.
    assert_eq!(osc.index_increment(), 20923);
    assert_eq!(osc.get_sample(), -FULL_SCALE);
    osc.get_sample();
    osc.get_sample();
    // About 0.958 of a slot: still between the first two entries.
    assert_eq!(osc.index(), 3 * 20923);
    assert!(osc.index() < PHASE_ONE);
    assert_eq!(osc.lerp(), -FULL_SCALE);
}

#[test]
fn new_oscillator_starts_silent_at_phase_zero() {
    let mut osc = oscillator(48000, ramp(8));
    assert_eq!(osc.index(), 0);
    assert_eq!(osc.index_increment(), 0);
    assert_eq!(osc.get_sample(), -350);
    assert_eq!(osc.get_sample(), -350);
}

#[test]
fn empty_table_is_rejected() {
    assert_eq!(
        WaveTableOscillator::new(44100, Vec::new()).err(),
        Some(OscillatorError::EmptyTable)
    );
}

#[test]
fn zero_sample_rate_is_rejected() {
    assert_eq!(
        WaveTableOscillator::new(0, build_square(64)).err(),
        Some(OscillatorError::ZeroSampleRate)
    );
}

#[test]
fn whole_steps_read_exact_entries() {
    let table = ramp(8);
    let mut osc = oscillator(8000, table.clone());
    // 2000 Hz on 8 entries at 8000 samples per second: two slots per sample.
    osc.set_frequency(2_000_000);
    assert_eq!(osc.index_increment(), 2 * PHASE_ONE);
    let pulled: Vec<i16> = (0..8).map(|_| osc.get_sample()).collect();
    assert_eq!(
        pulled,
        vec![table[0], table[2], table[4], table[6], table[0], table[2], table[4], table[6]]
    );
}

#[test]
fn zero_frequency_freezes_the_phase() {
    let mut osc = oscillator(128, ramp(64));
    osc.set_frequency(500);
    osc.get_sample();
    osc.set_frequency(0);
    assert_eq!(osc.index_increment(), 0);
    let first = osc.get_sample();
    for _ in 0..100 {
        assert_eq!(osc.get_sample(), first);
    }
    assert_eq!(osc.index(), PHASE_ONE / 4);
}

#[test]
fn unit_step_replays_the_table() {
    let table = ramp(8);
    let mut osc = oscillator(8000, table.clone());
    osc.set_frequency(1_000_000);
    assert_eq!(osc.index_increment(), PHASE_ONE);
    let first: Vec<i16> = (0..8).map(|_| osc.get_sample()).collect();
    let second: Vec<i16> = (0..8).map(|_| osc.get_sample()).collect();
    assert_eq!(first, table);
    assert_eq!(second, table);
}

#[test]
fn midpoint_interpolates_to_the_mean() {
    let mut table = vec![0i16; 64];
    table[0] = 100;
    table[1] = 201;
    let mut osc = oscillator(128, table);
    // 1 Hz on 64 entries at 128 samples per second: half a slot per sample.
    osc.set_frequency(1000);
    assert_eq!(osc.index_increment(), PHASE_ONE / 2);
    assert_eq!(osc.get_sample(), 100);
    assert_eq!(osc.lerp(), 150);
    assert_eq!(osc.get_sample(), 150);
    assert_eq!(osc.get_sample(), 201);
}

#[test]
fn midpoint_mean_rounds_down() {
    let mut table = vec![0i16; 64];
    table[0] = -3;
    let mut osc = oscillator(128, table);
    osc.set_frequency(1000);
    osc.get_sample();
    assert_eq!(osc.lerp(), -2);
}

#[test]
fn quarter_point_interpolation() {
    let mut table = vec![0i16; 64];
    table[1] = 1000;
    let mut osc = oscillator(128, table);
    osc.set_frequency(500);
    assert_eq!(osc.index_increment(), PHASE_ONE / 4);
    assert_eq!(osc.get_sample(), 0);
    assert_eq!(osc.get_sample(), 250);
    assert_eq!(osc.get_sample(), 500);
    assert_eq!(osc.get_sample(), 750);
    assert_eq!(osc.get_sample(), 1000);
}

#[test]
fn last_entry_interpolates_towards_the_first() {
    let table = vec![1000i16, 0, 0, 0];
    let mut osc = oscillator(4000, table);
    // Half a slot per sample.
    osc.set_frequency(500_000);
    let pulled: Vec<i16> = (0..9).map(|_| osc.get_sample()).collect();
    assert_eq!(pulled, vec![1000, 500, 0, 0, 0, 0, 0, 500, 1000]);
}

#[test]
fn negative_frequency_walks_backwards() {
    let table = ramp(8);
    let mut osc = oscillator(8000, table.clone());
    osc.set_frequency(-1_000_000);
    assert_eq!(osc.index_increment(), 7 * PHASE_ONE);
    let pulled: Vec<i16> = (0..9).map(|_| osc.get_sample()).collect();
    assert_eq!(
        pulled,
        vec![
            table[0], table[7], table[6], table[5], table[4], table[3], table[2], table[1],
            table[0]
        ]
    );
}

#[test]
fn increment_past_the_table_wraps() {
    let mut osc = oscillator(8000, ramp(8));
    // Nine slots per sample on an eight-entry table is one slot per sample.
    osc.set_frequency(9_000_000);
    assert_eq!(osc.index_increment(), PHASE_ONE);
}

#[test]
fn fractional_increment_rounds_down() {
    let mut osc = oscillator(3, ramp(1));
    // A third of a slot per sample.
    osc.set_frequency(1000);
    assert_eq!(osc.index_increment(), 21845);
}

#[test]
fn stream_descriptor() {
    let osc = oscillator(44100, build_square(64));
    assert_eq!(osc.channels(), 1);
    assert_eq!(osc.sample_rate(), 44100);
    assert_eq!(osc.current_frame_len(), None);
}
