use blync_light::error::EffectError;
use blync_light::interpolate::{channel_of_offset, linear_steps, pulse_wave};

#[test]
fn ramp_midpoint_is_halfway() {
    let ramp = linear_steps((0, 0, 0), (100, 0, 0), 10).expect("ten steps");
    assert_eq!(ramp.len(), 10);
    assert_eq!(ramp[5], (50, 0, 0));
}

#[test]
fn ramp_starts_at_start_and_stops_short_of_end() {
    let ramp = linear_steps((10, 200, 0), (110, 100, 255), 4).expect("four steps");
    assert_eq!(ramp, vec![(10, 200, 0), (35, 175, 63), (60, 150, 127), (85, 125, 191)]);
}

#[test]
fn ramp_division_truncates() {
    let up = linear_steps((0, 0, 0), (10, 0, 0), 3).expect("three steps");
    assert_eq!(up, vec![(0, 0, 0), (3, 0, 0), (6, 0, 0)]);
    let down = linear_steps((100, 0, 0), (0, 0, 0), 7).expect("seven steps");
    let reds: Vec<u8> = down.iter().map(|c| c.0).collect();
    assert_eq!(reds, vec![100, 86, 72, 58, 43, 29, 15]);
}

#[test]
fn ramp_of_one_step_is_the_start() {
    assert_eq!(linear_steps((1, 2, 3), (200, 100, 50), 1), Ok(vec![(1, 2, 3)]));
}

#[test]
fn ramp_between_equal_colours_is_flat() {
    let ramp = linear_steps((7, 8, 9), (7, 8, 9), 5).expect("five steps");
    assert_eq!(ramp, vec![(7, 8, 9); 5]);
}

#[test]
fn ramp_over_the_full_range_stays_in_range() {
    let ramp = linear_steps((0, 255, 0), (255, 0, 0), 1000).expect("a thousand steps");
    assert_eq!(ramp.len(), 1000);
    assert_eq!(ramp[0], (0, 255, 0));
    assert_eq!(ramp[999], (254, 1, 0));
    assert_eq!(ramp[500], (127, 128, 0));
    for pair in ramp.windows(2) {
        assert!(pair[0].0 <= pair[1].0);
        assert!(pair[0].1 >= pair[1].1);
    }
}

#[test]
fn ramp_of_zero_steps_is_refused() {
    assert_eq!(linear_steps((0, 0, 0), (1, 1, 1), 0), Err(EffectError::InvalidParameter));
}

#[test]
fn ramp_is_the_same_every_time() {
    let first = linear_steps((3, 30, 200), (250, 0, 100), 17);
    let second = linear_steps((3, 30, 200), (250, 0, 100), 17);
    assert_eq!(first, second);
}

#[test]
fn short_wave_only_rises() {
    let wave = pulse_wave(255, 10).expect("ten positions");
    assert_eq!(wave, vec![1, 2, 3, 4, 5, 6, 7, 8, 9, 10]);
}

#[test]
fn wave_folds_past_the_peak() {
    let wave = pulse_wave(3, 8).expect("eight positions");
    assert_eq!(wave, vec![1, 2, 3, -4, -5, -6, -7, -8]);
}

#[test]
fn full_wave_rises_then_falls() {
    let wave = pulse_wave(255, 510).expect("a full cycle");
    assert_eq!(wave.len(), 510);
    assert_eq!(wave[0], 1);
    assert_eq!(wave[254], 255);
    assert_eq!(wave[255], -256);
    assert_eq!(wave[509], -510);
    for i in 0..254 {
        assert_eq!(wave[i + 1], wave[i] + 1);
    }
    for i in 255..509 {
        assert_eq!(wave[i + 1], wave[i] - 1);
    }
    assert!(wave.iter().all(|z| *z <= 255));
}

#[test]
fn wave_channel_mirrors_around_the_fold() {
    let wave = pulse_wave(255, 510).expect("a full cycle");
    let channel: Vec<u8> = wave.iter().map(|z| channel_of_offset(*z)).collect();
    assert_eq!(channel[255], 0);
    for k in 1..255 {
        assert_eq!(channel[255 + k], channel[255 - k]);
        assert_eq!(channel[255 - k] as usize, 256 - k);
    }
}

#[test]
fn wave_of_zero_positions_is_refused() {
    assert_eq!(pulse_wave(255, 0), Err(EffectError::InvalidParameter));
    assert_eq!(pulse_wave(0, 0), Err(EffectError::InvalidParameter));
}

#[test]
fn wave_with_zero_peak_is_all_negative() {
    assert_eq!(pulse_wave(0, 3), Ok(vec![-1, -2, -3]));
}

#[test]
fn longest_wave_fits() {
    let wave = pulse_wave(65535, 65535).expect("the longest wave");
    assert_eq!(wave[65534], 65535);
    let folded = pulse_wave(0, 65535).expect("the longest wave");
    assert_eq!(folded[65534], -65535);
}

#[test]
fn offsets_wrap_onto_the_channel() {
    assert_eq!(channel_of_offset(0), 0);
    assert_eq!(channel_of_offset(1), 1);
    assert_eq!(channel_of_offset(255), 255);
    assert_eq!(channel_of_offset(256), 0);
    assert_eq!(channel_of_offset(-1), 255);
    assert_eq!(channel_of_offset(-256), 0);
    assert_eq!(channel_of_offset(-257), 255);
    assert_eq!(channel_of_offset(-510), 2);
    assert_eq!(channel_of_offset(i32::MIN), 0);
    assert_eq!(channel_of_offset(i32::MAX), 255);
    for z in -1000i32..1000 {
        assert_eq!(channel_of_offset(z), z as u8);
    }
}
