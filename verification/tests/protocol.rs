use evo_control::codec::{bool_to_eu, eu_to_bool, level_from_le, level_to_le};
use evo_control::device::evo8;
use evo_control::entities::{mixer_cn, w_value};

#[test]
fn bool_payload() {
    assert_eq!(bool_to_eu(true), [1, 0, 0, 0]);
    assert_eq!(bool_to_eu(false), [0, 0, 0, 0]);
    assert!(eu_to_bool(&[1, 0, 0, 0]));
    assert!(!eu_to_bool(&[0, 0, 0, 0]));
}

#[test]
fn bool_payload_round_trip_and_edges() {
    for b in [true, false] {
        assert_eq!(eu_to_bool(&bool_to_eu(b)), b);
    }
    assert!(!eu_to_bool(&[1, 0, 0]));
    assert!(!eu_to_bool(&[]));
    assert!(!eu_to_bool(&[1, 0, 0, 1]));
    assert!(!eu_to_bool(&[2, 0, 0, 0]));
    assert!(eu_to_bool(&[1, 0, 0, 0, 9, 9]));
}

#[test]
fn level_wire_round_trip() {
    for raw in i16::MIN..=i16::MAX {
        let bytes = level_to_le(raw);
        assert_eq!(bytes, raw.to_le_bytes());
        assert_eq!(level_from_le(&bytes), raw);
    }
    // -20 dB is 0xEC00
    assert_eq!(level_to_le(-5120), [0x00, 0xEC]);
    assert_eq!(level_from_le(&[0x00, 0x80, 0x12]), i16::MIN);
}

#[test]
fn w_value_and_mixer_cn() {
    assert_eq!(w_value(2, 1), 0x0201);
    assert_eq!(w_value(0, 3), 0x0003);
    assert_eq!(w_value(0xFF, 0xFF), 0xFFFF);
    assert_eq!(mixer_cn(0, 0, 4), 0);
    assert_eq!(mixer_cn(9, 3, 4), 39);
    assert_eq!(mixer_cn(2, 1, 4), 9);
    let mut seen = std::collections::HashSet::new();
    for i in 0..10u8 {
        for o in 0..4u8 {
            assert!(seen.insert(mixer_cn(i, o, 4)));
        }
    }
    assert_eq!(seen.len(), 40);
}

#[test]
fn evo8_spec_and_clamps() {
    let s = evo8();
    assert_eq!((s.vid, s.pid), (0x2708, 0x0007));
    assert_eq!(s.display_name, "Audient EVO 8");
    assert_eq!((s.num_inputs, s.num_output_pairs, s.mixer_inputs, s.mixer_outputs), (4, 2, 10, 4));
    assert_eq!(s.mixer_crosspoints(), 40);
    // volume: -96..0 dB
    assert_eq!(s.clamp_vol(-30000), -96 * 256);
    assert_eq!(s.clamp_vol(100), 0);
    assert_eq!(s.clamp_vol(-5120), -5120);
    // gain: -8..50 dB in 1 dB steps, halves away from zero
    assert_eq!(s.clamp_gain(100 * 256), 50 * 256);
    assert_eq!(s.clamp_gain(-20 * 256), -8 * 256);
    assert_eq!(s.clamp_gain(5248), 21 * 256); // 20.5 dB
    assert_eq!(s.clamp_gain(-1152), -5 * 256); // -4.5 dB
    assert_eq!(s.clamp_gain(5247), 20 * 256);
    assert_eq!(s.clamp_gain(i32::MIN), -8 * 256);
    // mixer: -128..6 dB
    assert_eq!(s.clamp_mixer(2000), 6 * 256);
    assert_eq!(s.clamp_mixer(i32::MIN), i16::MIN);
    assert_eq!(s.clamp_mixer(0), 0);
}

#[test]
fn gain_with_zero_step_is_zero() {
    let mut s = evo8();
    s.gain_q88_step = 0;
    assert_eq!(s.clamp_gain(1000), 0);
}
