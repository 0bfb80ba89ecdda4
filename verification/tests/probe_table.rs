use evo_control::controls::{CS_EU58_MUTE, CS_EU58_PHANTOM, CS_VOLUME};
use evo_control::entities::{W_INDEX_EU58, W_INDEX_FU10, W_INDEX_FU11, W_INDEX_MU60};
use evo_control::error::DriverError;
use evo_control::probe::{
    all_controls, count_failures, decode_bool, decode_db, format_table, probe_one,
    reencode_identity, Decoder, ProbeControl, ProbeStatus, Reencoder,
};

#[test]
fn control_table_count() {
    let controls = all_controls();
    // FU10: 4, FU11: 4, EU58 phantom: 4, EU58 mute: 4, EU59: 1, MU60: 2 = 19
    assert_eq!(controls.len(), 19);
}

#[test]
fn fu10_wvalues() {
    let controls = all_controls();
    let fu10: Vec<_> = controls.iter().filter(|c| c.name.contains("FU10")).collect();
    assert_eq!(fu10.len(), 4);
    for c in &fu10 {
        assert_eq!(c.w_index, W_INDEX_FU10);
        assert_eq!((c.w_value >> 8) as u8, CS_VOLUME);
    }
    // CN should be 1..4
    let cns: Vec<u8> = fu10.iter().map(|c| (c.w_value & 0xFF) as u8).collect();
    assert_eq!(cns, vec![1, 2, 3, 4]);
}

#[test]
fn fu11_wvalues() {
    let controls = all_controls();
    let fu11: Vec<_> = controls.iter().filter(|c| c.name.contains("FU11")).collect();
    assert_eq!(fu11.len(), 4);
    for c in &fu11 {
        assert_eq!(c.w_index, W_INDEX_FU11);
        assert_eq!((c.w_value >> 8) as u8, CS_VOLUME);
    }
}

#[test]
fn eu58_phantom_wvalues() {
    let controls = all_controls();
    let phantom: Vec<_> = controls.iter().filter(|c| c.name.contains("phantom")).collect();
    assert_eq!(phantom.len(), 4);
    for c in &phantom {
        assert_eq!(c.w_index, W_INDEX_EU58);
        assert_eq!((c.w_value >> 8) as u8, CS_EU58_PHANTOM);
    }
}

#[test]
fn eu58_mute_wvalues() {
    let controls = all_controls();
    // EU58 mutes have "mute input" in the name; EU59 has "output mute"
    let mutes: Vec<_> = controls.iter().filter(|c| c.name.contains("mute input")).collect();
    assert_eq!(mutes.len(), 4);
    for c in &mutes {
        assert_eq!(c.w_index, W_INDEX_EU58);
        assert_eq!((c.w_value >> 8) as u8, CS_EU58_MUTE);
    }
}

#[test]
fn mu60_stall_ok() {
    let controls = all_controls();
    let mu60: Vec<_> = controls.iter().filter(|c| c.name.contains("MU60")).collect();
    assert_eq!(mu60.len(), 2);
    for c in &mu60 {
        assert!(c.stall_ok);
        assert_eq!(c.w_index, W_INDEX_MU60);
    }
}

#[test]
fn expected_lengths() {
    for c in all_controls() {
        if c.name.contains("MU60") || c.name.contains("FU1") {
            assert_eq!(c.expected_len, 2, "{} should be 2 bytes", c.name);
        } else {
            assert_eq!(c.expected_len, 4, "{} should be 4 bytes", c.name);
        }
    }
}

#[test]
fn probe_status_is_failure() {
    assert!(!ProbeStatus::Passed("0.0 dB".into()).is_failure());
    assert!(ProbeStatus::Shape { got: 1, expected: 2 }.is_failure());
    assert!(ProbeStatus::Stall.is_failure());
}

fn test_control() -> ProbeControl {
    ProbeControl {
        name: "test".into(),
        w_value: 0,
        w_index: 0,
        expected_len: 2,
        decode: Decoder::Db,
        reencode: Reencoder::Identity,
        stall_ok: false,
    }
}

#[test]
fn status_ok_for_good_data() {
    let ctrl = test_control();
    assert!(matches!(ctrl.status(&[0x00, 0x00]), ProbeStatus::Passed(_)));
}

#[test]
fn status_shape_for_short_data() {
    let ctrl = test_control();
    assert!(matches!(ctrl.status(&[0x00]), ProbeStatus::Shape { .. }));
}

#[test]
fn status_stall_for_empty() {
    let ctrl = test_control();
    assert!(matches!(ctrl.status(&[]), ProbeStatus::Stall));
}

#[test]
fn decode_db_works() {
    assert_eq!(decode_db(&[0x00, 0x00]), "0.0 dB");
    assert_eq!(decode_db(&[0x00, 0x80]), "-128.0 dB");
}

#[test]
fn decode_bool_works() {
    assert_eq!(decode_bool(&[1, 0, 0, 0]), "ON");
    assert_eq!(decode_bool(&[0, 0, 0, 0]), "OFF");
}

#[test]
fn decode_short() {
    assert_eq!(decode_db(&[0x00]), "?");
    assert_eq!(decode_bool(&[1, 0, 0]), "?");
}

// ── further cases ─────────────────────────────────────────────────────────

#[test]
fn control_names_and_requests() {
    let controls = all_controls();
    let names: Vec<&str> = controls.iter().map(|c| c.name.as_str()).collect();
    assert_eq!(
        names,
        vec![
            "FU10 volume pair1 CH1",
            "FU10 volume pair1 CH2",
            "FU10 volume pair2 CH3",
            "FU10 volume pair2 CH4",
            "FU11 gain input1",
            "FU11 gain input2",
            "FU11 gain input3",
            "FU11 gain input4",
            "EU58 phantom input1",
            "EU58 phantom input2",
            "EU58 phantom input3",
            "EU58 phantom input4",
            "EU58 mute input1",
            "EU58 mute input2",
            "EU58 mute input3",
            "EU58 mute input4",
            "EU59 output mute",
            "MU60 mixer[0][0]",
            "MU60 mixer[4][0]",
        ]
    );
    assert_eq!(controls[16].w_value, 0x0100);
    assert_eq!(controls[16].w_index, 0x3B00);
    assert_eq!(controls[17].w_value, 0x0100);
    assert_eq!(controls[18].w_value, 0x0110);
    assert_eq!(controls[9].w_value, 0x0001);
    assert_eq!(controls[13].w_value, 0x0201);
    assert!(controls.iter().filter(|c| c.stall_ok).count() == 2);
}

#[test]
fn decode_db_matches_float_formatting() {
    for raw in i16::MIN..=i16::MAX {
        let bytes = raw.to_le_bytes();
        let expected = format!("{:.1} dB", raw as f32 / 256.0);
        assert_eq!(decode_db(&bytes), expected, "raw {raw}");
    }
}

#[test]
fn decode_values() {
    assert_eq!(decode_db(&[0x00, 0xEC]), "-20.0 dB");
    assert_eq!(decode_db(&[0x00, 0x06, 0x55]), "6.0 dB");
    assert_eq!(decode_db(&[0x40, 0x00]), "0.2 dB");
    assert_eq!(decode_db(&[0xFF, 0xFF]), "-0.0 dB");
    assert_eq!(decode_bool(&[2, 0, 0, 0]), "OFF");
    assert_eq!(decode_bool(&[1, 0, 0, 0, 7]), "ON");
    assert_eq!(reencode_identity(&[3, 1, 4]), vec![3, 1, 4]);
}

#[test]
fn status_shape_and_value() {
    let mut ctrl = test_control();
    ctrl.expected_len = 4;
    ctrl.decode = Decoder::Bool;
    match ctrl.status(&[1, 0]) {
        ProbeStatus::Shape { got, expected } => {
            assert_eq!(got, 2);
            assert_eq!(expected, 4);
        }
        other => panic!("unexpected {other:?}"),
    }
    match ctrl.status(&[1, 0, 0, 0]) {
        ProbeStatus::Passed(v) => assert_eq!(v, "ON"),
        other => panic!("unexpected {other:?}"),
    }
}

#[test]
fn probe_one_maps_outcomes() {
    let ctrl = test_control();
    assert!(matches!(probe_one(&ctrl, &Ok(vec![])), ProbeStatus::Stall));
    assert!(matches!(probe_one(&ctrl, &Err(DriverError::Transfer(32))), ProbeStatus::Stall));
    assert!(matches!(probe_one(&ctrl, &Err(DriverError::Disconnected)), ProbeStatus::Stall));
    assert!(matches!(probe_one(&ctrl, &Ok(vec![5])), ProbeStatus::Shape { got: 1, expected: 2 }));
    match probe_one(&ctrl, &Ok(vec![0x00, 0xEC])) {
        ProbeStatus::Passed(v) => assert_eq!(v, "-20.0 dB"),
        other => panic!("unexpected {other:?}"),
    }
}

#[test]
fn table_layout() {
    let controls = all_controls();
    let mut results = Vec::new();
    let mut it = controls.into_iter();
    let first = it.next().unwrap();
    results.push((first, ProbeStatus::Passed("-20.0 dB".to_string())));
    let second = it.next().unwrap();
    results.push((second, ProbeStatus::Stall));
    let table = format_table(&results);
    let mut expected = String::new();
    expected.push_str(&format!(
        "{:<35} {:>8} {:>8} {:>5} {:>5} {:<12} {}\n",
        "Control", "wValue", "wIndex", "Exp", "Got", "Value", "Status"
    ));
    expected.push_str(&format!("{}\n", "─".repeat(95)));
    expected.push_str(&format!(
        "{:<35} 0x{:04X} 0x{:04X} {:>3} {:>3} {:<12} {}\n",
        "FU10 volume pair1 CH1", 0x0201, 0x0A00, 2, 2, "-20.0 dB", "OK"
    ));
    expected.push_str("\x1b[31m");
    expected.push_str(&format!(
        "{:<35} 0x{:04X} 0x{:04X} {:>3} {:>3} {:<12} {}\n",
        "FU10 volume pair1 CH2", 0x0202, 0x0A00, 2, 0, "—", "STALL"
    ));
    expected.push_str("\x1b[0m");
    assert_eq!(table, expected);
    assert_eq!(count_failures(&results), 1);
}

#[test]
fn only_rows_read_ok_are_written_back() {
    assert!(ProbeStatus::Passed("ON".into()).writes_back());
    assert!(!ProbeStatus::Shape { got: 1, expected: 4 }.writes_back());
    assert!(!ProbeStatus::Stall.writes_back());
}
