use evo_control::command::{mixer_label, mixer_table};
use evo_control::state::{record_mixer_level, DeviceState};

/// The table as the front end lays it out from levels in dB.
fn expected(mixer: &[[i16; 4]; 10]) -> String {
    let mut s = String::new();
    s.push_str("Mixer matrix (10 inputs \u{00d7} 4 outputs)\n");
    s.push_str("Values in dB, -128 = silence\n\n");
    s.push_str("       ");
    for out in 0..4 {
        s.push_str(&format!("  out{out:>5} "));
    }
    s.push('\n');
    s.push_str(&format!("  {}\n", "\u{2500}".repeat(50)));
    for in_idx in 0..10 {
        s.push_str(&format!("  {}  ", mixer_label(in_idx as u8)));
        for out_idx in 0..4 {
            let db = mixer[in_idx][out_idx] as f32 / 256.0;
            if db <= -128.0 {
                s.push_str(&format!("  {:<7}", "\u{2014}"));
            } else {
                s.push_str(&format!("  {db:>5.1}  "));
            }
        }
        s.push('\n');
    }
    s
}

#[test]
fn default_mixer_table() {
    let state = DeviceState::default();
    let table = mixer_table(&state);
    assert_eq!(table, expected(&state.mixer_q88));
    assert!(table.contains("  in1        0.0      0.0    \u{2014}        \u{2014}      \n"));
}

#[test]
fn mixer_table_levels() {
    let mut state = DeviceState::default();
    let levels: [i16; 8] = [-32767, -25600, -1536, -77, 1, 1536, -32768, 640];
    for (k, l) in levels.iter().enumerate() {
        state.mixer_q88[k % 10][k % 4] = *l;
        state.mixer_q88[9 - k % 10][3 - k % 4] = l.wrapping_mul(3) / 4;
    }
    assert_eq!(mixer_table(&state), expected(&state.mixer_q88));
}

#[test]
fn mixer_get_after_mixer_set_shows_the_new_value() {
    let mut state = DeviceState::default();
    let before = state;
    record_mixer_level(&mut state, 5, 2, -6 * 256);
    assert_eq!(state.mixer_q88[5][2], -6 * 256);
    for i in 0..10 {
        for o in 0..4 {
            if (i, o) != (5, 2) {
                assert_eq!(state.mixer_q88[i][o], before.mixer_q88[i][o]);
            }
        }
    }
    let table = mixer_table(&state);
    assert_eq!(table, expected(&state.mixer_q88));
    assert!(table.contains("  DAW2    \u{2014}        \u{2014}         -6.0    \u{2014}      \n"));
}
