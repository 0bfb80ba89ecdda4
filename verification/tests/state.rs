use evo_control::state::{
    check_schema, mixer_reset_ops, restore_ops, state_from_status, volume_ops, ControlOp, DeviceState,
};
use evo_control::status::DeviceStatus;

#[test]
fn default_state_routing() {
    let state = DeviceState::default();
    assert_eq!(state.schema, 1);
    assert_eq!(state.output_volume_q88, [0; 2]);
    assert_eq!(state.phantom, [false; 4]);
    // Default mixer: channels 0..3 have unity diagonal
    assert_eq!(state.mixer_q88[0][0], 0); // input 0 → L1
    assert_eq!(state.mixer_q88[0][1], 0); // input 0 → R1
    assert_eq!(state.mixer_q88[1][2], 0); // input 1 → L2
    assert_eq!(state.mixer_q88[1][3], 0); // input 1 → R2
    assert_eq!(state.mixer_q88[2][0], 0); // input 2 → L1
    assert_eq!(state.mixer_q88[3][2], 0); // input 3 → L2
    // Non-mic inputs are silence
    assert_eq!(state.mixer_q88[4][0], -128 * 256);
    assert_eq!(state.mixer_q88[9][3], -128 * 256);
    assert_eq!(state.mixer_q88[0][2], -128 * 256);
    assert_eq!(state.mixer_q88[1][0], -128 * 256);
}

#[test]
fn schema_versions() {
    assert!(check_schema(0).is_ok());
    assert!(check_schema(1).is_ok());
    assert_eq!(check_schema(99), Err(99));
    assert_eq!(check_schema(2), Err(2));
}

#[test]
fn restore_writes_every_setting_in_order() {
    let mut state = DeviceState::default();
    state.output_volume_q88 = [-5120, -256];
    state.input_gain_q88 = [256, 512, 768, 1024];
    state.phantom = [true, false, true, false];
    state.output_mute = true;
    state.mixer_q88[9][3] = 77;
    let ops = restore_ops(&state);
    assert_eq!(ops.len(), 55);
    assert_eq!(ops[0], ControlOp::VolumeSet { pair: 0, level: -5120 });
    assert_eq!(ops[1], ControlOp::VolumeSet { pair: 1, level: -256 });
    assert_eq!(ops[2], ControlOp::GainSet { input: 0, level: 256 });
    assert_eq!(ops[3], ControlOp::PhantomSet { input: 0, on: true });
    assert_eq!(ops[4], ControlOp::InputMuteSet { input: 0, muted: false });
    assert_eq!(ops[13], ControlOp::InputMuteSet { input: 3, muted: false });
    assert_eq!(ops[14], ControlOp::OutputMuteSet { muted: true });
    assert_eq!(ops[15], ControlOp::MixerSet { in_idx: 0, out_idx: 0, level: 0 });
    assert_eq!(ops[54], ControlOp::MixerSet { in_idx: 9, out_idx: 3, level: 77 });
}

#[test]
fn mixer_reset_writes_defaults() {
    let ops = mixer_reset_ops();
    assert_eq!(ops.len(), 40);
    assert_eq!(ops[0], ControlOp::MixerSet { in_idx: 0, out_idx: 0, level: 0 });
    assert_eq!(ops[2], ControlOp::MixerSet { in_idx: 0, out_idx: 2, level: -32768 });
    assert_eq!(ops[6], ControlOp::MixerSet { in_idx: 1, out_idx: 2, level: 0 });
    assert_eq!(ops[39], ControlOp::MixerSet { in_idx: 9, out_idx: 3, level: -32768 });
}

#[test]
fn volume_targets() {
    assert_eq!(volume_ops(Some(1), 5), vec![ControlOp::VolumeSet { pair: 1, level: 5 }]);
    assert_eq!(
        volume_ops(None, -7),
        vec![ControlOp::VolumeSet { pair: 0, level: -7 }, ControlOp::VolumeSet { pair: 1, level: -7 }]
    );
}

#[test]
fn state_from_status_takes_the_snapshot_and_default_mixer() {
    let status = DeviceStatus {
        volume_q88: [-5120, -256],
        gain_q88: [0, 20 * 256, -8 * 256, 50 * 256],
        phantom: [true, false, false, true],
        input_mute: [false, true, false, false],
        output_mute: true,
    };
    let s = state_from_status(&status);
    assert_eq!(s.schema, 1);
    assert_eq!(s.output_volume_q88, status.volume_q88);
    assert_eq!(s.input_gain_q88, status.gain_q88);
    assert_eq!(s.phantom, status.phantom);
    assert_eq!(s.input_mute, status.input_mute);
    assert!(s.output_mute);
    assert_eq!(s.mixer_q88, DeviceState::default().mixer_q88);
}
