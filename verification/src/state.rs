//! The complete device state that is saved and restored, and the settings
//! that restoring it writes to the device.
//!
//! Levels are Q8.8 (1/256 dB). Gains are requested in whole dB, the step
//! the device quantizes gain writes to.

use vstd::prelude::*;
use crate::status::DeviceStatus;

verus! {

/// The schema version of the saved state this library reads.
pub const SCHEMA: u32 = 1;

/// Number of mixer matrix inputs and outputs in the saved state.
pub const MIXER_INPUTS: usize = 10;
pub const MIXER_OUTPUTS: usize = 4;

/// Level of a silent mixer cross-point: -128 dB.
pub const SILENCE_Q88: i16 = -32768;

/// Complete device state.
#[derive(Clone, Copy, Debug)]
pub struct DeviceState {
    /// Schema version for forward compatibility. Current: 1.
    pub schema: u32,
    /// Output volume for each pair (index 0 = main, 1 = headphone).
    pub output_volume_q88: [i16; 2],
    /// Input gain for inputs 1 to 4 (0-indexed).
    pub input_gain_q88: [i16; 4],
    /// Phantom 48V power state for inputs 1 to 4 (0-indexed).
    pub phantom: [bool; 4],
    /// Input mute for inputs 1 to 4 (0-indexed).
    pub input_mute: [bool; 4],
    /// Output mute (applies to both pairs).
    pub output_mute: bool,
    /// Write-only MU60 loopback mixer matrix: 10 inputs x 4 outputs,
    /// stored as [input][output].
    pub mixer_q88: [[i16; MIXER_OUTPUTS]; MIXER_INPUTS],
}

/// A write of one setting to the device.
#[derive(Clone, Copy, Debug, PartialEq, Eq, Structural)]
pub enum ControlOp {
    /// Set both channels of an output pair to a level (Q8.8).
    VolumeSet { pair: u8, level: i32 },
    /// Set the gain of an input to a level (Q8.8).
    GainSet { input: u8, level: i32 },
    /// Switch the phantom power of an input.
    PhantomSet { input: u8, on: bool },
    /// Mute or unmute an input.
    InputMuteSet { input: u8, muted: bool },
    /// Mute or unmute the outputs.
    OutputMuteSet { muted: bool },
    /// Set a mixer cross-point to a level (Q8.8).
    MixerSet { in_idx: u8, out_idx: u8, level: i32 },
}

/// The hardware default of a mixer cross-point: each mic/line input is
/// routed at unity to its loopback pair (inputs 1 and 3 to L1/R1, inputs 2
/// and 4 to L2/R2); every other cross-point is silent.
pub open spec fn spec_default_mixer(in_idx: int, out_idx: int) -> i16 {
    if in_idx < 4 && out_idx / 2 == in_idx % 2 {
        0
    } else {
        SILENCE_Q88
    }
}

impl DeviceState {
    /// The state is the hardware default: schema 1, every level 0 dB, every
    /// switch off, the mixer at its default routing.
    pub open spec fn is_default(&self) -> bool {
        &&& self.schema == SCHEMA
        &&& self.output_volume_q88@ == seq![0i16, 0i16]
        &&& self.input_gain_q88@ == seq![0i16, 0i16, 0i16, 0i16]
        &&& self.phantom@ == seq![false, false, false, false]
        &&& self.input_mute@ == seq![false, false, false, false]
        &&& !self.output_mute
        &&& self.mixer_matches_default()
    }

    /// Every mixer cross-point holds its hardware default.
    pub open spec fn mixer_matches_default(&self) -> bool {
        forall|i: int, o: int|
            0 <= i < MIXER_INPUTS && 0 <= o < MIXER_OUTPUTS ==> #[trigger] self.mixer_q88@[i]@[o]
                == spec_default_mixer(i, o)
    }
}

/// The hardware default routing, cross-point by cross-point: inputs 1 and 3
/// reach both channels of loopback pair 1 (outputs 0 and 1) at unity,
/// inputs 2 and 4 reach both channels of loopback pair 2 (outputs 2 and 3)
/// at unity, and every other cross-point is silent.
pub proof fn lemma_default_routing()
    ensures
        forall|o: int|
            0 <= o < 2 ==> #[trigger] spec_default_mixer(0, o) == 0 && spec_default_mixer(2, o)
                == 0 && spec_default_mixer(1, o) == SILENCE_Q88 && spec_default_mixer(3, o)
                == SILENCE_Q88,
        forall|o: int|
            2 <= o < 4 ==> #[trigger] spec_default_mixer(1, o) == 0 && spec_default_mixer(3, o)
                == 0 && spec_default_mixer(0, o) == SILENCE_Q88 && spec_default_mixer(2, o)
                == SILENCE_Q88,
        forall|i: int, o: int|
            4 <= i < MIXER_INPUTS && 0 <= o < MIXER_OUTPUTS ==> #[trigger] spec_default_mixer(i, o)
                == SILENCE_Q88,
        spec_default_mixer(0, 0) == 0 && spec_default_mixer(0, 1) == 0,
        spec_default_mixer(1, 2) == 0 && spec_default_mixer(1, 3) == 0,
        spec_default_mixer(2, 0) == 0 && spec_default_mixer(2, 1) == 0,
        spec_default_mixer(3, 2) == 0 && spec_default_mixer(3, 3) == 0,
{
}

/// The default mixer matrix.
pub fn default_mixer() -> (m: [[i16; MIXER_OUTPUTS]; MIXER_INPUTS])
    ensures
        forall|i: int, o: int|
            0 <= i < MIXER_INPUTS && 0 <= o < MIXER_OUTPUTS ==> #[trigger] m@[i]@[o]
                == spec_default_mixer(i, o),
        forall|i: int, o: int|
            0 <= i < MIXER_INPUTS && 0 <= o < MIXER_OUTPUTS ==> (#[trigger] m@[i]@[o] == 0 <==> (
            i < 4 && (o == 2 * (i % 2) || o == 2 * (i % 2) + 1))),
        forall|i: int, o: int|
            0 <= i < MIXER_INPUTS && 0 <= o < MIXER_OUTPUTS ==> (#[trigger] m@[i]@[o] == 0
                || m@[i]@[o] == SILENCE_Q88),
{
    let mut mixer = [[SILENCE_Q88; MIXER_OUTPUTS]; MIXER_INPUTS];
    let mut i: usize = 0;
    while i < MIXER_INPUTS
        invariant
            i <= MIXER_INPUTS,
            forall|a: int, o: int|
                0 <= a < i && 0 <= o < MIXER_OUTPUTS ==> #[trigger] mixer@[a]@[o]
                    == spec_default_mixer(a, o),
            forall|a: int, o: int|
                i <= a < MIXER_INPUTS && 0 <= o < MIXER_OUTPUTS ==> #[trigger] mixer@[a]@[o]
                    == SILENCE_Q88,
        decreases MIXER_INPUTS - i,
    {
        if i < 4 {
            let out_base = (i % 2) * 2;
            let mut row = mixer[i];
            row[out_base] = 0;
            row[out_base + 1] = 0;
            mixer[i] = row;
            assert forall|o: int| 0 <= o < MIXER_OUTPUTS implies #[trigger] mixer@[i as int]@[o]
                == spec_default_mixer(i as int, o) by {
                if o == out_base as int || o == out_base as int + 1 {
                } else {
                }
            }
        }
        i = i + 1;
    }
    mixer
}

impl Default for DeviceState {
    /// The hardware default: each mic/line input routed to its loopback
    /// pair, every level 0 dB, every switch off.
    fn default() -> (s: DeviceState)
        ensures
            s.is_default(),
    {
        let s = DeviceState {
            schema: SCHEMA,
            output_volume_q88: [0i16; 2],
            input_gain_q88: [0i16; 4],
            phantom: [false; 4],
            input_mute: [false; 4],
            output_mute: false,
            mixer_q88: default_mixer(),
        };
        assert(s.output_volume_q88@ =~= seq![0i16, 0i16]);
        assert(s.input_gain_q88@ =~= seq![0i16, 0i16, 0i16, 0i16]);
        assert(s.phantom@ =~= seq![false, false, false, false]);
        assert(s.input_mute@ =~= seq![false, false, false, false]);
        s
    }
}

/// The state a status snapshot shows: its levels, switches and mutes, with
/// the mixer (which cannot be read) at its hardware default.
pub fn state_from_status(status: &DeviceStatus) -> (s: DeviceState)
    ensures
        s.schema == SCHEMA,
        s.output_volume_q88 == status.volume_q88,
        s.input_gain_q88 == status.gain_q88,
        s.phantom == status.phantom,
        s.input_mute == status.input_mute,
        s.output_mute == status.output_mute,
        s.mixer_matches_default(),
{
    DeviceState {
        schema: SCHEMA,
        output_volume_q88: status.volume_q88,
        input_gain_q88: status.gain_q88,
        phantom: status.phantom,
        input_mute: status.input_mute,
        output_mute: status.output_mute,
        mixer_q88: default_mixer(),
    }
}

/// `new` is `old` with mixer cross-point (in_idx, out_idx) at `level`:
/// every other cross-point and every other setting is unchanged.
pub open spec fn spec_mixer_recorded(
    old: DeviceState,
    new: DeviceState,
    in_idx: int,
    out_idx: int,
    level: i16,
) -> bool {
    &&& new.mixer_q88@ == old.mixer_q88@.update(
        in_idx,
        new.mixer_q88@[in_idx],
    )
    &&& new.mixer_q88@[in_idx]@ == old.mixer_q88@[in_idx]@.update(out_idx, level)
    &&& new.schema == old.schema
    &&& new.output_volume_q88 == old.output_volume_q88
    &&& new.input_gain_q88 == old.input_gain_q88
    &&& new.phantom == old.phantom
    &&& new.input_mute == old.input_mute
    &&& new.output_mute == old.output_mute
}

/// Record in the saved state the level a mixer write sent: the mixer cannot
/// be read back, so the saved state is its only record.
pub fn record_mixer_level(state: &mut DeviceState, in_idx: u8, out_idx: u8, sent: i16)
    requires
        in_idx < MIXER_INPUTS,
        out_idx < MIXER_OUTPUTS,
    ensures
        final(state).mixer_q88@[in_idx as int]@[out_idx as int] == sent,
        spec_mixer_recorded(*old(state), *final(state), in_idx as int, out_idx as int, sent),
{
    let mut row = state.mixer_q88[in_idx as usize];
    row[out_idx as usize] = sent;
    state.mixer_q88[in_idx as usize] = row;
}

/// Whether a saved state of version `schema` can be read: versions up to
/// the one this library writes; a newer one is refused by its number.
pub fn check_schema(schema: u32) -> (r: Result<(), u32>)
    ensures
        schema <= SCHEMA ==> r is Ok,
        schema > SCHEMA ==> r == Err::<(), u32>(schema),
{
    if schema > SCHEMA {
        Err(schema)
    } else {
        Ok(())
    }
}

/// The number of writes that restore a complete state.
pub open spec fn spec_restore_len() -> int {
    2 + 3 * 4 + 1 + (MIXER_INPUTS * MIXER_OUTPUTS) as int
}

/// The `k`-th write that restores `state`: both output pairs, then for each
/// input its gain, phantom power and mute, then the output mute, then every
/// mixer cross-point, input by input.
pub open spec fn spec_restore_op(state: DeviceState, k: int) -> ControlOp {
    if k < 2 {
        ControlOp::VolumeSet { pair: k as u8, level: state.output_volume_q88@[k] as i32 }
    } else if k < 14 {
        let input = (k - 2) / 3;
        if (k - 2) % 3 == 0 {
            ControlOp::GainSet { input: input as u8, level: state.input_gain_q88@[input] as i32 }
        } else if (k - 2) % 3 == 1 {
            ControlOp::PhantomSet { input: input as u8, on: state.phantom@[input] }
        } else {
            ControlOp::InputMuteSet { input: input as u8, muted: state.input_mute@[input] }
        }
    } else if k == 14 {
        ControlOp::OutputMuteSet { muted: state.output_mute }
    } else {
        spec_mixer_op(state.mixer_q88, k - 15)
    }
}

/// The `j`-th write of a mixer matrix: cross-points input by input, each
/// input's outputs in order.
pub open spec fn spec_mixer_op(mixer: [[i16; MIXER_OUTPUTS]; MIXER_INPUTS], j: int) -> ControlOp {
    let in_idx = j / MIXER_OUTPUTS as int;
    let out_idx = j % MIXER_OUTPUTS as int;
    ControlOp::MixerSet {
        in_idx: in_idx as u8,
        out_idx: out_idx as u8,
        level: mixer@[in_idx]@[out_idx] as i32,
    }
}

/// The mixer writes set every cross-point exactly once, to its level.
pub proof fn lemma_mixer_ops_cover(mixer: [[i16; MIXER_OUTPUTS]; MIXER_INPUTS])
    ensures
        forall|i: int, o: int|
            0 <= i < MIXER_INPUTS && 0 <= o < MIXER_OUTPUTS ==> #[trigger] spec_mixer_op(
                mixer,
                i * 4 + o,
            ) == (ControlOp::MixerSet {
                in_idx: i as u8,
                out_idx: o as u8,
                level: mixer@[i]@[o] as i32,
            }),
        forall|a: int, b: int|
            0 <= a < b < MIXER_INPUTS * MIXER_OUTPUTS ==> #[trigger] spec_mixer_op(mixer, a)
                != #[trigger] spec_mixer_op(mixer, b),
{
    assert forall|i: int, o: int| 0 <= i < MIXER_INPUTS && 0 <= o < MIXER_OUTPUTS implies #[trigger] spec_mixer_op(
        mixer,
        i * 4 + o,
    ) == (ControlOp::MixerSet {
        in_idx: i as u8,
        out_idx: o as u8,
        level: mixer@[i]@[o] as i32,
    }) by {
        assert((i * 4 + o) / 4 == i && (i * 4 + o) % 4 == o);
    }
    assert forall|a: int, b: int| 0 <= a < b < MIXER_INPUTS * MIXER_OUTPUTS implies #[trigger] spec_mixer_op(
        mixer,
        a,
    ) != #[trigger] spec_mixer_op(mixer, b) by {
        assert(a == (a / 4) * 4 + a % 4);
        assert(b == (b / 4) * 4 + b % 4);
        assert(0 <= a / 4 < 10 && 0 <= b / 4 < 10);
    }
}

/// The writes of every cross-point of a mixer matrix, in order.
pub fn mixer_ops(mixer: &[[i16; MIXER_OUTPUTS]; MIXER_INPUTS], ops: &mut Vec<ControlOp>)
    ensures
        final(ops)@.len() == old(ops)@.len() + MIXER_INPUTS * MIXER_OUTPUTS,
        final(ops)@.subrange(0, old(ops)@.len() as int) == old(ops)@,
        forall|j: int|
            0 <= j < MIXER_INPUTS * MIXER_OUTPUTS ==> #[trigger] final(ops)@[old(ops)@.len() + j]
                == spec_mixer_op(*mixer, j),
{
    let ghost start = ops@;
    let mut in_idx: usize = 0;
    while in_idx < MIXER_INPUTS
        invariant
            in_idx <= MIXER_INPUTS,
            ops@.len() == start.len() + in_idx * MIXER_OUTPUTS,
            ops@.subrange(0, start.len() as int) == start,
            forall|j: int|
                0 <= j < in_idx * MIXER_OUTPUTS ==> #[trigger] ops@[start.len() + j]
                    == spec_mixer_op(*mixer, j),
        decreases MIXER_INPUTS - in_idx,
    {
        let row = mixer[in_idx];
        let mut out_idx: usize = 0;
        while out_idx < MIXER_OUTPUTS
            invariant
                in_idx < MIXER_INPUTS,
                out_idx <= MIXER_OUTPUTS,
                row == mixer@[in_idx as int],
                ops@.len() == start.len() + in_idx * MIXER_OUTPUTS + out_idx,
                ops@.subrange(0, start.len() as int) == start,
                forall|j: int|
                    0 <= j < in_idx * MIXER_OUTPUTS + out_idx ==> #[trigger] ops@[start.len() + j]
                        == spec_mixer_op(*mixer, j),
            decreases MIXER_OUTPUTS - out_idx,
        {
            let ghost j = (in_idx * MIXER_OUTPUTS + out_idx) as int;
            let ghost prev = ops@;
            ops.push(
                ControlOp::MixerSet {
                    in_idx: in_idx as u8,
                    out_idx: out_idx as u8,
                    level: row[out_idx] as i32,
                },
            );
            proof {
                assert(j / 4 == in_idx as int);
                assert(j % 4 == out_idx as int);
                assert(ops@[start.len() + j] == spec_mixer_op(*mixer, j));
                assert forall|m: int| 0 <= m < j + 1 implies #[trigger] ops@[start.len() + m]
                    == spec_mixer_op(*mixer, m) by {
                    if m < j {
                        assert(ops@[start.len() + m] == prev[start.len() + m]);
                    }
                }
                assert(ops@.subrange(0, start.len() as int) =~= prev.subrange(0, start.len() as int));
            }
            out_idx = out_idx + 1;
        }
        in_idx = in_idx + 1;
    }
}

/// `op` writes a setting of `state` with the value `state` holds for it.
pub open spec fn spec_writes_saved_value(state: DeviceState, op: ControlOp) -> bool {
    match op {
        ControlOp::VolumeSet { pair, level } => pair < 2 && level
            == state.output_volume_q88@[pair as int] as i32,
        ControlOp::GainSet { input, level } => input < 4 && level
            == state.input_gain_q88@[input as int] as i32,
        ControlOp::PhantomSet { input, on } => input < 4 && on == state.phantom@[input as int],
        ControlOp::InputMuteSet { input, muted } => input < 4 && muted
            == state.input_mute@[input as int],
        ControlOp::OutputMuteSet { muted } => muted == state.output_mute,
        ControlOp::MixerSet { in_idx, out_idx, level } => in_idx < MIXER_INPUTS && out_idx
            < MIXER_OUTPUTS && level == state.mixer_q88@[in_idx as int]@[out_idx as int] as i32,
    }
}

/// Some write of restoring `state` is `op`.
pub open spec fn spec_restore_writes(state: DeviceState, op: ControlOp) -> bool {
    exists|k: int| 0 <= k < spec_restore_len() && #[trigger] spec_restore_op(state, k) == op
}

/// Restoring a state writes every setting it holds, each with its saved
/// value: every write carries the value the state holds for that setting,
/// and each output pair, each input's gain, phantom power and mute, the
/// output mute and every mixer cross-point is written.
pub proof fn lemma_restore_writes_saved_settings(state: DeviceState)
    ensures
        forall|k: int|
            0 <= k < spec_restore_len() ==> spec_writes_saved_value(
                state,
                #[trigger] spec_restore_op(state, k),
            ),
        forall|p: u8|
            p < 2 ==> #[trigger] spec_restore_writes(
                state,
                (ControlOp::VolumeSet { pair: p, level: state.output_volume_q88@[p as int] as i32 }),
            ),
        forall|i: u8|
            i < 4 ==> #[trigger] spec_restore_writes(
                state,
                (ControlOp::GainSet { input: i, level: state.input_gain_q88@[i as int] as i32 }),
            ),
        forall|i: u8|
            i < 4 ==> #[trigger] spec_restore_writes(
                state,
                (ControlOp::PhantomSet { input: i, on: state.phantom@[i as int] }),
            ),
        forall|i: u8|
            i < 4 ==> #[trigger] spec_restore_writes(
                state,
                (ControlOp::InputMuteSet { input: i, muted: state.input_mute@[i as int] }),
            ),
        spec_restore_writes(state, (ControlOp::OutputMuteSet { muted: state.output_mute })),
        forall|i: u8, o: u8|
            i < MIXER_INPUTS && o < MIXER_OUTPUTS ==> #[trigger] spec_restore_writes(
                state,
                (ControlOp::MixerSet {
                    in_idx: i,
                    out_idx: o,
                    level: state.mixer_q88@[i as int]@[o as int] as i32,
                }),
            ),
{
    assert forall|k: int| 0 <= k < spec_restore_len() implies spec_writes_saved_value(
        state,
        #[trigger] spec_restore_op(state, k),
    ) by {
        if 2 <= k < 14 {
            assert(0 <= (k - 2) / 3 < 4);
        } else if k >= 15 {
            let j = k - 15;
            assert(0 <= j / 4 < 10 && 0 <= j % 4 < 4);
        }
    }
    assert forall|p: u8| p < 2 implies #[trigger] spec_restore_writes(
        state,
        (ControlOp::VolumeSet { pair: p, level: state.output_volume_q88@[p as int] as i32 }),
    ) by {
        assert(spec_restore_op(state, p as int) == (ControlOp::VolumeSet {
            pair: p,
            level: state.output_volume_q88@[p as int] as i32,
        }));
    }
    assert forall|i: u8| i < 4 implies #[trigger] spec_restore_writes(
        state,
        (ControlOp::GainSet { input: i, level: state.input_gain_q88@[i as int] as i32 }),
    ) by {
        let k = 2 + 3 * i as int;
        assert((k - 2) / 3 == i as int && (k - 2) % 3 == 0);
        assert(spec_restore_op(state, k) == (ControlOp::GainSet {
            input: i,
            level: state.input_gain_q88@[i as int] as i32,
        }));
    }
    assert forall|i: u8| i < 4 implies #[trigger] spec_restore_writes(
        state,
        (ControlOp::PhantomSet { input: i, on: state.phantom@[i as int] }),
    ) by {
        let k = 3 + 3 * i as int;
        assert((k - 2) / 3 == i as int && (k - 2) % 3 == 1);
        assert(spec_restore_op(state, k) == (ControlOp::PhantomSet {
            input: i,
            on: state.phantom@[i as int],
        }));
    }
    assert forall|i: u8| i < 4 implies #[trigger] spec_restore_writes(
        state,
        (ControlOp::InputMuteSet { input: i, muted: state.input_mute@[i as int] }),
    ) by {
        let k = 4 + 3 * i as int;
        assert((k - 2) / 3 == i as int && (k - 2) % 3 == 2);
        assert(spec_restore_op(state, k) == (ControlOp::InputMuteSet {
            input: i,
            muted: state.input_mute@[i as int],
        }));
    }
    assert(spec_restore_op(state, 14) == (ControlOp::OutputMuteSet { muted: state.output_mute }));
    assert forall|i: u8, o: u8| i < MIXER_INPUTS && o < MIXER_OUTPUTS implies #[trigger] spec_restore_writes(
        state,
        (ControlOp::MixerSet {
            in_idx: i,
            out_idx: o,
            level: state.mixer_q88@[i as int]@[o as int] as i32,
        }),
    ) by {
        let j = i as int * 4 + o as int;
        assert(j / 4 == i as int && j % 4 == o as int);
        assert(spec_restore_op(state, 15 + j) == (ControlOp::MixerSet {
            in_idx: i,
            out_idx: o,
            level: state.mixer_q88@[i as int]@[o as int] as i32,
        }));
    }
}

/// The writes that restore every setting of `state` on the device.
pub fn restore_ops(state: &DeviceState) -> (ops: Vec<ControlOp>)
    ensures
        ops@.len() == spec_restore_len(),
        forall|k: int| 0 <= k < spec_restore_len() ==> #[trigger] ops@[k] == spec_restore_op(*state, k),
        forall|k: int| 0 <= k < ops@.len() ==> spec_writes_saved_value(*state, #[trigger] ops@[k]),
{
    let mut ops: Vec<ControlOp> = Vec::new();
    ops.push(ControlOp::VolumeSet { pair: 0, level: state.output_volume_q88[0] as i32 });
    ops.push(ControlOp::VolumeSet { pair: 1, level: state.output_volume_q88[1] as i32 });
    let mut i: usize = 0;
    while i < 4
        invariant
            i <= 4,
            ops@.len() == 2 + 3 * i,
            forall|k: int| 0 <= k < 2 + 3 * i ==> #[trigger] ops@[k] == spec_restore_op(*state, k),
        decreases 4 - i,
    {
        let ghost before = ops@;
        ops.push(ControlOp::GainSet { input: i as u8, level: state.input_gain_q88[i] as i32 });
        ops.push(ControlOp::PhantomSet { input: i as u8, on: state.phantom[i] });
        ops.push(ControlOp::InputMuteSet { input: i as u8, muted: state.input_mute[i] });
        proof {
            let b = 2 + 3 * i as int;
            assert((b - 2) / 3 == i as int && (b - 2) % 3 == 0);
            assert((b + 1 - 2) / 3 == i as int && (b + 1 - 2) % 3 == 1);
            assert((b + 2 - 2) / 3 == i as int && (b + 2 - 2) % 3 == 2);
            assert forall|k: int| 0 <= k < b + 3 implies #[trigger] ops@[k] == spec_restore_op(
                *state,
                k,
            ) by {
                if k < b {
                    assert(ops@[k] == before[k]);
                }
            }
        }
        i = i + 1;
    }
    ops.push(ControlOp::OutputMuteSet { muted: state.output_mute });
    let ghost before_mixer = ops@;
    assert(before_mixer.len() == 15);
    mixer_ops(&state.mixer_q88, &mut ops);
    proof {
        lemma_restore_writes_saved_settings(*state);
        assert forall|k: int| 0 <= k < spec_restore_len() implies #[trigger] ops@[k]
            == spec_restore_op(*state, k) by {
            if k < 15 {
                assert(ops@[k] == ops@.subrange(0, 15)[k]);
            } else {
                assert(ops@[15 + (k - 15)] == spec_mixer_op(state.mixer_q88, k - 15));
            }
        }
    }
    ops
}

/// The writes that put the mixer back to its hardware default.
pub fn mixer_reset_ops() -> (ops: Vec<ControlOp>)
    ensures
        ops@.len() == MIXER_INPUTS * MIXER_OUTPUTS,
        forall|j: int|
            0 <= j < MIXER_INPUTS * MIXER_OUTPUTS ==> #[trigger] ops@[j] == (ControlOp::MixerSet {
                in_idx: (j / 4) as u8,
                out_idx: (j % 4) as u8,
                level: spec_default_mixer(j / 4, j % 4) as i32,
            }),
{
    let mixer = default_mixer();
    let mut ops: Vec<ControlOp> = Vec::new();
    mixer_ops(&mixer, &mut ops);
    proof {
        assert forall|j: int| 0 <= j < MIXER_INPUTS * MIXER_OUTPUTS implies #[trigger] ops@[j]
            == (ControlOp::MixerSet {
            in_idx: (j / 4) as u8,
            out_idx: (j % 4) as u8,
            level: spec_default_mixer(j / 4, j % 4) as i32,
        }) by {
            assert(ops@[0 + j] == spec_mixer_op(mixer, j));
            assert(mixer@[j / 4]@[j % 4] == spec_default_mixer(j / 4, j % 4));
        }
    }
    ops
}

/// The writes that set the output volume: of one pair when it is named,
/// else of both pairs, main first.
pub fn volume_ops(pair: Option<u8>, level: i32) -> (ops: Vec<ControlOp>)
    ensures
        pair is Some ==> ops@ == seq![ControlOp::VolumeSet { pair: pair->0, level }],
        pair is None ==> ops@ == seq![
            ControlOp::VolumeSet { pair: 0, level },
            ControlOp::VolumeSet { pair: 1, level },
        ],
{
    let mut ops: Vec<ControlOp> = Vec::new();
    match pair {
        Some(p) => {
            ops.push(ControlOp::VolumeSet { pair: p, level });
        },
        None => {
            ops.push(ControlOp::VolumeSet { pair: 0, level });
            ops.push(ControlOp::VolumeSet { pair: 1, level });
        },
    }
    assert(pair is Some ==> ops@ =~= seq![ControlOp::VolumeSet { pair: pair->0, level }]);
    assert(pair is None ==> ops@ =~= seq![
        ControlOp::VolumeSet { pair: 0, level },
        ControlOp::VolumeSet { pair: 1, level },
    ]);
    ops
}

} // verus!
