//! The EVO 8 driver's decisions: which control transfers each operation
//! sends, in which order, with which payload, and how replies are recorded.
//!
//! Sending a transfer is the caller's part: it hands each transfer to the
//! kernel module, in order, and stops at the first one that fails.

use vstd::prelude::*;
use crate::codec::{
    bool_to_eu, eu_to_bool, lemma_level_round_trip, level_from_le, level_to_le, spec_eu_bytes,
    spec_eu_value, spec_level_bytes, spec_level_value,
};
use crate::controls::{CS_EU58_MUTE, CS_EU58_PHANTOM, CS_EU59_MUTE, CS_MIXER, CS_VOLUME};
use crate::device::{evo8, spec_evo8, DeviceSpec};
use crate::entities::{mixer_cn, spec_mixer_cn, spec_w_value, w_value, W_INDEX_EU58, W_INDEX_EU59, W_INDEX_FU10, W_INDEX_FU11, W_INDEX_MU60};
use crate::error::DriverError;
use crate::status::DeviceStatus;
use crate::transfer::EvoCtrlXfer;

verus! {

/// One readable control of the device.
#[derive(Clone, Copy, Debug, PartialEq, Eq, Structural)]
pub enum ReadSlot {
    /// Output volume of a pair.
    Volume(u8),
    /// Gain of an input.
    Gain(u8),
    /// Phantom power of an input.
    Phantom(u8),
    /// Mute of an input.
    InputMute(u8),
    /// The output mute.
    OutputMute,
}

/// The driver's view of the device: its layout and level ranges.
pub struct Driver {
    pub spec: DeviceSpec,
}

/// The (w_value, w_index, reply length) of reading a control.
pub open spec fn spec_read_request(slot: ReadSlot) -> (u16, u16, u16) {
    match slot {
        ReadSlot::Volume(pair) => (
            spec_w_value(CS_VOLUME, (2 * pair + 1) as u8),
            W_INDEX_FU10,
            2u16,
        ),
        ReadSlot::Gain(input) => (spec_w_value(CS_VOLUME, (input + 1) as u8), W_INDEX_FU11, 2u16),
        ReadSlot::Phantom(input) => (spec_w_value(CS_EU58_PHANTOM, input), W_INDEX_EU58, 4u16),
        ReadSlot::InputMute(input) => (spec_w_value(CS_EU58_MUTE, input), W_INDEX_EU58, 4u16),
        ReadSlot::OutputMute => (spec_w_value(CS_EU59_MUTE, 0), W_INDEX_EU59, 4u16),
    }
}

/// Each read of a status snapshot addresses the control it fills, written
/// out as (wValue, wIndex, length) with wValue = selector * 256 + channel:
/// output pair p reads the FU10 volume (selector 2) of its first channel
/// 2p+1; input i reads the FU11 volume (selector 2) of channel i+1, the EU58
/// phantom switch (selector 0) of channel i and the EU58 mute (selector 2)
/// of channel i; the output mute is EU59 selector 1, channel 0. These are the
/// requests of the single-control getters.
pub proof fn lemma_read_requests_address_controls()
    ensures
        forall|p: u8|
            p < 2 ==> #[trigger] spec_read_request(ReadSlot::Volume(p)) == (
                (0x0200 + 2 * p + 1) as u16,
                0x0A00u16,
                2u16,
            ),
        forall|i: u8|
            i < 4 ==> #[trigger] spec_read_request(ReadSlot::Gain(i)) == (
                (0x0200 + i + 1) as u16,
                0x0B00u16,
                2u16,
            ),
        forall|i: u8|
            i < 4 ==> #[trigger] spec_read_request(ReadSlot::Phantom(i)) == (
                (0x0000 + i) as u16,
                0x3A00u16,
                4u16,
            ),
        forall|i: u8|
            i < 4 ==> #[trigger] spec_read_request(ReadSlot::InputMute(i)) == (
                (0x0200 + i) as u16,
                0x3A00u16,
                4u16,
            ),
        spec_read_request(ReadSlot::OutputMute) == (0x0100u16, 0x3B00u16, 4u16),
        forall|i: u8|
            i < 4 ==> #[trigger] spec_read_request(ReadSlot::Phantom(i)).0 != spec_read_request(
                ReadSlot::InputMute(i),
            ).0,
{
}

/// Whether the reply to reading a control is a Q8.8 level (else a boolean).
pub open spec fn spec_reads_level(slot: ReadSlot) -> bool {
    slot is Volume || slot is Gain
}

impl Driver {
    /// The layout the driver's operations rely on: at least one input and
    /// one output pair, at most as many of each as a status snapshot holds,
    /// channel numbers that fit in a byte, and ordered level ranges.
    pub open spec fn wf(&self) -> bool {
        &&& 1 <= self.spec.num_inputs <= 4
        &&& 1 <= self.spec.num_output_pairs <= 2
        &&& 1 <= self.spec.mixer_inputs
        &&& 1 <= self.spec.mixer_outputs
        &&& self.spec.mixer_inputs as int * self.spec.mixer_outputs as int <= 256
        &&& self.spec.vol_q88_min <= self.spec.vol_q88_max
        &&& self.spec.gain_q88_min <= self.spec.gain_q88_max
        &&& self.spec.mixer_q88_min <= self.spec.mixer_q88_max
    }

    /// The driver of an EVO 8.
    pub fn new() -> (d: Driver)
        ensures
            d.spec == spec_evo8(),
            d.wf(),
    {
        Driver { spec: evo8() }
    }

    /// Whether `input` names an input of the device; an error naming the
    /// largest valid index otherwise.
    pub fn check_input(&self, input: u8) -> (r: Result<(), DriverError>)
        requires
            self.wf(),
        ensures
            input < self.spec.num_inputs ==> r is Ok,
            input >= self.spec.num_inputs ==> (r matches Err(DriverError::ChannelIndex { idx, max })
                && idx == input && max == self.spec.num_inputs - 1),
    {
        if input >= self.spec.num_inputs {
            Err(DriverError::ChannelIndex { idx: input, max: self.spec.num_inputs - 1 })
        } else {
            Ok(())
        }
    }

    /// The GET_CUR request that reads a control.
    pub fn read_xfer(&self, slot: ReadSlot) -> (x: EvoCtrlXfer)
        requires
            match slot {
                ReadSlot::Volume(pair) => pair <= 127,
                ReadSlot::Gain(input) => input < 255,
                _ => true,
            },
        ensures
            x.is_get(spec_read_request(slot).0, spec_read_request(slot).1, spec_read_request(slot).2),
            match slot {
                ReadSlot::Volume(pair) => x.is_get(
                    spec_w_value(CS_VOLUME, (2 * pair + 1) as u8),
                    W_INDEX_FU10,
                    2,
                ),
                ReadSlot::Gain(input) => x.is_get(
                    spec_w_value(CS_VOLUME, (input + 1) as u8),
                    W_INDEX_FU11,
                    2,
                ),
                ReadSlot::Phantom(input) => x.is_get(
                    spec_w_value(CS_EU58_PHANTOM, input),
                    W_INDEX_EU58,
                    4,
                ),
                ReadSlot::InputMute(input) => x.is_get(spec_w_value(CS_EU58_MUTE, input), W_INDEX_EU58, 4),
                ReadSlot::OutputMute => x.is_get(spec_w_value(CS_EU59_MUTE, 0), W_INDEX_EU59, 4),
            },
    {
        match slot {
            ReadSlot::Volume(pair) => EvoCtrlXfer::get_request(
                w_value(CS_VOLUME, pair * 2 + 1),
                W_INDEX_FU10,
                2,
            ),
            ReadSlot::Gain(input) => EvoCtrlXfer::get_request(
                w_value(CS_VOLUME, input + 1),
                W_INDEX_FU11,
                2,
            ),
            ReadSlot::Phantom(input) => EvoCtrlXfer::get_request(
                w_value(CS_EU58_PHANTOM, input),
                W_INDEX_EU58,
                4,
            ),
            ReadSlot::InputMute(input) => EvoCtrlXfer::get_request(
                w_value(CS_EU58_MUTE, input),
                W_INDEX_EU58,
                4,
            ),
            ReadSlot::OutputMute => EvoCtrlXfer::get_request(
                w_value(CS_EU59_MUTE, 0),
                W_INDEX_EU59,
                4,
            ),
        }
    }

    /// Whether the reply to reading `slot` is a Q8.8 level.
    pub fn reads_level(slot: ReadSlot) -> (b: bool)
        ensures
            b == spec_reads_level(slot),
    {
        match slot {
            ReadSlot::Volume(_) | ReadSlot::Gain(_) => true,
            _ => false,
        }
    }

    // FU10: output volume

    /// Whether `pair` names an output pair of the device; an error naming
    /// the largest valid pair otherwise.
    pub fn check_pair(&self, pair: u8) -> (r: Result<(), DriverError>)
        requires
            self.wf(),
        ensures
            pair < self.spec.num_output_pairs ==> r is Ok,
            pair >= self.spec.num_output_pairs ==> (r matches Err(
                DriverError::ChannelIndex { idx, max },
            ) && idx == pair && max == self.spec.num_output_pairs - 1),
    {
        if pair >= self.spec.num_output_pairs {
            Err(DriverError::ChannelIndex { idx: pair, max: self.spec.num_output_pairs - 1 })
        } else {
            Ok(())
        }
    }

    /// The request that reads the output volume of `pair` (channel
    /// pair*2+1).
    pub fn volume_get_xfer(&self, pair: u8) -> (r: Result<EvoCtrlXfer, DriverError>)
        requires
            self.wf(),
        ensures
            pair >= self.spec.num_output_pairs ==> (r matches Err(
                DriverError::ChannelIndex { idx, max },
            ) && idx == pair && max == self.spec.num_output_pairs - 1),
            pair < self.spec.num_output_pairs ==> (r matches Ok(x) && x.is_get(
                spec_w_value(CS_VOLUME, (2 * pair + 1) as u8),
                W_INDEX_FU10,
                2,
            )),
    {
        self.check_pair(pair)?;
        Ok(self.read_xfer(ReadSlot::Volume(pair)))
    }

    /// The requests that set both channels of output pair `pair` to the
    /// requested level clamped to the volume range, and that level.
    pub fn volume_set_xfers(&self, pair: u8, level: i32) -> (r: Result<
        (Vec<EvoCtrlXfer>, i16),
        DriverError,
    >)
        requires
            self.wf(),
        ensures
            pair >= self.spec.num_output_pairs ==> (r matches Err(
                DriverError::ChannelIndex { idx, max },
            ) && idx == pair && max == self.spec.num_output_pairs - 1),
            pair < self.spec.num_output_pairs ==> (r matches Ok((xs, v)) && {
                &&& v as int == self.spec.spec_clamp_vol(level as int)
                &&& xs@.len() == 2
                &&& xs@[0].is_set(
                    spec_w_value(CS_VOLUME, (2 * pair + 1) as u8),
                    W_INDEX_FU10,
                    spec_level_bytes(v),
                )
                &&& xs@[1].is_set(
                    spec_w_value(CS_VOLUME, (2 * pair + 2) as u8),
                    W_INDEX_FU10,
                    spec_level_bytes(v),
                )
            }),
    {
        self.check_pair(pair)?;
        let level = self.spec.clamp_vol(level);
        let raw = level_to_le(level);
        let base_cn = pair * 2 + 1;
        let mut xfers: Vec<EvoCtrlXfer> = Vec::new();
        xfers.push(EvoCtrlXfer::set_request(w_value(CS_VOLUME, base_cn), W_INDEX_FU10, &raw));
        xfers.push(EvoCtrlXfer::set_request(w_value(CS_VOLUME, base_cn + 1), W_INDEX_FU10, &raw));
        Ok((xfers, level))
    }

    // FU11: input gain

    /// The request that reads the gain of `input` (channel input+1).
    pub fn gain_get_xfer(&self, input: u8) -> (r: Result<EvoCtrlXfer, DriverError>)
        requires
            self.wf(),
        ensures
            input >= self.spec.num_inputs ==> (r matches Err(DriverError::ChannelIndex { idx, max })
                && idx == input && max == self.spec.num_inputs - 1),
            input < self.spec.num_inputs ==> (r matches Ok(x) && x.is_get(
                spec_w_value(CS_VOLUME, (input + 1) as u8),
                W_INDEX_FU11,
                2,
            )),
    {
        self.check_input(input)?;
        Ok(self.read_xfer(ReadSlot::Gain(input)))
    }

    /// The request that sets the gain of `input` to the requested level
    /// clamped to the gain range and snapped to the gain step, and that level.
    pub fn gain_set_xfer(&self, input: u8, level: i32) -> (r: Result<(EvoCtrlXfer, i16), DriverError>)
        requires
            self.wf(),
        ensures
            input >= self.spec.num_inputs ==> (r matches Err(DriverError::ChannelIndex { idx, max })
                && idx == input && max == self.spec.num_inputs - 1),
            input < self.spec.num_inputs ==> (r matches Ok((x, g)) && g as int
                == self.spec.spec_clamp_gain(level as int) && x.is_set(
                spec_w_value(CS_VOLUME, (input + 1) as u8),
                W_INDEX_FU11,
                spec_level_bytes(g),
            )),
    {
        self.check_input(input)?;
        let level = self.spec.clamp_gain(level);
        let raw = level_to_le(level);
        Ok((EvoCtrlXfer::set_request(w_value(CS_VOLUME, input + 1), W_INDEX_FU11, &raw), level))
    }

    // EU58: phantom power

    /// The request that reads the phantom power of `input` (channel input).
    pub fn phantom_get_xfer(&self, input: u8) -> (r: Result<EvoCtrlXfer, DriverError>)
        requires
            self.wf(),
        ensures
            input >= self.spec.num_inputs ==> (r matches Err(DriverError::ChannelIndex { idx, max })
                && idx == input && max == self.spec.num_inputs - 1),
            input < self.spec.num_inputs ==> (r matches Ok(x) && x.is_get(
                spec_w_value(CS_EU58_PHANTOM, input),
                W_INDEX_EU58,
                4,
            )),
    {
        self.check_input(input)?;
        Ok(self.read_xfer(ReadSlot::Phantom(input)))
    }

    /// The request that switches the phantom power of `input`.
    pub fn phantom_set_xfer(&self, input: u8, on: bool) -> (r: Result<EvoCtrlXfer, DriverError>)
        requires
            self.wf(),
        ensures
            input >= self.spec.num_inputs ==> (r matches Err(DriverError::ChannelIndex { idx, max })
                && idx == input && max == self.spec.num_inputs - 1),
            input < self.spec.num_inputs ==> (r matches Ok(x) && x.is_set(
                spec_w_value(CS_EU58_PHANTOM, input),
                W_INDEX_EU58,
                spec_eu_bytes(on),
            )),
    {
        self.check_input(input)?;
        let payload = bool_to_eu(on);
        Ok(EvoCtrlXfer::set_request(w_value(CS_EU58_PHANTOM, input), W_INDEX_EU58, &payload))
    }

    // EU58: input mute

    /// The request that reads the mute of `input` (channel input).
    pub fn input_mute_get_xfer(&self, input: u8) -> (r: Result<EvoCtrlXfer, DriverError>)
        requires
            self.wf(),
        ensures
            input >= self.spec.num_inputs ==> (r matches Err(DriverError::ChannelIndex { idx, max })
                && idx == input && max == self.spec.num_inputs - 1),
            input < self.spec.num_inputs ==> (r matches Ok(x) && x.is_get(
                spec_w_value(CS_EU58_MUTE, input),
                W_INDEX_EU58,
                4,
            )),
    {
        self.check_input(input)?;
        Ok(self.read_xfer(ReadSlot::InputMute(input)))
    }

    /// The request that mutes or unmutes `input`.
    pub fn input_mute_set_xfer(&self, input: u8, muted: bool) -> (r: Result<EvoCtrlXfer, DriverError>)
        requires
            self.wf(),
        ensures
            input >= self.spec.num_inputs ==> (r matches Err(DriverError::ChannelIndex { idx, max })
                && idx == input && max == self.spec.num_inputs - 1),
            input < self.spec.num_inputs ==> (r matches Ok(x) && x.is_set(
                spec_w_value(CS_EU58_MUTE, input),
                W_INDEX_EU58,
                spec_eu_bytes(muted),
            )),
    {
        self.check_input(input)?;
        let payload = bool_to_eu(muted);
        Ok(EvoCtrlXfer::set_request(w_value(CS_EU58_MUTE, input), W_INDEX_EU58, &payload))
    }

    // EU59: output mute

    /// The request that reads the output mute.
    pub fn output_mute_get_xfer(&self) -> (x: EvoCtrlXfer)
        ensures
            x.is_get(spec_w_value(CS_EU59_MUTE, 0), W_INDEX_EU59, 4),
    {
        self.read_xfer(ReadSlot::OutputMute)
    }

    /// The request that mutes or unmutes the outputs.
    pub fn output_mute_set_xfer(&self, muted: bool) -> (x: EvoCtrlXfer)
        ensures
            x.is_set(spec_w_value(CS_EU59_MUTE, 0), W_INDEX_EU59, spec_eu_bytes(muted)),
    {
        let payload = bool_to_eu(muted);
        EvoCtrlXfer::set_request(w_value(CS_EU59_MUTE, 0), W_INDEX_EU59, &payload)
    }

    // MU60: loopback mixer (write-only)

    /// The request that sets mixer cross-point (in_idx, out_idx) to the
    /// requested level clamped to the mixer range, and that level. An index
    /// out of range is an error that names the larger of the two indices and
    /// the larger of the two largest valid indices.
    pub fn mixer_set_xfer(&self, in_idx: u8, out_idx: u8, level: i32) -> (r: Result<
        (EvoCtrlXfer, i16),
        DriverError,
    >)
        requires
            self.wf(),
        ensures
            (in_idx >= self.spec.mixer_inputs || out_idx >= self.spec.mixer_outputs) ==> (r matches Err(
                DriverError::ChannelIndex { idx, max },
            ) && idx == (if in_idx >= out_idx {
                in_idx
            } else {
                out_idx
            }) && max + 1 == (if self.spec.mixer_inputs >= self.spec.mixer_outputs {
                self.spec.mixer_inputs
            } else {
                self.spec.mixer_outputs
            })),
            (in_idx < self.spec.mixer_inputs && out_idx < self.spec.mixer_outputs) ==> (r matches Ok(
                (x, m),
            ) && m as int == self.spec.spec_clamp_mixer(level as int) && x.is_set(
                spec_w_value(
                    CS_MIXER,
                    spec_mixer_cn(in_idx, out_idx, self.spec.mixer_outputs) as u8,
                ),
                W_INDEX_MU60,
                spec_level_bytes(m),
            )),
    {
        if in_idx >= self.spec.mixer_inputs || out_idx >= self.spec.mixer_outputs {
            let idx = if in_idx >= out_idx {
                in_idx
            } else {
                out_idx
            };
            let widest = if self.spec.mixer_inputs >= self.spec.mixer_outputs {
                self.spec.mixer_inputs
            } else {
                self.spec.mixer_outputs
            };
            return Err(DriverError::ChannelIndex { idx, max: widest - 1 });
        }
        let level = self.spec.clamp_mixer(level);
        proof {
            crate::entities::lemma_mixer_cn_distinct(
                self.spec.mixer_inputs,
                self.spec.mixer_outputs,
                in_idx,
                out_idx,
                in_idx,
                out_idx,
            );
        }
        let cn = mixer_cn(in_idx, out_idx, self.spec.mixer_outputs);
        let raw = level_to_le(level);
        Ok((EvoCtrlXfer::set_request(w_value(CS_MIXER, cn), W_INDEX_MU60, &raw), level))
    }

    // Full status snapshot

    /// The number of reads of a status snapshot: every output pair, three
    /// controls per input, and the output mute.
    pub open spec fn spec_status_len(&self) -> int {
        self.spec.num_output_pairs as int + 3 * self.spec.num_inputs as int + 1
    }

    /// The `k`-th read of a status snapshot: the output pairs in order, then
    /// for each input its gain, phantom power and mute, then the output mute.
    pub open spec fn spec_status_slot(&self, k: int) -> ReadSlot {
        let pairs = self.spec.num_output_pairs as int;
        if k < pairs {
            ReadSlot::Volume(k as u8)
        } else if k < pairs + 3 * self.spec.num_inputs as int {
            let input = ((k - pairs) / 3) as u8;
            if (k - pairs) % 3 == 0 {
                ReadSlot::Gain(input)
            } else if (k - pairs) % 3 == 1 {
                ReadSlot::Phantom(input)
            } else {
                ReadSlot::InputMute(input)
            }
        } else {
            ReadSlot::OutputMute
        }
    }

    /// A status snapshot reads every readable control exactly once: each
    /// output pair, each input's gain, phantom power and mute, and the output
    /// mute; it never reads the write-only mixer.
    pub proof fn lemma_status_reads_each_control_once(&self)
        requires
            self.wf(),
        ensures
            forall|pair: int|
                0 <= pair < self.spec.num_output_pairs ==> #[trigger] self.spec_status_slot(pair)
                    == ReadSlot::Volume(pair as u8),
            forall|input: int|
                #![trigger self.spec_status_slot(self.spec.num_output_pairs + 3 * input)]
                0 <= input < self.spec.num_inputs ==> {
                    &&& self.spec_status_slot(self.spec.num_output_pairs + 3 * input)
                        == ReadSlot::Gain(input as u8)
                    &&& self.spec_status_slot(self.spec.num_output_pairs + 3 * input + 1)
                        == ReadSlot::Phantom(input as u8)
                    &&& self.spec_status_slot(self.spec.num_output_pairs + 3 * input + 2)
                        == ReadSlot::InputMute(input as u8)
                },
            self.spec_status_slot(self.spec_status_len() - 1) == ReadSlot::OutputMute,
            forall|a: int, b: int|
                0 <= a < b < self.spec_status_len() ==> #[trigger] self.spec_status_slot(a)
                    != #[trigger] self.spec_status_slot(b),
            forall|k: int|
                0 <= k < self.spec_status_len() ==> spec_read_request(
                    #[trigger] self.spec_status_slot(k),
                ).1 != W_INDEX_MU60,
    {
        let p = self.spec.num_output_pairs as int;
        let n = self.spec.num_inputs as int;
        assert forall|input: int|
            #![trigger self.spec_status_slot(self.spec.num_output_pairs + 3 * input)]
            0 <= input < n implies {
            &&& self.spec_status_slot(self.spec.num_output_pairs + 3 * input) == ReadSlot::Gain(
                input as u8,
            )
            &&& self.spec_status_slot(self.spec.num_output_pairs + 3 * input + 1)
                == ReadSlot::Phantom(input as u8)
            &&& self.spec_status_slot(self.spec.num_output_pairs + 3 * input + 2)
                == ReadSlot::InputMute(input as u8)
        } by {
            assert((3 * input) / 3 == input && (3 * input) % 3 == 0);
            assert((3 * input + 1) / 3 == input && (3 * input + 1) % 3 == 1);
            assert((3 * input + 2) / 3 == input && (3 * input + 2) % 3 == 2);
        }
        assert forall|a: int, b: int| 0 <= a < b < self.spec_status_len() implies #[trigger] self.spec_status_slot(
            a,
        ) != #[trigger] self.spec_status_slot(b) by {
            if a >= p && b < p + 3 * n {
                let ia = (a - p) / 3;
                let ib = (b - p) / 3;
                assert(0 <= ia < 4 && 0 <= ib < 4);
                if ia == ib {
                    assert((a - p) % 3 != (b - p) % 3);
                }
            }
        }
    }

    /// How many reads a status snapshot takes.
    pub fn status_len(&self) -> (n: usize)
        requires
            self.wf(),
        ensures
            n as int == self.spec_status_len(),
    {
        self.spec.num_output_pairs as usize + 3 * (self.spec.num_inputs as usize) + 1
    }

    /// The `k`-th read of a status snapshot.
    pub fn status_slot(&self, k: usize) -> (slot: ReadSlot)
        requires
            self.wf(),
            k < self.spec_status_len(),
        ensures
            slot == self.spec_status_slot(k as int),
            match slot {
                ReadSlot::Volume(pair) => pair < self.spec.num_output_pairs,
                ReadSlot::Gain(input) => input < self.spec.num_inputs,
                ReadSlot::Phantom(input) => input < self.spec.num_inputs,
                ReadSlot::InputMute(input) => input < self.spec.num_inputs,
                ReadSlot::OutputMute => true,
            },
    {
        let pairs = self.spec.num_output_pairs as usize;
        let inputs = self.spec.num_inputs as usize;
        if k < pairs {
            ReadSlot::Volume(k as u8)
        } else if k < pairs + 3 * inputs {
            let input = ((k - pairs) / 3) as u8;
            if (k - pairs) % 3 == 0 {
                ReadSlot::Gain(input)
            } else if (k - pairs) % 3 == 1 {
                ReadSlot::Phantom(input)
            } else {
                ReadSlot::InputMute(input)
            }
        } else {
            ReadSlot::OutputMute
        }
    }

    /// `new` is `old` with the reply to reading `slot` written into the field
    /// of that control; every other field is unchanged.
    pub open spec fn spec_recorded(
        old: DeviceStatus,
        new: DeviceStatus,
        slot: ReadSlot,
        reply: Seq<u8>,
    ) -> bool {
        match slot {
            ReadSlot::Volume(pair) => {
                &&& spec_level_bytes(new.volume_q88@[pair as int]) == reply.take(2)
                &&& new.volume_q88@ == old.volume_q88@.update(
                    pair as int,
                    new.volume_q88@[pair as int],
                )
                &&& new.gain_q88 == old.gain_q88
                &&& new.phantom == old.phantom
                &&& new.input_mute == old.input_mute
                &&& new.output_mute == old.output_mute
            },
            ReadSlot::Gain(input) => {
                &&& spec_level_bytes(new.gain_q88@[input as int]) == reply.take(2)
                &&& new.gain_q88@ == old.gain_q88@.update(input as int, new.gain_q88@[input as int])
                &&& new.volume_q88 == old.volume_q88
                &&& new.phantom == old.phantom
                &&& new.input_mute == old.input_mute
                &&& new.output_mute == old.output_mute
            },
            ReadSlot::Phantom(input) => {
                &&& new.phantom@ == old.phantom@.update(input as int, spec_eu_value(reply))
                &&& new.volume_q88 == old.volume_q88
                &&& new.gain_q88 == old.gain_q88
                &&& new.input_mute == old.input_mute
                &&& new.output_mute == old.output_mute
            },
            ReadSlot::InputMute(input) => {
                &&& new.input_mute@ == old.input_mute@.update(input as int, spec_eu_value(reply))
                &&& new.volume_q88 == old.volume_q88
                &&& new.gain_q88 == old.gain_q88
                &&& new.phantom == old.phantom
                &&& new.output_mute == old.output_mute
            },
            ReadSlot::OutputMute => {
                &&& new.output_mute == spec_eu_value(reply)
                &&& new.volume_q88 == old.volume_q88
                &&& new.gain_q88 == old.gain_q88
                &&& new.phantom == old.phantom
                &&& new.input_mute == old.input_mute
            },
        }
    }

    /// What a write puts on the wire is what a status snapshot records when
    /// the device answers the read of the same control with it: a level
    /// written as its two bytes reads back as that level, and a switch
    /// written as its boolean payload reads back as that switch.
    pub proof fn lemma_written_value_reads_back(
        old: DeviceStatus,
        new: DeviceStatus,
        slot: ReadSlot,
        level: i16,
        on: bool,
    )
        requires
            match slot {
                ReadSlot::Volume(pair) => pair < 2,
                ReadSlot::Gain(input) => input < 4,
                ReadSlot::Phantom(input) => input < 4,
                ReadSlot::InputMute(input) => input < 4,
                ReadSlot::OutputMute => true,
            },
            Self::spec_recorded(
                old,
                new,
                slot,
                if spec_reads_level(slot) {
                    spec_level_bytes(level)
                } else {
                    spec_eu_bytes(on)
                },
            ),
        ensures
            match slot {
                ReadSlot::Volume(pair) => new.volume_q88@[pair as int] == level,
                ReadSlot::Gain(input) => new.gain_q88@[input as int] == level,
                ReadSlot::Phantom(input) => new.phantom@[input as int] == on,
                ReadSlot::InputMute(input) => new.input_mute@[input as int] == on,
                ReadSlot::OutputMute => new.output_mute == on,
            },
    {
        lemma_level_round_trip(level);
        assert(spec_level_bytes(level).take(2) =~= spec_level_bytes(level));
    }

    /// The level a reply to a level read holds; a reply of fewer than two
    /// bytes holds none and is an error.
    pub fn level_reply(reply: &[u8]) -> (r: Result<i16, DriverError>)
        ensures
            reply@.len() >= 2 ==> (r matches Ok(v) && v == spec_level_value(reply@)
                && spec_level_bytes(v) == reply@.take(2)),
            reply@.len() < 2 ==> (r matches Err(DriverError::ShortReply(n)) && n
                == reply@.len()),
    {
        if reply.len() < 2 {
            Err(DriverError::ShortReply(reply.len()))
        } else {
            Ok(level_from_le(reply))
        }
    }

    /// Record the reply to reading `slot` in a status snapshot. A level
    /// reply of fewer than two bytes is an error and changes nothing.
    pub fn status_record(status: &mut DeviceStatus, slot: ReadSlot, reply: &[u8]) -> (r: Result<
        (),
        DriverError,
    >)
        requires
            match slot {
                ReadSlot::Volume(pair) => pair < 2,
                ReadSlot::Gain(input) => input < 4,
                ReadSlot::Phantom(input) => input < 4,
                ReadSlot::InputMute(input) => input < 4,
                ReadSlot::OutputMute => true,
            },
        ensures
            spec_reads_level(slot) && reply@.len() < 2 ==> (r matches Err(
                DriverError::ShortReply(n),
            ) && n == reply@.len() && *final(status) == *old(status)),
            !(spec_reads_level(slot) && reply@.len() < 2) ==> (r is Ok && Self::spec_recorded(
                *old(status),
                *final(status),
                slot,
                reply@,
            )),
    {
        match slot {
            ReadSlot::Volume(pair) => {
                let v = Self::level_reply(reply)?;
                status.volume_q88[pair as usize] = v;
            },
            ReadSlot::Gain(input) => {
                let v = Self::level_reply(reply)?;
                status.gain_q88[input as usize] = v;
            },
            ReadSlot::Phantom(input) => {
                status.phantom[input as usize] = eu_to_bool(reply);
            },
            ReadSlot::InputMute(input) => {
                status.input_mute[input as usize] = eu_to_bool(reply);
            },
            ReadSlot::OutputMute => {
                status.output_mute = eu_to_bool(reply);
            },
        }
        Ok(())
    }
}

} // verus!
