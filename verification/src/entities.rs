//! UAC2 entity IDs and their wIndex values: (EntityID << 8) | Interface(0),
//! and the channel arithmetic that addresses a control within an entity.

use vstd::prelude::*;

verus! {

/// Feature Unit 10: output volume. R/W, i16 LE in 1/256 dB per channel.
/// CN = 1..4 for the two output pairs (pair_idx*2+1, pair_idx*2+2).
pub const W_INDEX_FU10: u16 = 0x0A00;

/// Feature Unit 11: input gain. R/W, i16 LE in 1/256 dB per channel.
/// CN = 1..4 for inputs 1 to 4. The device quantizes writes to 1 dB steps.
pub const W_INDEX_FU11: u16 = 0x0B00;

/// Extension Unit 58: input config (phantom power and mute). R/W, u32 LE bool.
/// CS=0 with CN=0..3 is phantom 48V for inputs 1 to 4;
/// CS=2 with CN=0..3 is the input mute for inputs 1 to 4.
/// The full 4 bytes must be sent; the device ignores short writes.
pub const W_INDEX_EU58: u16 = 0x3A00;

/// Extension Unit 59: output config (mute). R/W, u32 LE bool.
/// CS=1, CN=0 is the output mute (both output pairs). Full 4 bytes.
pub const W_INDEX_EU59: u16 = 0x3B00;

/// Mixer Unit 60: loopback mixer matrix. Write-only (GET_CUR stalls).
/// i16 LE in 1/256 dB, CS=1, CN = out_idx + in_idx * NUM_MIXER_OUTPUTS.
pub const W_INDEX_MU60: u16 = 0x3C00;

/// The wValue of a control request: the selector in the high byte and the
/// channel number in the low byte.
pub open spec fn spec_w_value(cs: u8, cn: u8) -> u16 {
    (cs as int * 256 + cn as int) as u16
}

/// Build wValue from a control selector and a channel number.
pub fn w_value(cs: u8, cn: u8) -> (w: u16)
    ensures
        w == spec_w_value(cs, cn),
        w as int == cs as int * 256 + cn as int,
        w / 256 == cs,
        w % 256 == cn,
{
    (cs as u16) * 256 + (cn as u16)
}

/// The channel number of mixer cross-point (in_idx, out_idx).
pub open spec fn spec_mixer_cn(in_idx: u8, out_idx: u8, num_outputs: u8) -> int {
    out_idx as int + in_idx as int * num_outputs as int
}

/// MU60 cross-point CN for (in_idx, out_idx). On the EVO 8, num_outputs = 4,
/// in_idx ranges over 0..9 and out_idx over 0..3.
///
/// The arithmetic is on bytes, so the cross-point number must fit in one.
pub fn mixer_cn(in_idx: u8, out_idx: u8, num_outputs: u8) -> (cn: u8)
    requires
        spec_mixer_cn(in_idx, out_idx, num_outputs) <= u8::MAX,
    ensures
        cn as int == spec_mixer_cn(in_idx, out_idx, num_outputs),
{
    proof {
        assert(0 <= in_idx as int * num_outputs as int) by (nonlinear_arith);
    }
    out_idx + in_idx * num_outputs
}

/// Distinct cross-points of a matrix with `num_outputs` outputs have distinct
/// channel numbers, and every cross-point of an `num_inputs` by `num_outputs`
/// matrix is numbered below `num_inputs * num_outputs`.
pub proof fn lemma_mixer_cn_distinct(
    num_inputs: u8,
    num_outputs: u8,
    in_a: u8,
    out_a: u8,
    in_b: u8,
    out_b: u8,
)
    requires
        in_a < num_inputs,
        in_b < num_inputs,
        out_a < num_outputs,
        out_b < num_outputs,
    ensures
        spec_mixer_cn(in_a, out_a, num_outputs) < num_inputs as int * num_outputs as int,
        (in_a != in_b || out_a != out_b) ==> spec_mixer_cn(in_a, out_a, num_outputs)
            != spec_mixer_cn(in_b, out_b, num_outputs),
{
    let n = num_outputs as int;
    let ia = in_a as int;
    let ib = in_b as int;
    let oa = out_a as int;
    let ob = out_b as int;
    assert(oa + ia * n < num_inputs as int * n) by (nonlinear_arith)
        requires
            0 <= oa < n,
            0 <= ia < num_inputs as int,
    {
        assert(ia * n + n <= num_inputs as int * n);
    }
    if ia != ib || oa != ob {
        assert(oa + ia * n != ob + ib * n) by (nonlinear_arith)
            requires
                0 <= oa < n,
                0 <= ob < n,
                0 <= ia,
                0 <= ib,
                ia != ib || oa != ob,
        {
            if ia < ib {
                assert(ia * n + n <= ib * n);
            } else if ib < ia {
                assert(ib * n + n <= ia * n);
            }
        }
    }
}

} // verus!
