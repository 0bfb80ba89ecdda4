//! EVO 8 device specification constants.
//!
//! Level ranges are held in Q8.8 units (1/256 dB), the unit the device is
//! written in. Every bound of the EVO 8 is a whole number of dB, so clamping
//! the Q8.8 value of a request is the same as clamping the request in dB and
//! then converting it.

use vstd::prelude::*;

verus! {

/// Static description of the EVO 8's channel layout and level ranges.
#[derive(Clone, Copy, Debug)]
pub struct DeviceSpec {
    pub vid: u16,
    pub pid: u16,
    pub display_name: &'static str,
    /// Number of physical input channels (XLR/TRS combo jacks).
    pub num_inputs: u8,
    /// Number of stereo output pairs (main + headphone on EVO 8).
    pub num_output_pairs: u8,
    /// Mixer matrix input count (mic/line + DAW + LoopOut streams).
    pub mixer_inputs: u8,
    /// Mixer matrix output count (stereo pairs into the loopback bus).
    pub mixer_outputs: u8,
    /// Output volume range, Q8.8. The hardware floor is -127 dB; the
    /// software limit is -96 dB.
    pub vol_q88_min: i16,
    pub vol_q88_max: i16,
    /// Input gain range, Q8.8.
    pub gain_q88_min: i16,
    pub gain_q88_max: i16,
    /// The device quantizes gain writes to this step size, Q8.8.
    pub gain_q88_step: u16,
    /// Mixer cross-point range, Q8.8. i16::MIN (-128 dB) is silence.
    pub mixer_q88_min: i16,
    pub mixer_q88_max: i16,
}

/// `x` limited to `[lo, hi]`.
pub open spec fn spec_clamp(x: int, lo: int, hi: int) -> int {
    if x < lo {
        lo
    } else if x > hi {
        hi
    } else {
        x
    }
}

/// `x` limited to the range of i16, as a saturating conversion does.
pub open spec fn spec_saturate_i16(x: int) -> int {
    spec_clamp(x, i16::MIN as int, i16::MAX as int)
}

/// `n / d` rounded to the nearest integer, halves away from zero.
pub open spec fn spec_round_div(n: int, d: int) -> int
    recommends
        d > 0,
{
    if n >= 0 {
        (2 * n + d) / (2 * d)
    } else {
        -((-2 * n + d) / (2 * d))
    }
}

/// `x` snapped to the nearest multiple of `step` (halves away from zero).
/// A step of zero leaves no level: the result is 0.
pub open spec fn spec_snap(x: int, step: int) -> int {
    if step <= 0 {
        0
    } else {
        spec_round_div(x, step) * step
    }
}

impl DeviceSpec {
    /// The output volume the device is given for a requested level.
    pub open spec fn spec_clamp_vol(&self, raw: int) -> int {
        spec_clamp(raw, self.vol_q88_min as int, self.vol_q88_max as int)
    }

    /// The input gain the device is given for a requested level: clamped
    /// to the gain range, then snapped to the gain step.
    pub open spec fn spec_clamp_gain(&self, raw: int) -> int {
        spec_saturate_i16(
            spec_snap(
                spec_clamp(raw, self.gain_q88_min as int, self.gain_q88_max as int),
                self.gain_q88_step as int,
            ),
        )
    }

    /// The mixer cross-point level the device is given for a requested level.
    pub open spec fn spec_clamp_mixer(&self, raw: int) -> int {
        spec_clamp(raw, self.mixer_q88_min as int, self.mixer_q88_max as int)
    }

    /// Clamp a Q8.8 level to the output volume range.
    pub fn clamp_vol(&self, raw: i32) -> (r: i16)
        requires
            self.vol_q88_min <= self.vol_q88_max,
        ensures
            r as int == self.spec_clamp_vol(raw as int),
            self.vol_q88_min <= r <= self.vol_q88_max,
    {
        if raw < self.vol_q88_min as i32 {
            self.vol_q88_min
        } else if raw > self.vol_q88_max as i32 {
            self.vol_q88_max
        } else {
            raw as i16
        }
    }

    /// Clamp a Q8.8 level to the gain range and snap it to the nearest gain
    /// step (halves away from zero).
    pub fn clamp_gain(&self, raw: i32) -> (r: i16)
        requires
            self.gain_q88_min <= self.gain_q88_max,
        ensures
            r as int == self.spec_clamp_gain(raw as int),
    {
        let clamped: i32 = if raw < self.gain_q88_min as i32 {
            self.gain_q88_min as i32
        } else if raw > self.gain_q88_max as i32 {
            self.gain_q88_max as i32
        } else {
            raw
        };
        let step: i32 = self.gain_q88_step as i32;
        if step == 0 {
            return 0;
        }
        let magnitude: i32 = if clamped >= 0 { clamped } else { 0 - clamped };
        let rounded: i32 = (2 * magnitude + step) / (2 * step);
        let steps: i32 = if clamped >= 0 { rounded } else { 0 - rounded };
        proof {
            let c = clamped as int;
            let s = step as int;
            assert(-32768 <= c <= 32767);
            assert(1 <= s <= 65535);
            if c >= 0 {
                assert((2 * c + s) / (2 * s) <= (2 * c + s)) by (nonlinear_arith)
                    requires
                        c >= 0,
                        s >= 1,
                ;
                assert(0 <= (2 * c + s) / (2 * s)) by (nonlinear_arith)
                    requires
                        c >= 0,
                        s >= 1,
                ;
            } else {
                assert((-2 * c + s) / (2 * s) <= (-2 * c + s)) by (nonlinear_arith)
                    requires
                        c < 0,
                        s >= 1,
                ;
                assert(0 <= (-2 * c + s) / (2 * s)) by (nonlinear_arith)
                    requires
                        c < 0,
                        s >= 1,
                ;
            }
        }
        proof {
            assert(-200000 <= steps <= 200000);
            assert(-200000 * 65535 <= steps as int * step as int <= 200000 * 65535)
                by (nonlinear_arith)
                requires
                    -200000 <= steps <= 200000,
                    1 <= step <= 65535,
            ;
        }
        let snapped: i64 = steps as i64 * step as i64;
        if snapped < i16::MIN as i64 {
            i16::MIN
        } else if snapped > i16::MAX as i64 {
            i16::MAX
        } else {
            snapped as i16
        }
    }

    /// Clamp a Q8.8 level to the mixer cross-point range.
    pub fn clamp_mixer(&self, raw: i32) -> (r: i16)
        requires
            self.mixer_q88_min <= self.mixer_q88_max,
        ensures
            r as int == self.spec_clamp_mixer(raw as int),
            self.mixer_q88_min <= r <= self.mixer_q88_max,
    {
        if raw < self.mixer_q88_min as i32 {
            self.mixer_q88_min
        } else if raw > self.mixer_q88_max as i32 {
            self.mixer_q88_max
        } else {
            raw as i16
        }
    }

    /// Total mixer cross-points (in x out).
    pub fn mixer_crosspoints(&self) -> (n: u8)
        requires
            self.mixer_inputs as int * self.mixer_outputs as int <= u8::MAX,
        ensures
            n as int == self.mixer_inputs as int * self.mixer_outputs as int,
    {
        self.mixer_inputs * self.mixer_outputs
    }
}

/// The Audient EVO 8 as a value: 4 combo XLR/TRS inputs, 2 stereo output
/// pairs (main + headphone), a 10x4 loopback mixer matrix.
pub open spec fn spec_evo8() -> DeviceSpec {
    DeviceSpec {
        vid: 0x2708,
        pid: 0x0007,
        display_name: "Audient EVO 8",
        num_inputs: 4,
        num_output_pairs: 2,
        // Mixer: 4 mic/line + 4 DAW + 2 LoopOut inputs; 4 loopback outputs.
        mixer_inputs: 10,
        mixer_outputs: 4,
        // -96 dB software floor (the hardware descriptor reports -127) to 0 dB.
        vol_q88_min: -24576i16,
        vol_q88_max: 0,
        // -8 dB to +50 dB in 1 dB steps.
        gain_q88_min: -2048i16,
        gain_q88_max: 12800i16,
        gain_q88_step: 256,
        // -128 dB (silence) to +6 dB, the Windows app's software limit.
        mixer_q88_min: -32768i16,
        mixer_q88_max: 1536i16,
    }
}

/// The Audient EVO 8.
pub fn evo8() -> (spec: DeviceSpec)
    ensures
        spec == spec_evo8(),
{
    DeviceSpec {
        vid: 0x2708,
        pid: 0x0007,
        display_name: "Audient EVO 8",
        num_inputs: 4,
        num_output_pairs: 2,
        mixer_inputs: 10,
        mixer_outputs: 4,
        vol_q88_min: -96 * 256,
        vol_q88_max: 0,
        gain_q88_min: -8 * 256,
        gain_q88_max: 50 * 256,
        gain_q88_step: 256,
        mixer_q88_min: -128 * 256,
        mixer_q88_max: 6 * 256,
    }
}

/// Clamping keeps a level that is already in range and is idempotent.
pub proof fn lemma_clamp_laws(x: int, lo: int, hi: int)
    requires
        lo <= hi,
    ensures
        lo <= spec_clamp(x, lo, hi) <= hi,
        lo <= x <= hi ==> spec_clamp(x, lo, hi) == x,
        spec_clamp(spec_clamp(x, lo, hi), lo, hi) == spec_clamp(x, lo, hi),
{
}

/// On the EVO 8, every gain the device is given is a whole number of dB
/// inside the gain range, and snapping a gain twice changes nothing.
pub proof fn lemma_evo8_gain_whole_db(raw: int)
    ensures
        spec_evo8().gain_q88_min <= spec_evo8().spec_clamp_gain(raw) <= spec_evo8().gain_q88_max,
        spec_evo8().spec_clamp_gain(raw) % 256 == 0,
        spec_evo8().spec_clamp_gain(spec_evo8().spec_clamp_gain(raw))
            == spec_evo8().spec_clamp_gain(raw),
{
    let c = spec_clamp(raw, -2048, 12800);
    let k = spec_round_div(c, 256);
    if c >= 0 {
        assert(k == (2 * c + 256) / 512);
        assert(0 <= k <= 50);
    } else {
        assert(k == -((-2 * c + 256) / 512));
        assert(-8 <= k <= 0);
    }
    assert(spec_snap(c, 256) == k * 256);
    let g = k * 256;
    assert(-2048 <= g <= 12800);
    assert(spec_clamp(g, -2048, 12800) == g);
    if g >= 0 {
        assert((2 * g + 256) / 512 == k);
    } else {
        assert((-2 * g + 256) / 512 == -k);
    }
}

/// Rounding `m / d` half up, for `m >= 0`: the multiple `q * d` it gives is
/// within half a step of `m`, and a tie goes to the larger multiple.
proof fn lemma_half_up_nearest(m: int, d: int)
    requires
        m >= 0,
        d > 0,
    ensures
        (2 * m + d) / (2 * d) >= 0,
        -d < 2 * ((2 * m + d) / (2 * d) * d - m) <= d,
        2 * ((2 * m + d) / (2 * d) * d - m) == d ==> (2 * m + d) / (2 * d) * d > m,
{
    let t = 2 * m + d;
    let q = t / (2 * d);
    let r = t % (2 * d);
    vstd::arithmetic::div_mod::lemma_fundamental_div_mod(t, 2 * d);
    vstd::arithmetic::div_mod::lemma_mod_bound(t, 2 * d);
    assert(t == 2 * d * q + r);
    assert(2 * d * q == 2 * (q * d)) by (nonlinear_arith);
    assert(q >= 0) by (nonlinear_arith)
        requires
            t == 2 * d * q + r,
            0 <= r < 2 * d,
            t >= 0,
            d > 0,
    ;
}

/// Two multiples of `d` closer than `d` to each other in one direction are
/// ordered the same way as whole multiples.
proof fn lemma_multiples_ordered(a: int, b: int, d: int)
    requires
        d > 0,
        a * d < b * d + d,
    ensures
        a * d <= b * d,
{
    assert(a <= b) by (nonlinear_arith)
        requires
            d > 0,
            a * d < b * d + d,
    ;
    assert(a * d <= b * d) by (nonlinear_arith)
        requires
            d > 0,
            a <= b,
    ;
}

/// The gain the device is given is the step nearest to the clamped request:
/// a whole number of steps, inside the gain range, within half a step of
/// the clamped request, and a request exactly between two steps goes to the
/// one farther from zero. This holds for any device whose gain range ends on
/// whole steps.
pub proof fn lemma_gain_is_nearest_step(spec: DeviceSpec, raw: int)
    requires
        spec.gain_q88_step > 0,
        spec.gain_q88_min <= spec.gain_q88_max,
        (spec.gain_q88_min as int) % (spec.gain_q88_step as int) == 0,
        (spec.gain_q88_max as int) % (spec.gain_q88_step as int) == 0,
    ensures
        ({
            let d = spec.gain_q88_step as int;
            let c = spec_clamp(raw, spec.gain_q88_min as int, spec.gain_q88_max as int);
            let g = spec.spec_clamp_gain(raw);
            &&& g % d == 0
            &&& spec.gain_q88_min <= g <= spec.gain_q88_max
            &&& -d <= 2 * (g - c) <= d
            &&& (2 * (g - c) == d || 2 * (g - c) == -d) ==> (if c >= 0 {
                g > c
            } else {
                g < c
            })
        }),
{
    let d = spec.gain_q88_step as int;
    let lo = spec.gain_q88_min as int;
    let hi = spec.gain_q88_max as int;
    let c = spec_clamp(raw, lo, hi);
    vstd::arithmetic::div_mod::lemma_fundamental_div_mod(lo, d);
    vstd::arithmetic::div_mod::lemma_fundamental_div_mod(hi, d);
    let kl = lo / d;
    let kh = hi / d;
    assert(lo == d * kl && hi == d * kh);
    assert(d * kl == kl * d && d * kh == kh * d) by (nonlinear_arith);
    // The multiple snapping gives, as k * d.
    let k = spec_round_div(c, d);
    if c >= 0 {
        lemma_half_up_nearest(c, d);
        assert(k == (2 * c + d) / (2 * d));
    } else {
        lemma_half_up_nearest(-c, d);
        assert(k == -((-2 * c + d) / (2 * d)));
        let q = (-2 * c + d) / (2 * d);
        assert(k * d == -(q * d)) by (nonlinear_arith)
            requires
                k == -q,
        ;
    }
    let g0 = k * d;
    assert(spec_snap(c, d) == g0);
    assert(-d <= 2 * (g0 - c) <= d);
    // Snapping stays inside the range, whose ends are whole steps.
    assert(g0 < kh * d + d);
    lemma_multiples_ordered(k, kh, d);
    assert(kl * d < k * d + d);
    lemma_multiples_ordered(kl, k, d);
    assert(lo <= g0 <= hi);
    assert(spec_saturate_i16(g0) == g0);
    assert(spec.spec_clamp_gain(raw) == g0);
    vstd::arithmetic::div_mod::lemma_mod_multiples_basic(k, d);
}

} // verus!
