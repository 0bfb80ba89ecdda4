//! Protocol verification: the table of every documented EVO 8 control, and
//! how the reply to reading one is judged and shown.

use vstd::prelude::*;
use crate::codec::{eu_to_bool, level_from_le, spec_eu_value, spec_level_value};
use crate::controls::{CS_EU58_MUTE, CS_EU58_PHANTOM, CS_EU59_MUTE, CS_MIXER, CS_VOLUME};
use crate::entities::{mixer_cn, spec_mixer_cn, spec_w_value, w_value, W_INDEX_EU58, W_INDEX_EU59, W_INDEX_FU10, W_INDEX_FU11, W_INDEX_MU60};
use crate::driver::{spec_read_request, ReadSlot};
use crate::error::DriverError;
use crate::text::{decimal, format_db1, hex4, pad_left, pad_right, spec_db1, spec_decimal, spec_hex4, spec_pad_left, spec_pad_right};

verus! {

/// How the reply of a probed control is shown.
#[derive(Clone, Copy, Debug, PartialEq, Eq, Structural)]
pub enum Decoder {
    /// A Q8.8 level, shown in dB with one decimal.
    Db,
    /// A boolean payload, shown as ON or OFF.
    Bool,
}

/// How the reply of a probed control is written back by the write test.
#[derive(Clone, Copy, Debug, PartialEq, Eq, Structural)]
pub enum Reencoder {
    /// The bytes read are written back unchanged.
    Identity,
}

/// One control the probe reads.
#[derive(Debug)]
pub struct ProbeControl {
    pub name: String,
    pub w_value: u16,
    pub w_index: u16,
    pub expected_len: u16,
    pub decode: Decoder,
    pub reencode: Reencoder,
    /// Whether a STALL is acceptable (the write-only MU60).
    pub stall_ok: bool,
}

/// The verdict on one probed control.
#[derive(Debug)]
pub enum ProbeStatus {
    /// The reply had the expected shape; its value, shown.
    Passed(String),
    /// The reply was shorter than expected.
    Shape { got: usize, expected: usize },
    /// No reply.
    Stall,
}

/// A reply shown as a level: "?" when it is too short to hold one.
pub open spec fn spec_decode_db(data: Seq<u8>) -> Seq<char> {
    if data.len() < 2 {
        "?"@
    } else {
        spec_db1(spec_level_value(data)) + " dB"@
    }
}

/// A reply shown as a boolean: "?" when it is too short to hold one.
pub open spec fn spec_decode_bool(data: Seq<u8>) -> Seq<char> {
    if data.len() < 4 {
        "?"@
    } else if spec_eu_value(data) {
        "ON"@
    } else {
        "OFF"@
    }
}

/// Show a reply as a level in dB.
pub fn decode_db(data: &[u8]) -> (s: String)
    ensures
        s@ == spec_decode_db(data@),
{
    if data.len() < 2 {
        return String::from_str("?");
    }
    let raw = level_from_le(data);
    let mut s = format_db1(raw);
    s.append(" dB");
    s
}

/// Show a reply as ON or OFF.
pub fn decode_bool(data: &[u8]) -> (s: String)
    ensures
        s@ == spec_decode_bool(data@),
{
    if data.len() < 4 {
        return String::from_str("?");
    }
    if eu_to_bool(data) {
        String::from_str("ON")
    } else {
        String::from_str("OFF")
    }
}

/// The bytes the write test sends back: those that were read.
pub fn reencode_identity(data: &[u8]) -> (out: Vec<u8>)
    ensures
        out@ == data@,
{
    let mut out: Vec<u8> = Vec::new();
    let mut i: usize = 0;
    while i < data.len()
        invariant
            i <= data@.len(),
            out@ == data@.take(i as int),
        decreases data@.len() - i,
    {
        out.push(data[i]);
        i = i + 1;
        assert(out@ =~= data@.take(i as int));
    }
    assert(data@.take(data@.len() as int) =~= data@);
    out
}

impl ProbeStatus {
    /// A SHAPE or STALL verdict is a failure.
    pub open spec fn spec_is_failure(&self) -> bool {
        !(self is Passed)
    }

    pub fn is_failure(&self) -> (b: bool)
        ensures
            b == self.spec_is_failure(),
    {
        match self {
            ProbeStatus::Passed(_) => false,
            _ => true,
        }
    }

    /// Whether `--probe-writable` writes this row's value back: only a row
    /// that read OK has a value to write.
    pub fn writes_back(&self) -> (b: bool)
        ensures
            b == (self is Passed),
    {
        match self {
            ProbeStatus::Passed(_) => true,
            _ => false,
        }
    }

    /// The label of a verdict.
    pub open spec fn spec_label(&self) -> Seq<char> {
        match self {
            ProbeStatus::Passed(_) => "OK"@,
            ProbeStatus::Shape { .. } => "SHAPE"@,
            ProbeStatus::Stall => "STALL"@,
        }
    }

    pub fn label(&self) -> (s: &'static str)
        ensures
            s@ == self.spec_label(),
    {
        match self {
            ProbeStatus::Passed(_) => "OK",
            ProbeStatus::Shape { .. } => "SHAPE",
            ProbeStatus::Stall => "STALL",
        }
    }
}

impl ProbeControl {
    /// The reply shown by this control's decoder.
    pub open spec fn spec_shown(&self, data: Seq<u8>) -> Seq<char> {
        match self.decode {
            Decoder::Db => spec_decode_db(data),
            Decoder::Bool => spec_decode_bool(data),
        }
    }

    /// The verdict on a reply: an empty reply is a STALL, a reply shorter
    /// than expected (its length taken as 16 bits) is a SHAPE, any other is
    /// OK with the value shown.
    pub fn status(&self, data: &[u8]) -> (st: ProbeStatus)
        ensures
            data@.len() == 0 ==> st is Stall,
            data@.len() > 0 && (data@.len() as u16) < self.expected_len ==> (st matches ProbeStatus::Shape { got, expected }
                && got == data@.len() && expected == self.expected_len),
            data@.len() > 0 && (data@.len() as u16) >= self.expected_len ==> (st matches ProbeStatus::Passed(v)
                && v@ == self.spec_shown(data@)),
    {
        if data.len() == 0 {
            return ProbeStatus::Stall;
        }
        if (data.len() as u16) < self.expected_len {
            return ProbeStatus::Shape { got: data.len(), expected: self.expected_len as usize };
        }
        let shown = match self.decode {
            Decoder::Db => decode_db(data),
            Decoder::Bool => decode_bool(data),
        };
        ProbeStatus::Passed(shown)
    }
}

/// The verdict on reading one control: a reply is judged by
/// [`ProbeControl::status`] (an empty one is a STALL); a failed read of any
/// kind is a STALL.
pub fn probe_one(ctrl: &ProbeControl, outcome: &Result<Vec<u8>, DriverError>) -> (st: ProbeStatus)
    ensures
        outcome is Err ==> st is Stall,
        outcome matches Ok(data) ==> (data@.len() == 0 ==> st is Stall),
        outcome matches Ok(data) ==> (data@.len() > 0 && (data@.len() as u16) < ctrl.expected_len
            ==> (st matches ProbeStatus::Shape { got, expected } && got == data@.len() && expected
            == ctrl.expected_len)),
        outcome matches Ok(data) ==> (data@.len() > 0 && (data@.len() as u16) >= ctrl.expected_len
            ==> (st matches ProbeStatus::Passed(v) && v@ == ctrl.spec_shown(data@))),
{
    match outcome {
        Ok(data) => {
            if data.len() == 0 {
                ProbeStatus::Stall
            } else {
                ctrl.status(data.as_slice())
            }
        },
        Err(_) => ProbeStatus::Stall,
    }
}

/// The number of probe entries.
pub open spec fn spec_probe_len() -> int {
    19
}

/// The name, request and shape of the `k`-th probe entry: the four output
/// volume channels (two per pair), the four input gains, the four phantom
/// switches, the four input mutes, the output mute, and two cross-points of
/// the write-only mixer (inputs 0 and 4 to output 0), whose STALL is
/// expected.
pub open spec fn spec_probe_entry(k: int) -> (Seq<char>, u16, u16, u16, Decoder, bool) {
    if k < 4 {
        let pair = k / 2;
        let cn = k + 1;
        (
            "FU10 volume pair"@ + spec_decimal((pair + 1) as nat) + " CH"@ + spec_decimal(
                cn as nat,
            ),
            spec_w_value(CS_VOLUME, cn as u8),
            W_INDEX_FU10,
            2u16,
            Decoder::Db,
            false,
        )
    } else if k < 8 {
        let cn = k - 3;
        (
            "FU11 gain input"@ + spec_decimal(cn as nat),
            spec_w_value(CS_VOLUME, cn as u8),
            W_INDEX_FU11,
            2u16,
            Decoder::Db,
            false,
        )
    } else if k < 12 {
        let input = k - 8;
        (
            "EU58 phantom input"@ + spec_decimal((input + 1) as nat),
            spec_w_value(CS_EU58_PHANTOM, input as u8),
            W_INDEX_EU58,
            4u16,
            Decoder::Bool,
            false,
        )
    } else if k < 16 {
        let input = k - 12;
        (
            "EU58 mute input"@ + spec_decimal((input + 1) as nat),
            spec_w_value(CS_EU58_MUTE, input as u8),
            W_INDEX_EU58,
            4u16,
            Decoder::Bool,
            false,
        )
    } else if k == 16 {
        ("EU59 output mute"@, spec_w_value(CS_EU59_MUTE, 0), W_INDEX_EU59, 4u16, Decoder::Bool, false)
    } else {
        let in_idx = if k == 17 {
            0int
        } else {
            4int
        };
        (
            "MU60 mixer["@ + spec_decimal(in_idx as nat) + "][0]"@,
            spec_w_value(CS_MIXER, (in_idx * 4) as u8),
            W_INDEX_MU60,
            2u16,
            Decoder::Db,
            true,
        )
    }
}

/// Each probe row addresses the control the driver uses for it: the two
/// volume rows of pair p are the channels the volume read and write of that
/// pair address (the first is the status read), the gain, phantom and mute
/// rows of input i are the status reads of input i, the output mute row is
/// the output mute read, and the mixer rows are the cross-points (0, 0) and
/// (4, 0) as the mixer write numbers them. Each row is named after the
/// input, pair and channel it reads.
pub proof fn lemma_probe_rows_match_driver()
    ensures
        forall|p: u8|
            p < 2 ==> {
                &&& (#[trigger] spec_read_request(ReadSlot::Volume(p))).0 == spec_probe_entry(
                    2 * p as int,
                ).1
                &&& spec_read_request(ReadSlot::Volume(p)).1 == spec_probe_entry(2 * p as int).2
                &&& spec_read_request(ReadSlot::Volume(p)).2 == spec_probe_entry(2 * p as int).3
                &&& spec_probe_entry(2 * p as int + 1).1 == spec_w_value(CS_VOLUME, (2 * p + 2) as u8)
                &&& spec_probe_entry(2 * p as int + 1).2 == spec_read_request(ReadSlot::Volume(p)).1
            },
        forall|i: u8|
            i < 4 ==> {
                &&& (#[trigger] spec_read_request(ReadSlot::Gain(i))) == (
                    spec_probe_entry(4 + i).1,
                    spec_probe_entry(4 + i).2,
                    spec_probe_entry(4 + i).3,
                )
                &&& spec_read_request(ReadSlot::Phantom(i)) == (
                    spec_probe_entry(8 + i).1,
                    spec_probe_entry(8 + i).2,
                    spec_probe_entry(8 + i).3,
                )
                &&& spec_read_request(ReadSlot::InputMute(i)) == (
                    spec_probe_entry(12 + i).1,
                    spec_probe_entry(12 + i).2,
                    spec_probe_entry(12 + i).3,
                )
                &&& spec_probe_entry(4 + i).0 == "FU11 gain input"@ + spec_decimal((i + 1) as nat)
                &&& spec_probe_entry(8 + i).0 == "EU58 phantom input"@ + spec_decimal(
                    (i + 1) as nat,
                )
                &&& spec_probe_entry(12 + i).0 == "EU58 mute input"@ + spec_decimal((i + 1) as nat)
            },
        spec_read_request(ReadSlot::OutputMute) == (
            spec_probe_entry(16).1,
            spec_probe_entry(16).2,
            spec_probe_entry(16).3,
        ),
        spec_probe_entry(17).1 == spec_w_value(CS_MIXER, spec_mixer_cn(0, 0, 4) as u8),
        spec_probe_entry(18).1 == spec_w_value(CS_MIXER, spec_mixer_cn(4, 0, 4) as u8),
        spec_probe_entry(17).2 == W_INDEX_MU60 && spec_probe_entry(18).2 == W_INDEX_MU60,
{
    assert forall|p: u8| p < 2 implies {
        &&& (#[trigger] spec_read_request(ReadSlot::Volume(p))).0 == spec_probe_entry(
            2 * p as int,
        ).1
        &&& spec_read_request(ReadSlot::Volume(p)).1 == spec_probe_entry(2 * p as int).2
        &&& spec_read_request(ReadSlot::Volume(p)).2 == spec_probe_entry(2 * p as int).3
        &&& spec_probe_entry(2 * p as int + 1).1 == spec_w_value(CS_VOLUME, (2 * p + 2) as u8)
        &&& spec_probe_entry(2 * p as int + 1).2 == spec_read_request(ReadSlot::Volume(p)).1
    } by {
        assert((2 * p as int) / 2 == p as int);
        assert((2 * p as int + 1) / 2 == p as int);
    }
}

/// The control matches the `k`-th probe entry.
pub open spec fn spec_is_entry(c: ProbeControl, k: int) -> bool {
    let e = spec_probe_entry(k);
    &&& c.name@ == e.0
    &&& c.w_value == e.1
    &&& c.w_index == e.2
    &&& c.expected_len == e.3
    &&& c.decode == e.4
    &&& c.reencode == Reencoder::Identity
    &&& c.stall_ok == e.5
}

fn entry(
    name: String,
    w_value: u16,
    w_index: u16,
    expected_len: u16,
    decode: Decoder,
    stall_ok: bool,
) -> (c: ProbeControl)
    ensures
        c.name == name,
        c.w_value == w_value,
        c.w_index == w_index,
        c.expected_len == expected_len,
        c.decode == decode,
        c.reencode == Reencoder::Identity,
        c.stall_ok == stall_ok,
{
    ProbeControl { name, w_value, w_index, expected_len, decode, reencode: Reencoder::Identity, stall_ok }
}

/// `prefix` followed by the decimal numeral of `n`.
fn numbered(prefix: &str, n: u64) -> (s: String)
    ensures
        s@ == prefix@ + spec_decimal(n as nat),
{
    let mut s = String::from_str(prefix);
    let num = decimal(n);
    s.append(num.as_str());
    s
}

/// Every documented control of the EVO 8, in probe order.
pub fn all_controls() -> (ctrl: Vec<ProbeControl>)
    ensures
        ctrl@.len() == spec_probe_len(),
        forall|k: int| 0 <= k < spec_probe_len() ==> #[trigger] spec_is_entry(ctrl@[k], k),
{
    let mut ctrl: Vec<ProbeControl> = Vec::new();

    // FU10: output volume (2 pairs x 2 channels = 4 channels)
    let mut pair: u8 = 0;
    while pair < 2
        invariant
            pair <= 2,
            ctrl@.len() == 2 * pair,
            forall|k: int| 0 <= k < ctrl@.len() ==> #[trigger] spec_is_entry(ctrl@[k], k),
        decreases 2 - pair,
    {
        let mut ch_in_pair: u8 = 0;
        while ch_in_pair < 2
            invariant
                pair < 2,
                ch_in_pair <= 2,
                ctrl@.len() == 2 * pair + ch_in_pair,
                forall|k: int| 0 <= k < ctrl@.len() ==> #[trigger] spec_is_entry(ctrl@[k], k),
            decreases 2 - ch_in_pair,
        {
            let cn = pair * 2 + ch_in_pair + 1;
            let mut name = numbered("FU10 volume pair", (pair + 1) as u64);
            let tail = numbered(" CH", cn as u64);
            name.append(tail.as_str());
            let ghost k = ctrl@.len() as int;
            let ghost prev = ctrl@;
            ctrl.push(entry(name, w_value(CS_VOLUME, cn), W_INDEX_FU10, 2, Decoder::Db, false));
            proof {
                assert(k / 2 == pair as int);
                assert(spec_is_entry(ctrl@[k], k)) by {
                    assert(ctrl@[k].name@ =~= spec_probe_entry(k).0);
                }
                assert forall|m: int| 0 <= m < ctrl@.len() implies #[trigger] spec_is_entry(
                    ctrl@[m],
                    m,
                ) by {
                    if m < k {
                        assert(ctrl@[m] == prev[m]);
                    }
                }
            }
            ch_in_pair = ch_in_pair + 1;
        }
        pair = pair + 1;
    }

    // FU11: input gain
    let mut cn: u8 = 1;
    while cn <= 4
        invariant
            1 <= cn <= 5,
            ctrl@.len() == 3 + cn,
            forall|k: int| 0 <= k < ctrl@.len() ==> #[trigger] spec_is_entry(ctrl@[k], k),
        decreases 5 - cn,
    {
        let name = numbered("FU11 gain input", cn as u64);
        let ghost k = ctrl@.len() as int;
        let ghost prev = ctrl@;
        ctrl.push(entry(name, w_value(CS_VOLUME, cn), W_INDEX_FU11, 2, Decoder::Db, false));
        proof {
            assert forall|m: int| 0 <= m < ctrl@.len() implies #[trigger] spec_is_entry(ctrl@[m], m) by {
                if m < k {
                    assert(ctrl@[m] == prev[m]);
                }
            }
        }
        cn = cn + 1;
    }

    // EU58: phantom per input
    let mut input: u8 = 0;
    while input < 4
        invariant
            input <= 4,
            ctrl@.len() == 8 + input,
            forall|k: int| 0 <= k < ctrl@.len() ==> #[trigger] spec_is_entry(ctrl@[k], k),
        decreases 4 - input,
    {
        let name = numbered("EU58 phantom input", (input + 1) as u64);
        let ghost k = ctrl@.len() as int;
        let ghost prev = ctrl@;
        ctrl.push(
            entry(name, w_value(CS_EU58_PHANTOM, input), W_INDEX_EU58, 4, Decoder::Bool, false),
        );
        proof {
            assert forall|m: int| 0 <= m < ctrl@.len() implies #[trigger] spec_is_entry(ctrl@[m], m) by {
                if m < k {
                    assert(ctrl@[m] == prev[m]);
                }
            }
        }
        input = input + 1;
    }

    // EU58: input mute per input
    let mut input: u8 = 0;
    while input < 4
        invariant
            input <= 4,
            ctrl@.len() == 12 + input,
            forall|k: int| 0 <= k < ctrl@.len() ==> #[trigger] spec_is_entry(ctrl@[k], k),
        decreases 4 - input,
    {
        let name = numbered("EU58 mute input", (input + 1) as u64);
        let ghost k = ctrl@.len() as int;
        let ghost prev = ctrl@;
        ctrl.push(entry(name, w_value(CS_EU58_MUTE, input), W_INDEX_EU58, 4, Decoder::Bool, false));
        proof {
            assert forall|m: int| 0 <= m < ctrl@.len() implies #[trigger] spec_is_entry(ctrl@[m], m) by {
                if m < k {
                    assert(ctrl@[m] == prev[m]);
                }
            }
        }
        input = input + 1;
    }

    // EU59: output mute
    let ghost prev = ctrl@;
    ctrl.push(
        entry(
            String::from_str("EU59 output mute"),
            w_value(CS_EU59_MUTE, 0),
            W_INDEX_EU59,
            4,
            Decoder::Bool,
            false,
        ),
    );
    proof {
        assert forall|m: int| 0 <= m < ctrl@.len() implies #[trigger] spec_is_entry(ctrl@[m], m) by {
            if m < 16 {
                assert(ctrl@[m] == prev[m]);
            }
        }
    }

    // MU60: write-only, a STALL is expected
    let rows: [u8; 2] = [0u8, 4u8];
    let mut r: usize = 0;
    while r < 2
        invariant
            r <= 2,
            rows@ == seq![0u8, 4u8],
            ctrl@.len() == 17 + r,
            forall|k: int| 0 <= k < ctrl@.len() ==> #[trigger] spec_is_entry(ctrl@[k], k),
        decreases 2 - r,
    {
        let in_idx = rows[r];
        let mut name = numbered("MU60 mixer[", in_idx as u64);
        name.append("][0]");
        let cn = mixer_cn(in_idx, 0, 4);
        let ghost k = ctrl@.len() as int;
        let ghost prev = ctrl@;
        ctrl.push(entry(name, w_value(CS_MIXER, cn), W_INDEX_MU60, 2, Decoder::Db, true));
        proof {
            assert(spec_is_entry(ctrl@[k], k)) by {
                assert(ctrl@[k].name@ =~= spec_probe_entry(k).0);
            }
            assert forall|m: int| 0 <= m < ctrl@.len() implies #[trigger] spec_is_entry(ctrl@[m], m) by {
                if m < k {
                    assert(ctrl@[m] == prev[m]);
                }
            }
        }
        r = r + 1;
    }
    ctrl
}

/// The header of the probe table and the rule under it.
pub open spec fn spec_table_head() -> Seq<char> {
    spec_pad_right("Control"@, 35) + " "@ + spec_pad_left("wValue"@, 8) + " "@ + spec_pad_left(
        "wIndex"@,
        8,
    ) + " "@ + spec_pad_left("Exp"@, 5) + " "@ + spec_pad_left("Got"@, 5) + " "@ + spec_pad_right(
        "Value"@,
        12,
    ) + " "@ + "Status"@ + "\n"@ + Seq::new(95, |i: int| '\u{2500}') + "\n"@
}

/// The reply length and value column of a verdict.
pub open spec fn spec_row_cells(c: ProbeControl, st: ProbeStatus) -> (nat, Seq<char>) {
    match st {
        ProbeStatus::Passed(v) => (c.expected_len as nat, v@),
        ProbeStatus::Shape { got, .. } => (got as nat, "\u{2014}"@),
        ProbeStatus::Stall => (0nat, "\u{2014}"@),
    }
}

/// The table row of a probed control: name, request, expected and received
/// length, value, verdict; a failing row is set in red.
pub open spec fn spec_table_row(c: ProbeControl, st: ProbeStatus) -> Seq<char> {
    let cells = spec_row_cells(c, st);
    let body = spec_pad_right(c.name@, 35) + " 0x"@ + spec_hex4(c.w_value) + " 0x"@ + spec_hex4(
        c.w_index,
    ) + " "@ + spec_pad_left(spec_decimal(c.expected_len as nat), 3) + " "@ + spec_pad_left(
        spec_decimal(cells.0),
        3,
    ) + " "@ + spec_pad_right(cells.1, 12) + " "@ + st.spec_label() + "\n"@;
    if st.spec_is_failure() {
        "\u{1b}[31m"@ + body + "\u{1b}[0m"@
    } else {
        body
    }
}

/// The rows of the first `n` results.
pub open spec fn spec_table_rows(results: Seq<(ProbeControl, ProbeStatus)>, n: int) -> Seq<char>
    decreases n,
{
    if n <= 0 {
        Seq::empty()
    } else {
        spec_table_rows(results, n - 1) + spec_table_row(results[n - 1].0, results[n - 1].1)
    }
}

/// The probe table of all results.
pub open spec fn spec_table(results: Seq<(ProbeControl, ProbeStatus)>) -> Seq<char> {
    spec_table_head() + spec_table_rows(results, results.len() as int)
}

/// The row of one probed control.
fn table_row(c: &ProbeControl, st: &ProbeStatus) -> (s: String)
    ensures
        s@ == spec_table_row(*c, *st),
{
    let (got, value): (u64, String) = match st {
        ProbeStatus::Passed(v) => (c.expected_len as u64, v.clone()),
        ProbeStatus::Shape { got, .. } => (*got as u64, String::from_str("\u{2014}")),
        ProbeStatus::Stall => (0, String::from_str("\u{2014}")),
    };
    let fail = st.is_failure();
    let mut s = String::new();
    if fail {
        s.append("\u{1b}[31m");
    }
    let name = pad_right(c.name.as_str(), 35);
    s.append(name.as_str());
    s.append(" 0x");
    let wv = hex4(c.w_value);
    s.append(wv.as_str());
    s.append(" 0x");
    let wi = hex4(c.w_index);
    s.append(wi.as_str());
    s.append(" ");
    let exp = decimal(c.expected_len as u64);
    let exp = pad_left(exp.as_str(), 3);
    s.append(exp.as_str());
    s.append(" ");
    let got = decimal(got);
    let got = pad_left(got.as_str(), 3);
    s.append(got.as_str());
    s.append(" ");
    let value = pad_right(value.as_str(), 12);
    s.append(value.as_str());
    s.append(" ");
    s.append(st.label());
    s.append("\n");
    if fail {
        s.append("\u{1b}[0m");
    }
    assert(s@ =~= spec_table_row(*c, *st));
    s
}

/// Lay out the probe table: a header, a rule, and one row per result.
pub fn format_table(results: &Vec<(ProbeControl, ProbeStatus)>) -> (s: String)
    ensures
        s@ == spec_table(results@),
{
    let mut s = pad_right("Control", 35);
    s.append(" ");
    let h = pad_left("wValue", 8);
    s.append(h.as_str());
    s.append(" ");
    let h = pad_left("wIndex", 8);
    s.append(h.as_str());
    s.append(" ");
    let h = pad_left("Exp", 5);
    s.append(h.as_str());
    s.append(" ");
    let h = pad_left("Got", 5);
    s.append(h.as_str());
    s.append(" ");
    let h = pad_right("Value", 12);
    s.append(h.as_str());
    s.append(" ");
    s.append("Status");
    s.append("\n");
    let mut i: usize = 0;
    while i < 95
        invariant
            i <= 95,
            s@ == spec_pad_right("Control"@, 35) + " "@ + spec_pad_left("wValue"@, 8) + " "@
                + spec_pad_left("wIndex"@, 8) + " "@ + spec_pad_left("Exp"@, 5) + " "@
                + spec_pad_left("Got"@, 5) + " "@ + spec_pad_right("Value"@, 12) + " "@
                + "Status"@ + "\n"@ + Seq::new(i as nat, |k: int| '\u{2500}'),
        decreases 95 - i,
    {
        proof { reveal_strlit("\u{2500}"); }
        s.append("\u{2500}");
        i = i + 1;
        assert(Seq::new(i as nat, |k: int| '\u{2500}') =~= Seq::new((i - 1) as nat, |k: int| '\u{2500}') + "\u{2500}"@);
    }
    s.append("\n");
    assert(s@ =~= spec_table_head());
    let mut k: usize = 0;
    while k < results.len()
        invariant
            k <= results@.len(),
            s@ == spec_table_head() + spec_table_rows(results@, k as int),
        decreases results@.len() - k,
    {
        let row = table_row(&results[k].0, &results[k].1);
        s.append(row.as_str());
        k = k + 1;
        assert(s@ =~= spec_table_head() + spec_table_rows(results@, k as int));
    }
    s
}

/// The number of failing verdicts among the first `n` results.
pub open spec fn spec_failures(results: Seq<(ProbeControl, ProbeStatus)>, n: int) -> int
    decreases n,
{
    if n <= 0 {
        0
    } else {
        spec_failures(results, n - 1) + if results[n - 1].1.spec_is_failure() {
            1int
        } else {
            0int
        }
    }
}

/// How many controls failed the probe.
pub fn count_failures(results: &Vec<(ProbeControl, ProbeStatus)>) -> (n: usize)
    ensures
        n as int == spec_failures(results@, results@.len() as int),
{
    let mut n: usize = 0;
    let mut k: usize = 0;
    while k < results.len()
        invariant
            k <= results@.len(),
            n as int == spec_failures(results@, k as int),
            n <= k,
        decreases results@.len() - k,
    {
        if results[k].1.is_failure() {
            n = n + 1;
        }
        k = k + 1;
    }
    n
}

} // verus!
