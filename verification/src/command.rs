//! The command-line front end's decisions: reading its arguments, and the
//! text it answers with.

use vstd::prelude::*;
use crate::status::DeviceStatus;
use crate::state::{spec_mixer_recorded, DeviceState, MIXER_INPUTS, MIXER_OUTPUTS, SILENCE_Q88};
use crate::text::{digit_value, digit_str, format_db1, spec_all_digits, spec_db1, spec_decimal, spec_digit_char, spec_digit_value, spec_digits_value, spec_parse_u8, spec_pad_left, starts_with, str_eq, decimal, pad_left};

verus! {

/// Why a string is not a byte, as `str::parse::<u8>` reports it.
#[derive(Clone, Copy, Debug, PartialEq, Eq, Structural)]
pub enum ParseU8Error {
    /// The string is empty.
    Empty,
    /// A character is not a digit (or a sign stands alone).
    InvalidDigit,
    /// The number is larger than 255.
    PosOverflow,
}

/// Why a command's arguments were refused.
#[derive(Debug)]
pub enum CommandError {
    /// An input number outside 1 to 4, or one that is not a number; the
    /// reason the number could not be read, when that was the failure.
    InputRange { cause: Option<ParseU8Error> },
    /// A mute target that is neither `input<N>` nor `output`.
    MuteTarget,
    /// `get gain` without a valid input number.
    GetGainUsage,
    /// `get phantom` without a valid input number.
    GetPhantomUsage,
    /// `get mute` without `input<N>` or `output`.
    GetMuteUsage,
    /// A control name that `get` does not know.
    UnknownControl(String),
    /// A switch state that is neither on nor off.
    ExpectedOnOff(String),
}

/// The target of a mute command.
#[derive(Clone, Copy, Debug, PartialEq, Eq, Structural)]
pub enum MuteTarget {
    /// Input `number` (1-based) at device index `index`.
    Input { number: u8, index: u8 },
    /// The outputs.
    Output,
}

/// What `get` reads.
#[derive(Clone, Copy, Debug, PartialEq, Eq, Structural)]
pub enum GetQuery {
    /// The main output volume.
    Volume,
    /// The gain of the input at this device index.
    Gain(u8),
    /// The phantom power of the input at this device index.
    Phantom(u8),
    /// The mute of the input at this device index.
    InputMute(u8),
    /// The output mute.
    OutputMute,
}

/// How `str::parse::<u8>` refuses a string it cannot read.
pub open spec fn spec_parse_u8_error(s: Seq<char>) -> ParseU8Error {
    let digits = if s.len() > 0 && s[0] == '+' {
        s.subrange(1, s.len() as int)
    } else {
        s
    };
    if s.len() == 0 {
        ParseU8Error::Empty
    } else if digits.len() == 0 {
        ParseU8Error::InvalidDigit
    } else {
        spec_first_failure(digits, 0, 0)
    }
}

/// Reading the digits left to right from position `i` with the value `acc`
/// of those before it: the first non-digit is an invalid digit, and the first
/// digit that takes the value past 255 is an overflow.
pub open spec fn spec_first_failure(digits: Seq<char>, i: int, acc: int) -> ParseU8Error
    decreases digits.len() - i,
{
    if i >= digits.len() {
        ParseU8Error::InvalidDigit
    } else if spec_digit_value(digits[i]) is None {
        ParseU8Error::InvalidDigit
    } else if acc * 10 + spec_digit_value(digits[i])->0 > 255 {
        ParseU8Error::PosOverflow
    } else {
        spec_first_failure(digits, i + 1, acc * 10 + spec_digit_value(digits[i])->0)
    }
}

/// Read a string as a byte, and say why not as `str::parse::<u8>` does.
pub fn parse_u8(s: &str) -> (r: Result<u8, ParseU8Error>)
    ensures
        spec_parse_u8(s@) matches Some(v) ==> r == Ok::<u8, ParseU8Error>(v),
        spec_parse_u8(s@) is None ==> r == Err::<u8, ParseU8Error>(spec_parse_u8_error(s@)),
{
    match crate::text::parse_u8(s) {
        Some(v) => Ok(v),
        None => Err(parse_u8_error(s)),
    }
}

/// Why `str::parse::<u8>` refuses `s`.
fn parse_u8_error(s: &str) -> (e: ParseU8Error)
    ensures
        e == spec_parse_u8_error(s@),
{
    let n = s.unicode_len();
    if n == 0 {
        return ParseU8Error::Empty;
    }
    let start: usize = if s.get_char(0) == '+' {
        1
    } else {
        0
    };
    let ghost digits = if s@.len() > 0 && s@[0] == '+' {
        s@.subrange(1, s@.len() as int)
    } else {
        s@
    };
    assert(digits =~= s@.subrange(start as int, n as int));
    if start == n {
        return ParseU8Error::InvalidDigit;
    }
    let mut acc: u32 = 0;
    let mut i: usize = start;
    while i < n
        invariant
            n as int == s@.len(),
            start <= i <= n,
            start < n,
            digits == s@.subrange(start as int, n as int),
            digits == (if s@.len() > 0 && s@[0] == '+' {
                s@.subrange(1, s@.len() as int)
            } else {
                s@
            }),
            acc <= 255,
            spec_first_failure(digits, 0, 0) == spec_first_failure(
                digits,
                (i - start) as int,
                acc as int,
            ),
        decreases n - i,
    {
        let c = s.get_char(i);
        assert(digits[(i - start) as int] == c);
        let d = match digit_value(c) {
            None => {
                return ParseU8Error::InvalidDigit;
            },
            Some(d) => d,
        };
        if acc * 10 + d > 255 {
            return ParseU8Error::PosOverflow;
        }
        acc = acc * 10 + d;
        i = i + 1;
    }
    ParseU8Error::InvalidDigit
}

/// The device index of a 1-based input number.
pub open spec fn spec_input_index(number: u8) -> Option<u8> {
    if number >= 1 {
        Some((number - 1) as u8)
    } else {
        None
    }
}

/// The device index of input `number` (1-based); input 0 does not exist.
pub fn input_index(number: u8) -> (r: Result<u8, CommandError>)
    ensures
        number >= 1 ==> (r matches Ok(i) && i == number - 1),
        number == 0 ==> r matches Err(CommandError::InputRange { cause: None }),
{
    if number >= 1 {
        Ok(number - 1)
    } else {
        Err(CommandError::InputRange { cause: None })
    }
}

/// The words that mean "on" and "off".
pub open spec fn spec_on_off(s: Seq<char>) -> Option<bool> {
    if s == "on"@ || s == "ON"@ || s == "1"@ || s == "true"@ {
        Some(true)
    } else if s == "off"@ || s == "OFF"@ || s == "0"@ || s == "false"@ {
        Some(false)
    } else {
        None
    }
}

/// Read a switch state: on, ON, 1 or true; off, OFF, 0 or false.
pub fn parse_on_off(s: &str) -> (r: Result<bool, CommandError>)
    ensures
        spec_on_off(s@) matches Some(b) ==> (r matches Ok(x) && x == b),
        spec_on_off(s@) is None ==> (r matches Err(CommandError::ExpectedOnOff(got)) && got@
            == s@),
{
    if str_eq(s, "on") || str_eq(s, "ON") || str_eq(s, "1") || str_eq(s, "true") {
        Ok(true)
    } else if str_eq(s, "off") || str_eq(s, "OFF") || str_eq(s, "0") || str_eq(s, "false") {
        Ok(false)
    } else {
        Err(CommandError::ExpectedOnOff(String::from_str(s)))
    }
}

/// The text after the word "input" in a target that starts with it.
pub open spec fn spec_after_input(t: Seq<char>) -> Seq<char> {
    t.subrange(5, t.len() as int)
}

/// Whether a target starts with the word "input".
pub open spec fn spec_is_input_target(t: Seq<char>) -> bool {
    5 <= t.len() && t.subrange(0, 5) == "input"@
}

/// How an `input<N>` target reads: the number after the word, then its
/// device index.
pub open spec fn spec_input_target(t: Seq<char>) -> Result<MuteTarget, Option<ParseU8Error>> {
    match spec_parse_u8(spec_after_input(t)) {
        None => Err(Some(spec_parse_u8_error(spec_after_input(t)))),
        Some(n) => if n >= 1 {
            Ok(MuteTarget::Input { number: n, index: (n - 1) as u8 })
        } else {
            Err(None)
        },
    }
}

/// Read an `input<N>` target that starts with the word "input".
fn input_target(t: &str) -> (r: Result<MuteTarget, CommandError>)
    requires
        spec_is_input_target(t@),
    ensures
        spec_input_target(t@) matches Ok(m) ==> (r matches Ok(x) && x == m),
        spec_input_target(t@) matches Err(c) ==> (r matches Err(CommandError::InputRange { cause })
            && cause == c),
{
    let len = t.unicode_len();
    let rest = t.substring_char(5, len);
    match parse_u8(rest) {
        Err(e) => Err(CommandError::InputRange { cause: Some(e) }),
        Ok(n) => {
            if n >= 1 {
                Ok(MuteTarget::Input { number: n, index: n - 1 })
            } else {
                Err(CommandError::InputRange { cause: None })
            }
        },
    }
}

/// Read the target of `set mute`: `input<N>` for input N (1-based), or
/// `output`.
pub fn mute_target(t: &str) -> (r: Result<MuteTarget, CommandError>)
    ensures
        spec_is_input_target(t@) ==> (spec_input_target(t@) matches Ok(m) ==> (r matches Ok(x)
            && x == m)),
        spec_is_input_target(t@) ==> (spec_input_target(t@) matches Err(c) ==> (r matches Err(
            CommandError::InputRange { cause },
        ) && cause == c)),
        !spec_is_input_target(t@) && t@ == "output"@ ==> r matches Ok(MuteTarget::Output),
        !spec_is_input_target(t@) && t@ != "output"@ ==> r matches Err(CommandError::MuteTarget),
{
    proof {
        reveal_strlit("input");
        reveal_strlit("output");
    }
    if starts_with(t, "input") {
        input_target(t)
    } else if str_eq(t, "output") {
        Ok(MuteTarget::Output)
    } else {
        Err(CommandError::MuteTarget)
    }
}

/// How the input number of `get gain` or `get phantom` reads: the target
/// read as a byte, then its device index.
pub open spec fn spec_get_index(target: Option<Seq<char>>) -> Option<u8> {
    match target {
        None => None,
        Some(t) => match spec_parse_u8(t) {
            None => None,
            Some(n) => spec_input_index(n),
        },
    }
}

fn get_index(target: Option<&str>) -> (r: Option<u8>)
    ensures
        r == spec_get_index(
            match target {
                Some(t) => Some(t@),
                None => None,
            },
        ),
{
    match target {
        None => None,
        Some(t) => match crate::text::parse_u8(t) {
            None => None,
            Some(n) => if n >= 1 {
                Some(n - 1)
            } else {
                None
            },
        },
    }
}

/// The number of inputs a status snapshot holds.
pub const SNAPSHOT_INPUTS: u8 = 4;

/// Read the arguments of `get`: `volume`; `gain <N>` or `phantom <N>` for
/// input N; `mute input<N>` or `mute output`. An input number past the
/// four inputs is refused as out of range.
pub fn get_query(control: &str, target: Option<&str>) -> (r: Result<GetQuery, CommandError>)
    ensures
        control@ == "volume"@ ==> r matches Ok(GetQuery::Volume),
        control@ == "gain"@ ==> (match spec_get_index(
            match target {
                Some(t) => Some(t@),
                None => None,
            },
        ) {
            Some(i) => if i < SNAPSHOT_INPUTS {
                r matches Ok(GetQuery::Gain(x)) && x == i
            } else {
                r matches Err(CommandError::InputRange { cause: None })
            },
            None => r matches Err(CommandError::GetGainUsage),
        }),
        control@ == "phantom"@ ==> (match spec_get_index(
            match target {
                Some(t) => Some(t@),
                None => None,
            },
        ) {
            Some(i) => if i < SNAPSHOT_INPUTS {
                r matches Ok(GetQuery::Phantom(x)) && x == i
            } else {
                r matches Err(CommandError::InputRange { cause: None })
            },
            None => r matches Err(CommandError::GetPhantomUsage),
        }),
        control@ == "mute"@ ==> ({
            let t = match target {
                Some(t) => t@,
                None => Seq::<char>::empty(),
            };
            if spec_is_input_target(t) {
                match spec_input_target(t) {
                    Ok(m) => if m matches MuteTarget::Input { index, .. } && index
                        < SNAPSHOT_INPUTS {
                        r matches Ok(GetQuery::InputMute(x)) && m matches MuteTarget::Input {
                            index,
                            ..
                        } && x == index
                    } else {
                        r matches Err(CommandError::InputRange { cause: None })
                    },
                    Err(c) => r matches Err(CommandError::InputRange { cause }) && cause == c,
                }
            } else if t == "output"@ {
                r matches Ok(GetQuery::OutputMute)
            } else {
                r matches Err(CommandError::GetMuteUsage)
            }
        }),
        control@ != "volume"@ && control@ != "gain"@ && control@ != "phantom"@ && control@
            != "mute"@ ==> (r matches Err(CommandError::UnknownControl(c)) && c@ == control@),
{
    proof {
        reveal_strlit("volume");
        reveal_strlit("gain");
        reveal_strlit("phantom");
        reveal_strlit("mute");
        reveal_strlit("output");
        reveal_strlit("input");
        reveal_strlit("");
        assert("volume"@.len() == 6 && "gain"@.len() == 4 && "phantom"@.len() == 7);
        assert("mute"@.len() == 4 && "gain"@[0] == 'g' && "mute"@[0] == 'm');
    }
    if str_eq(control, "volume") {
        Ok(GetQuery::Volume)
    } else if str_eq(control, "gain") {
        match get_index(target) {
            Some(i) => if i < SNAPSHOT_INPUTS {
                Ok(GetQuery::Gain(i))
            } else {
                Err(CommandError::InputRange { cause: None })
            },
            None => Err(CommandError::GetGainUsage),
        }
    } else if str_eq(control, "phantom") {
        match get_index(target) {
            Some(i) => if i < SNAPSHOT_INPUTS {
                Ok(GetQuery::Phantom(i))
            } else {
                Err(CommandError::InputRange { cause: None })
            },
            None => Err(CommandError::GetPhantomUsage),
        }
    } else if str_eq(control, "mute") {
        let t: &str = match target {
            Some(t) => t,
            None => "",
        };
        if starts_with(t, "input") {
            match input_target(t) {
                Ok(MuteTarget::Input { index, .. }) => if index < SNAPSHOT_INPUTS {
                    Ok(GetQuery::InputMute(index))
                } else {
                    Err(CommandError::InputRange { cause: None })
                },
                Ok(MuteTarget::Output) => Ok(GetQuery::OutputMute),
                Err(e) => Err(e),
            }
        } else if str_eq(t, "output") {
            Ok(GetQuery::OutputMute)
        } else {
            Err(CommandError::GetMuteUsage)
        }
    } else {
        Err(CommandError::UnknownControl(String::from_str(control)))
    }
}

impl ParseU8Error {
    /// The text `ParseIntError` shows for this kind of failure.
    pub open spec fn spec_message(&self) -> Seq<char> {
        match self {
            ParseU8Error::Empty => "cannot parse integer from empty string"@,
            ParseU8Error::InvalidDigit => "invalid digit found in string"@,
            ParseU8Error::PosOverflow => "number too large to fit in target type"@,
        }
    }

    pub fn message(&self) -> (s: String)
        ensures
            s@ == self.spec_message(),
    {
        match self {
            ParseU8Error::Empty => String::from_str("cannot parse integer from empty string"),
            ParseU8Error::InvalidDigit => String::from_str("invalid digit found in string"),
            ParseU8Error::PosOverflow => String::from_str("number too large to fit in target type"),
        }
    }
}

impl CommandError {
    /// The message of a refusal (its cause, if any, is reported under it).
    pub open spec fn spec_message(&self) -> Seq<char> {
        match self {
            CommandError::InputRange { .. } => "input must be 1\u{2013}4"@,
            CommandError::MuteTarget => "target must be 'input<N>' or 'output'"@,
            CommandError::GetGainUsage => "usage: evo-control get gain <INPUT>"@,
            CommandError::GetPhantomUsage => "usage: evo-control get phantom <INPUT>"@,
            CommandError::GetMuteUsage => "usage: evo-control get mute <inputN|output>"@,
            CommandError::UnknownControl(c) => "unknown control '"@ + c@
                + "'; try: volume, gain, phantom, mute"@,
            CommandError::ExpectedOnOff(got) => "expected 'on' or 'off', got '"@ + got@ + "'"@,
        }
    }

    pub fn message(&self) -> (s: String)
        ensures
            s@ == self.spec_message(),
    {
        match self {
            CommandError::InputRange { .. } => String::from_str("input must be 1\u{2013}4"),
            CommandError::MuteTarget => String::from_str("target must be 'input<N>' or 'output'"),
            CommandError::GetGainUsage => String::from_str("usage: evo-control get gain <INPUT>"),
            CommandError::GetPhantomUsage => String::from_str(
                "usage: evo-control get phantom <INPUT>",
            ),
            CommandError::GetMuteUsage => String::from_str(
                "usage: evo-control get mute <inputN|output>",
            ),
            CommandError::UnknownControl(c) => {
                let mut s = String::from_str("unknown control '");
                s.append(c.as_str());
                s.append("'; try: volume, gain, phantom, mute");
                s
            },
            CommandError::ExpectedOnOff(got) => {
                let mut s = String::from_str("expected 'on' or 'off', got '");
                s.append(got.as_str());
                s.append("'");
                s
            },
        }
    }
}

/// ON or OFF.
pub open spec fn spec_on_off_word(on: bool) -> Seq<char> {
    if on {
        "ON"@
    } else {
        "OFF"@
    }
}

/// muted or unmuted.
pub open spec fn spec_muted_word(muted: bool) -> Seq<char> {
    if muted {
        "muted"@
    } else {
        "unmuted"@
    }
}

fn on_off_word(on: bool) -> (s: &'static str)
    ensures
        s@ == spec_on_off_word(on),
{
    if on {
        "ON"
    } else {
        "OFF"
    }
}

fn muted_word(muted: bool) -> (s: &'static str)
    ensures
        s@ == spec_muted_word(muted),
{
    if muted {
        "muted"
    } else {
        "unmuted"
    }
}

/// A level followed by " dB".
pub open spec fn spec_db_text(raw: i16) -> Seq<char> {
    spec_db1(raw) + " dB"@
}

fn db_text(raw: i16) -> (s: String)
    ensures
        s@ == spec_db_text(raw),
{
    let mut s = format_db1(raw);
    s.append(" dB");
    s
}

/// The answer to `get`: a level in dB, ON/OFF for phantom power,
/// muted/unmuted for a mute.
pub open spec fn spec_answer(q: GetQuery, status: DeviceStatus) -> Seq<char> {
    match q {
        GetQuery::Volume => spec_db_text(status.volume_q88@[0]),
        GetQuery::Gain(i) => spec_db_text(status.gain_q88@[i as int]),
        GetQuery::Phantom(i) => spec_on_off_word(status.phantom@[i as int]),
        GetQuery::InputMute(i) => spec_muted_word(status.input_mute@[i as int]),
        GetQuery::OutputMute => spec_muted_word(status.output_mute),
    }
}

/// Whether a query names an input that a status snapshot holds.
pub open spec fn spec_query_in_range(q: GetQuery) -> bool {
    match q {
        GetQuery::Gain(i) => i < SNAPSHOT_INPUTS,
        GetQuery::Phantom(i) => i < SNAPSHOT_INPUTS,
        GetQuery::InputMute(i) => i < SNAPSHOT_INPUTS,
        _ => true,
    }
}

/// Answer `get` from a status snapshot; a query for an input the snapshot
/// does not hold is refused as out of range.
pub fn answer(q: GetQuery, status: &DeviceStatus) -> (r: Result<String, CommandError>)
    ensures
        spec_query_in_range(q) ==> (r matches Ok(s) && s@ == spec_answer(q, *status)),
        !spec_query_in_range(q) ==> r matches Err(CommandError::InputRange { cause: None }),
{
    match q {
        GetQuery::Volume => Ok(db_text(status.volume_q88[0])),
        GetQuery::Gain(i) => if i < SNAPSHOT_INPUTS {
            Ok(db_text(status.gain_q88[i as usize]))
        } else {
            Err(CommandError::InputRange { cause: None })
        },
        GetQuery::Phantom(i) => if i < SNAPSHOT_INPUTS {
            Ok(String::from_str(on_off_word(status.phantom[i as usize])))
        } else {
            Err(CommandError::InputRange { cause: None })
        },
        GetQuery::InputMute(i) => if i < SNAPSHOT_INPUTS {
            Ok(String::from_str(muted_word(status.input_mute[i as usize])))
        } else {
            Err(CommandError::InputRange { cause: None })
        },
        GetQuery::OutputMute => Ok(String::from_str(muted_word(status.output_mute))),
    }
}

/// The report line of input `i` (0-based).
pub open spec fn spec_input_line(status: DeviceStatus, i: int) -> Seq<char> {
    "  Input "@ + spec_decimal((i + 1) as nat) + ": gain "@ + spec_db_text(status.gain_q88@[i])
        + "  phantom "@ + (if status.phantom@[i] {
        "ON "@
    } else {
        "OFF"@
    }) + "  "@ + spec_muted_word(status.input_mute@[i]) + "\n"@
}

/// The report lines of the first `n` inputs.
pub open spec fn spec_input_lines(status: DeviceStatus, n: int) -> Seq<char>
    decreases n,
{
    if n <= 0 {
        Seq::empty()
    } else {
        spec_input_lines(status, n - 1) + spec_input_line(status, n - 1)
    }
}

/// The status report: a title, a rule, the volume of the main and
/// headphone outputs, the output mute, and a line per input.
pub open spec fn spec_status_report(status: DeviceStatus) -> Seq<char> {
    "EVO 8 status\n"@ + Seq::new(12, |i: int| '\u{2500}') + "\n"@ + "  Main: "@ + spec_db_text(
        status.volume_q88@[0],
    ) + "\n"@ + "  Headphones: "@ + spec_db_text(status.volume_q88@[1]) + "\n"@
        + "  Output mute: "@ + spec_muted_word(status.output_mute) + "\n"@ + spec_input_lines(
        status,
        4,
    )
}

fn input_line(status: &DeviceStatus, i: usize) -> (s: String)
    requires
        i < 4,
    ensures
        s@ == spec_input_line(*status, i as int),
{
    let mut s = String::from_str("  Input ");
    let n = decimal((i + 1) as u64);
    s.append(n.as_str());
    s.append(": gain ");
    let t = db_text(status.gain_q88[i]);
    s.append(t.as_str());
    s.append("  phantom ");
    if status.phantom[i] {
        s.append("ON ");
    } else {
        s.append("OFF");
    }
    s.append("  ");
    s.append(muted_word(status.input_mute[i]));
    s.append("\n");
    s
}

/// Write the status report of a snapshot.
pub fn status_report(status: &DeviceStatus) -> (s: String)
    ensures
        s@ == spec_status_report(*status),
{
    let mut s = String::from_str("EVO 8 status\n");
    let mut k: usize = 0;
    while k < 12
        invariant
            k <= 12,
            s@ == "EVO 8 status\n"@ + Seq::new(k as nat, |i: int| '\u{2500}'),
        decreases 12 - k,
    {
        proof { reveal_strlit("\u{2500}"); }
        s.append("\u{2500}");
        k = k + 1;
        assert(Seq::new(k as nat, |i: int| '\u{2500}') =~= Seq::new((k - 1) as nat, |i: int| '\u{2500}') + "\u{2500}"@);
    }
    s.append("\n");
    s.append("  Main: ");
    let t = db_text(status.volume_q88[0]);
    s.append(t.as_str());
    s.append("\n");
    s.append("  Headphones: ");
    let t = db_text(status.volume_q88[1]);
    s.append(t.as_str());
    s.append("\n");
    s.append("  Output mute: ");
    s.append(muted_word(status.output_mute));
    s.append("\n");
    let ghost head = s@;
    assert(head =~= "EVO 8 status\n"@ + Seq::new(12, |i: int| '\u{2500}') + "\n"@ + "  Main: "@
        + spec_db_text(status.volume_q88@[0]) + "\n"@ + "  Headphones: "@ + spec_db_text(
        status.volume_q88@[1],
    ) + "\n"@ + "  Output mute: "@ + spec_muted_word(status.output_mute) + "\n"@);
    let mut i: usize = 0;
    while i < 4
        invariant
            i <= 4,
            s@ == head + spec_input_lines(*status, i as int),
        decreases 4 - i,
    {
        let line = input_line(status, i);
        s.append(line.as_str());
        i = i + 1;
        assert(s@ =~= head + spec_input_lines(*status, i as int));
    }
    s
}

/// The confirmation of `set volume`: of the named pair, or of both pairs.
pub open spec fn spec_volume_message(pair: Option<u8>, level: i16) -> Seq<char> {
    match pair {
        Some(p) => "pair "@ + spec_decimal(p as nat) + " volume set to "@ + spec_db_text(level),
        None => "volume set to "@ + spec_db_text(level) + " (both pairs)"@,
    }
}

pub fn volume_message(pair: Option<u8>, level: i16) -> (s: String)
    ensures
        s@ == spec_volume_message(pair, level),
{
    match pair {
        Some(p) => {
            let mut s = String::from_str("pair ");
            let n = decimal(p as u64);
            s.append(n.as_str());
            s.append(" volume set to ");
            let t = db_text(level);
            s.append(t.as_str());
            s
        },
        None => {
            let mut s = String::from_str("volume set to ");
            let t = db_text(level);
            s.append(t.as_str());
            s.append(" (both pairs)");
            s
        },
    }
}

/// The confirmation of `set gain` for input `number` (1-based).
pub fn gain_message(number: u8, level: i16) -> (s: String)
    ensures
        s@ == "input "@ + spec_decimal(number as nat) + " gain set to "@ + spec_db_text(level),
{
    let mut s = String::from_str("input ");
    let n = decimal(number as u64);
    s.append(n.as_str());
    s.append(" gain set to ");
    let t = db_text(level);
    s.append(t.as_str());
    s
}

/// The confirmation of `set phantom` for input `number` (1-based).
pub fn phantom_message(number: u8, on: bool) -> (s: String)
    ensures
        s@ == "input "@ + spec_decimal(number as nat) + " phantom "@ + spec_on_off_word(on),
{
    let mut s = String::from_str("input ");
    let n = decimal(number as u64);
    s.append(n.as_str());
    s.append(" phantom ");
    s.append(on_off_word(on));
    s
}

/// The confirmation of `set mute`.
pub fn mute_message(target: MuteTarget, muted: bool) -> (s: String)
    ensures
        target matches MuteTarget::Input { number, .. } ==> s@ == "input "@ + spec_decimal(
            number as nat,
        ) + " "@ + spec_muted_word(muted),
        target is Output ==> s@ == "output "@ + spec_muted_word(muted),
{
    match target {
        MuteTarget::Input { number, .. } => {
            let mut s = String::from_str("input ");
            let n = decimal(number as u64);
            s.append(n.as_str());
            s.append(" ");
            s.append(muted_word(muted));
            s
        },
        MuteTarget::Output => {
            let mut s = String::from_str("output ");
            s.append(muted_word(muted));
            s
        },
    }
}

/// The row label of a mixer input: the four mic/line inputs, the four DAW
/// streams, then the loopback streams.
pub open spec fn spec_mixer_label(in_idx: u8) -> Seq<char> {
    if in_idx < 4 {
        "in"@ + spec_decimal((in_idx + 1) as nat) + "  "@
    } else if in_idx < 8 {
        "DAW"@ + spec_decimal((in_idx - 3) as nat)
    } else {
        "LOOP"@ + spec_decimal((in_idx - 7) as nat)
    }
}

pub fn mixer_label(in_idx: u8) -> (s: String)
    ensures
        s@ == spec_mixer_label(in_idx),
{
    if in_idx < 4 {
        let mut s = String::from_str("in");
        let n = decimal((in_idx + 1) as u64);
        s.append(n.as_str());
        s.append("  ");
        s
    } else if in_idx < 8 {
        let mut s = String::from_str("DAW");
        let n = decimal((in_idx - 3) as u64);
        s.append(n.as_str());
        s
    } else {
        let mut s = String::from_str("LOOP");
        let n = decimal((in_idx - 7) as u64);
        s.append(n.as_str());
        s
    }
}

/// A cross-point of the mixer table: a dash for silence (-128 dB), else the
/// level with one decimal, right-aligned to five characters.
pub open spec fn spec_mixer_cell(level: i16) -> Seq<char> {
    if level <= SILENCE_Q88 {
        "  \u{2014}      "@
    } else {
        "  "@ + spec_pad_left(spec_db1(level), 5) + "  "@
    }
}

fn mixer_cell(level: i16) -> (s: String)
    ensures
        s@ == spec_mixer_cell(level),
{
    if level <= SILENCE_Q88 {
        String::from_str("  \u{2014}      ")
    } else {
        let mut s = String::from_str("  ");
        let v = pad_left(format_db1(level).as_str(), 5);
        s.append(v.as_str());
        s.append("  ");
        s
    }
}

/// The cells of one input's row, output by output.
pub open spec fn spec_mixer_cells(row: [i16; MIXER_OUTPUTS]) -> Seq<Seq<char>> {
    Seq::new(MIXER_OUTPUTS as nat, |o: int| spec_mixer_cell(row@[o]))
}

/// The row of input `i`: its label, then its cells.
pub open spec fn spec_mixer_row(row: [i16; MIXER_OUTPUTS], i: int) -> Seq<char> {
    "  "@ + spec_mixer_label(i as u8) + "  "@ + spec_mixer_cells(row).flatten() + "\n"@
}

/// The rows of the mixer table, input by input.
pub open spec fn spec_mixer_rows(m: [[i16; MIXER_OUTPUTS]; MIXER_INPUTS]) -> Seq<Seq<char>> {
    Seq::new(MIXER_INPUTS as nat, |i: int| spec_mixer_row(m@[i], i))
}

/// The head of the mixer table: its title, the unit, a blank line, the
/// output header and a rule.
pub open spec fn spec_mixer_head() -> Seq<char> {
    "Mixer matrix (10 inputs \u{00d7} 4 outputs)\nValues in dB, -128 = silence\n\n"@
        + "         out    0   out    1   out    2   out    3 \n"@ + "  "@ + Seq::new(
        50,
        |k: int| '\u{2500}',
    ) + "\n"@
}

/// The mixer table of a saved state: the head, then one row per input.
pub open spec fn spec_mixer_table(m: [[i16; MIXER_OUTPUTS]; MIXER_INPUTS]) -> Seq<char> {
    spec_mixer_head() + spec_mixer_rows(m).flatten()
}

fn mixer_head() -> (s: String)
    ensures
        s@ == spec_mixer_head(),
{
    let title = "Mixer matrix (10 inputs \u{00d7} 4 outputs)\nValues in dB, -128 = silence\n\n";
    let header = "         out    0   out    1   out    2   out    3 \n";
    let rule = "  \u{2500}\u{2500}\u{2500}\u{2500}\u{2500}\u{2500}\u{2500}\u{2500}\u{2500}\u{2500}\u{2500}\u{2500}\u{2500}\u{2500}\u{2500}\u{2500}\u{2500}\u{2500}\u{2500}\u{2500}\u{2500}\u{2500}\u{2500}\u{2500}\u{2500}\u{2500}\u{2500}\u{2500}\u{2500}\u{2500}\u{2500}\u{2500}\u{2500}\u{2500}\u{2500}\u{2500}\u{2500}\u{2500}\u{2500}\u{2500}\u{2500}\u{2500}\u{2500}\u{2500}\u{2500}\u{2500}\u{2500}\u{2500}\u{2500}\u{2500}\n";
    proof {
        reveal_strlit("  \u{2500}\u{2500}\u{2500}\u{2500}\u{2500}\u{2500}\u{2500}\u{2500}\u{2500}\u{2500}\u{2500}\u{2500}\u{2500}\u{2500}\u{2500}\u{2500}\u{2500}\u{2500}\u{2500}\u{2500}\u{2500}\u{2500}\u{2500}\u{2500}\u{2500}\u{2500}\u{2500}\u{2500}\u{2500}\u{2500}\u{2500}\u{2500}\u{2500}\u{2500}\u{2500}\u{2500}\u{2500}\u{2500}\u{2500}\u{2500}\u{2500}\u{2500}\u{2500}\u{2500}\u{2500}\u{2500}\u{2500}\u{2500}\u{2500}\u{2500}\n");
        reveal_strlit("  ");
        reveal_strlit("\n");
        assert(rule@ =~= "  "@ + Seq::new(50, |k: int| '\u{2500}') + "\n"@);
    }
    let mut s = String::from_str(title);
    s.append(header);
    s.append(rule);
    assert(s@ =~= spec_mixer_head());
    s
}

/// The 10 x 4 mixer table of a saved state, as `mixer get` prints it.
pub fn mixer_table(state: &DeviceState) -> (s: String)
    ensures
        s@ == spec_mixer_table(state.mixer_q88),
{
    let ghost rows = spec_mixer_rows(state.mixer_q88);
    let mut s = mixer_head();
    assert(rows.take(0).flatten() =~= Seq::<char>::empty());
    assert(s@ =~= spec_mixer_head() + rows.take(0).flatten());
    let mut i: usize = 0;
    while i < MIXER_INPUTS
        invariant
            i <= MIXER_INPUTS,
            rows == spec_mixer_rows(state.mixer_q88),
            s@ == spec_mixer_head() + rows.take(i as int).flatten(),
        decreases MIXER_INPUTS - i,
    {
        let row = state.mixer_q88[i];
        let ghost cells = spec_mixer_cells(row);
        let mut line = String::from_str("  ");
        let label = mixer_label(i as u8);
        line.append(label.as_str());
        line.append("  ");
        let ghost start = line@;
        assert(cells.take(0).flatten() =~= Seq::<char>::empty());
        assert(line@ =~= start + cells.take(0).flatten());
        let mut o: usize = 0;
        while o < MIXER_OUTPUTS
            invariant
                o <= MIXER_OUTPUTS,
                cells == spec_mixer_cells(row),
                line@ == start + cells.take(o as int).flatten(),
            decreases MIXER_OUTPUTS - o,
        {
            let c = mixer_cell(row[o]);
            proof {
                assert(cells.take(o + 1) =~= cells.take(o as int).push(cells[o as int]));
                cells.take(o as int).lemma_flatten_push(cells[o as int]);
            }
            line.append(c.as_str());
            o = o + 1;
        }
        line.append("\n");
        proof {
            reveal_strlit("\n");
            assert(cells.take(4) =~= cells);
            assert(line@ =~= spec_mixer_row(row, i as int));
            assert(rows[i as int] == spec_mixer_row(row, i as int));
            assert(rows.take(i + 1) =~= rows.take(i as int).push(rows[i as int]));
            rows.take(i as int).lemma_flatten_push(rows[i as int]);
        }
        s.append(line.as_str());
        assert(s@ =~= spec_mixer_head() + rows.take(i + 1).flatten());
        i = i + 1;
    }
    assert(rows.take(10) =~= rows);
    s
}

/// What `mixer get` shows after a mixer write was recorded: the cross-point
/// that was written shows the level sent, and every other cross-point shows
/// what it showed before.
pub proof fn lemma_recorded_level_shows(
    old: DeviceState,
    new: DeviceState,
    in_idx: int,
    out_idx: int,
    sent: i16,
)
    requires
        0 <= in_idx < MIXER_INPUTS,
        0 <= out_idx < MIXER_OUTPUTS,
        spec_mixer_recorded(old, new, in_idx, out_idx, sent),
    ensures
        spec_mixer_cells(new.mixer_q88@[in_idx])[out_idx] == spec_mixer_cell(sent),
        spec_mixer_cells(new.mixer_q88@[in_idx]) == spec_mixer_cells(old.mixer_q88@[in_idx]).update(
            out_idx,
            spec_mixer_cell(sent),
        ),
        spec_mixer_rows(new.mixer_q88) == spec_mixer_rows(old.mixer_q88).update(
            in_idx,
            spec_mixer_row(new.mixer_q88@[in_idx], in_idx),
        ),
        spec_mixer_table(new.mixer_q88) == spec_mixer_head() + spec_mixer_rows(
            old.mixer_q88,
        ).update(in_idx, spec_mixer_row(new.mixer_q88@[in_idx], in_idx)).flatten(),
{
    assert(spec_mixer_cells(new.mixer_q88@[in_idx]) =~= spec_mixer_cells(
        old.mixer_q88@[in_idx],
    ).update(out_idx, spec_mixer_cell(sent)));
    assert(spec_mixer_rows(new.mixer_q88) =~= spec_mixer_rows(old.mixer_q88).update(
        in_idx,
        spec_mixer_row(new.mixer_q88@[in_idx], in_idx),
    ));
}

} // verus!
