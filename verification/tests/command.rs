use evo_control::command::{
    answer, gain_message, get_query, input_index, mixer_label, mute_message, mute_target,
    parse_on_off, parse_u8, phantom_message, status_report, volume_message, CommandError,
    GetQuery, MuteTarget, ParseU8Error,
};
use evo_control::status::DeviceStatus;
use std::num::IntErrorKind;

#[test]
fn on_off_words() {
    for w in ["on", "ON", "1", "true"] {
        assert!(parse_on_off(w).unwrap());
    }
    for w in ["off", "OFF", "0", "false"] {
        assert!(!parse_on_off(w).unwrap());
    }
    let err = parse_on_off("maybe").unwrap_err();
    assert!(matches!(&err, CommandError::ExpectedOnOff(s) if s == "maybe"));
    assert_eq!(err.message(), "expected 'on' or 'off', got 'maybe'");
    assert!(parse_on_off("On").is_err());
    assert!(parse_on_off("").is_err());
}

#[test]
fn parse_u8_agrees_with_std() {
    let mut cases: Vec<String> = vec![
        "", "+", "-", "-0", "+0", "0", "00", "007", "255", "256", "+255", "999x", "25x", "x", "1 ",
        " 1", "１", "++1", "1000", "0255", "٣",
    ]
    .into_iter()
    .map(String::from)
    .collect();
    for n in 0..400 {
        cases.push(n.to_string());
    }
    for s in &cases {
        let ours = parse_u8(s);
        match s.parse::<u8>() {
            Ok(v) => assert_eq!(ours, Ok(v), "{s:?}"),
            Err(e) => {
                let kind = match e.kind() {
                    IntErrorKind::Empty => ParseU8Error::Empty,
                    IntErrorKind::InvalidDigit => ParseU8Error::InvalidDigit,
                    IntErrorKind::PosOverflow => ParseU8Error::PosOverflow,
                    other => panic!("unexpected kind {other:?}"),
                };
                assert_eq!(ours, Err(kind), "{s:?}");
                assert_eq!(kind.message(), e.to_string());
            }
        }
    }
}

#[test]
fn input_numbers() {
    assert_eq!(input_index(1).unwrap(), 0);
    assert_eq!(input_index(4).unwrap(), 3);
    assert_eq!(input_index(9).unwrap(), 8);
    let err = input_index(0).unwrap_err();
    assert!(matches!(err, CommandError::InputRange { cause: None }));
    assert_eq!(err.message(), "input must be 1–4");
}

#[test]
fn mute_targets() {
    assert_eq!(mute_target("input2").unwrap(), MuteTarget::Input { number: 2, index: 1 });
    assert_eq!(mute_target("input+3").unwrap(), MuteTarget::Input { number: 3, index: 2 });
    assert_eq!(mute_target("output").unwrap(), MuteTarget::Output);
    assert!(matches!(mute_target("input0"), Err(CommandError::InputRange { cause: None })));
    assert!(matches!(
        mute_target("inputx"),
        Err(CommandError::InputRange { cause: Some(ParseU8Error::InvalidDigit) })
    ));
    assert!(matches!(
        mute_target("input"),
        Err(CommandError::InputRange { cause: Some(ParseU8Error::Empty) })
    ));
    assert!(matches!(
        mute_target("input300"),
        Err(CommandError::InputRange { cause: Some(ParseU8Error::PosOverflow) })
    ));
    let err = mute_target("speaker").unwrap_err();
    assert!(matches!(err, CommandError::MuteTarget));
    assert_eq!(err.message(), "target must be 'input<N>' or 'output'");
    assert!(matches!(mute_target("outputs"), Err(CommandError::MuteTarget)));
}

#[test]
fn get_queries() {
    assert_eq!(get_query("volume", None).unwrap(), GetQuery::Volume);
    assert_eq!(get_query("volume", Some("junk")).unwrap(), GetQuery::Volume);
    assert_eq!(get_query("gain", Some("2")).unwrap(), GetQuery::Gain(1));
    assert_eq!(get_query("phantom", Some("4")).unwrap(), GetQuery::Phantom(3));
    assert_eq!(get_query("mute", Some("input1")).unwrap(), GetQuery::InputMute(0));
    assert_eq!(get_query("mute", Some("output")).unwrap(), GetQuery::OutputMute);
    let e = get_query("gain", None).unwrap_err();
    assert_eq!(e.message(), "usage: evo-control get gain <INPUT>");
    let e = get_query("gain", Some("0")).unwrap_err();
    assert!(matches!(e, CommandError::GetGainUsage));
    let e = get_query("phantom", Some("x")).unwrap_err();
    assert_eq!(e.message(), "usage: evo-control get phantom <INPUT>");
    let e = get_query("mute", None).unwrap_err();
    assert_eq!(e.message(), "usage: evo-control get mute <inputN|output>");
    assert!(matches!(
        get_query("mute", Some("input")),
        Err(CommandError::InputRange { cause: Some(ParseU8Error::Empty) })
    ));
    for (control, target) in [("gain", "5"), ("phantom", "5"), ("gain", "255"), ("mute", "input5")] {
        let e = get_query(control, Some(target)).unwrap_err();
        assert!(matches!(e, CommandError::InputRange { cause: None }));
        assert_eq!(e.message(), "input must be 1\u{2013}4");
    }
    let e = get_query("bass", None).unwrap_err();
    assert_eq!(e.message(), "unknown control 'bass'; try: volume, gain, phantom, mute");
}

fn sample_status() -> DeviceStatus {
    DeviceStatus {
        volume_q88: [-5120, -2560],
        gain_q88: [0, 20 * 256, -8 * 256, 50 * 256],
        phantom: [true, false, false, true],
        input_mute: [false, true, false, false],
        output_mute: true,
    }
}

#[test]
fn answers() {
    let s = sample_status();
    assert_eq!(answer(GetQuery::Volume, &s).unwrap(), "-20.0 dB");
    assert_eq!(answer(GetQuery::Gain(1), &s).unwrap(), "20.0 dB");
    assert_eq!(answer(GetQuery::Phantom(0), &s).unwrap(), "ON");
    assert_eq!(answer(GetQuery::Phantom(1), &s).unwrap(), "OFF");
    assert_eq!(answer(GetQuery::InputMute(1), &s).unwrap(), "muted");
    assert_eq!(answer(GetQuery::InputMute(2), &s).unwrap(), "unmuted");
    assert_eq!(answer(GetQuery::OutputMute, &s).unwrap(), "muted");
    for q in [GetQuery::Gain(4), GetQuery::Phantom(9), GetQuery::InputMute(255)] {
        assert!(matches!(answer(q, &s), Err(CommandError::InputRange { cause: None })));
    }
}

#[test]
fn report_text() {
    let s = sample_status();
    let expected = "EVO 8 status\n\
                    ────────────\n  \
                    Main: -20.0 dB\n  \
                    Headphones: -10.0 dB\n  \
                    Output mute: muted\n  \
                    Input 1: gain 0.0 dB  phantom ON   unmuted\n  \
                    Input 2: gain 20.0 dB  phantom OFF  muted\n  \
                    Input 3: gain -8.0 dB  phantom OFF  unmuted\n  \
                    Input 4: gain 50.0 dB  phantom ON   unmuted\n";
    assert_eq!(status_report(&s), expected);
}

#[test]
fn confirmations() {
    assert_eq!(volume_message(Some(1), -5120), "pair 1 volume set to -20.0 dB");
    assert_eq!(volume_message(None, 0), "volume set to 0.0 dB (both pairs)");
    assert_eq!(gain_message(3, 21 * 256), "input 3 gain set to 21.0 dB");
    assert_eq!(phantom_message(2, true), "input 2 phantom ON");
    assert_eq!(phantom_message(2, false), "input 2 phantom OFF");
    assert_eq!(mute_message(MuteTarget::Input { number: 4, index: 3 }, true), "input 4 muted");
    assert_eq!(mute_message(MuteTarget::Output, false), "output unmuted");
}

#[test]
fn mixer_labels() {
    let labels: Vec<String> = (0..10).map(mixer_label).collect();
    assert_eq!(
        labels,
        vec!["in1  ", "in2  ", "in3  ", "in4  ", "DAW1", "DAW2", "DAW3", "DAW4", "LOOP1", "LOOP2"]
    );
}
