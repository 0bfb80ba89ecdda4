use evo_control::codec::level_from_le;
use evo_control::driver::{Driver, ReadSlot};
use evo_control::error::DriverError;
use evo_control::status::DeviceStatus;
use evo_control::transfer::{set_outcome, EvoCtrlXfer};

fn padded(payload: &[u8]) -> [u8; 256] {
    let mut data = [0u8; 256];
    data[..payload.len()].copy_from_slice(payload);
    data
}

#[test]
fn get_and_set_requests() {
    let x = EvoCtrlXfer::get_request(0x0201, 0x0A00, 2);
    assert_eq!((x.b_request_type, x.b_request, x.w_value, x.w_index, x.w_length), (0xA1, 1, 0x0201, 0x0A00, 2));
    assert_eq!(x.data, [0u8; 256]);
    let y = EvoCtrlXfer::set_request(0x0000, 0x3A00, &[1, 0, 0, 0]);
    assert_eq!((y.b_request_type, y.b_request, y.w_value, y.w_index, y.w_length), (0x21, 1, 0, 0x3A00, 4));
    assert_eq!(y.data, padded(&[1, 0, 0, 0]));
}

#[test]
fn transfer_outcomes() {
    let mut x = EvoCtrlXfer::get_request(0x0201, 0x0A00, 2);
    x.data[0] = 0x00;
    x.data[1] = 0xEC;
    x.data[2] = 0x55;
    assert_eq!(x.get_outcome(2, 0).unwrap(), vec![0x00, 0xEC]);
    assert_eq!(x.get_outcome(1, 0).unwrap(), vec![0x00]);
    assert_eq!(x.get_outcome(9, 0).unwrap(), vec![0x00, 0xEC]);
    assert!(x.get_outcome(0, 0).unwrap().is_empty());
    assert!(matches!(x.get_outcome(-1, 19), Err(DriverError::Disconnected)));
    assert!(matches!(x.get_outcome(-1, 32), Err(DriverError::Transfer(32))));
    let mut big = EvoCtrlXfer::get_request(0, 0, 1000);
    big.data[255] = 7;
    let all = big.get_outcome(600, 0).unwrap();
    assert_eq!(all.len(), 256);
    assert_eq!(all[255], 7);
    assert!(set_outcome(4, 0).is_ok());
    assert!(matches!(set_outcome(-1, 19), Err(DriverError::Disconnected)));
    assert!(matches!(set_outcome(-5, 71), Err(DriverError::Transfer(71))));
}

#[test]
fn volume_set_writes_both_channels() {
    let d = Driver::new();
    let (xfers, level) = d.volume_set_xfers(1, -5120).unwrap();
    assert_eq!(level, -5120);
    assert_eq!(xfers.len(), 2);
    assert_eq!(xfers[0].w_value, 0x0203);
    assert_eq!(xfers[1].w_value, 0x0204);
    for x in &xfers {
        assert_eq!(x.w_index, 0x0A00);
        assert_eq!(x.b_request_type, 0x21);
        assert_eq!(x.w_length, 2);
        assert_eq!(x.data, padded(&[0x00, 0xEC]));
    }
    let (_, clamped) = d.volume_set_xfers(0, 10 * 256).unwrap();
    assert_eq!(clamped, 0);
    let (_, floor) = d.volume_set_xfers(0, -120 * 256).unwrap();
    assert_eq!(floor, -96 * 256);
}

#[test]
fn channel_checks() {
    let d = Driver::new();
    assert!(d.check_input(3).is_ok());
    assert!(matches!(d.check_input(4), Err(DriverError::ChannelIndex { idx: 4, max: 3 })));
    assert!(matches!(d.gain_set_xfer(7, 0), Err(DriverError::ChannelIndex { idx: 7, max: 3 })));
    assert!(matches!(d.phantom_get_xfer(200), Err(DriverError::ChannelIndex { idx: 200, max: 3 })));
    assert!(matches!(d.mixer_set_xfer(10, 0, 0), Err(DriverError::ChannelIndex { idx: 10, max: 9 })));
    assert!(matches!(d.mixer_set_xfer(2, 4, 0), Err(DriverError::ChannelIndex { idx: 4, max: 9 })));
    assert!(d.check_pair(1).is_ok());
    assert!(matches!(d.volume_set_xfers(2, 0), Err(DriverError::ChannelIndex { idx: 2, max: 1 })));
    assert!(matches!(d.volume_set_xfers(255, 0), Err(DriverError::ChannelIndex { idx: 255, max: 1 })));
    assert!(matches!(d.volume_get_xfer(2), Err(DriverError::ChannelIndex { idx: 2, max: 1 })));
}

#[test]
fn control_requests() {
    let d = Driver::new();
    let (g, level) = d.gain_set_xfer(0, 5248).unwrap();
    assert_eq!(level, 21 * 256);
    assert_eq!((g.w_value, g.w_index), (0x0201, 0x0B00));
    assert_eq!(g.data, padded(&(21i16 * 256).to_le_bytes()));
    let p = d.phantom_set_xfer(2, true).unwrap();
    assert_eq!((p.w_value, p.w_index, p.w_length), (0x0002, 0x3A00, 4));
    assert_eq!(p.data, padded(&[1, 0, 0, 0]));
    let m = d.input_mute_set_xfer(3, false).unwrap();
    assert_eq!((m.w_value, m.w_index), (0x0203, 0x3A00));
    assert_eq!(m.data, padded(&[0, 0, 0, 0]));
    let o = d.output_mute_set_xfer(true);
    assert_eq!((o.w_value, o.w_index), (0x0100, 0x3B00));
    let (mx, ml) = d.mixer_set_xfer(3, 2, 9999).unwrap();
    assert_eq!(ml, 6 * 256);
    assert_eq!((mx.w_value, mx.w_index), (0x010E, 0x3C00));
    let r = d.volume_get_xfer(1).unwrap();
    assert_eq!((r.b_request_type, r.w_value, r.w_index, r.w_length), (0xA1, 0x0203, 0x0A00, 2));
    let r = d.gain_get_xfer(3).unwrap();
    assert_eq!((r.w_value, r.w_index, r.w_length), (0x0204, 0x0B00, 2));
    let r = d.input_mute_get_xfer(1).unwrap();
    assert_eq!((r.w_value, r.w_index, r.w_length), (0x0201, 0x3A00, 4));
    let r = d.output_mute_get_xfer();
    assert_eq!((r.w_value, r.w_index, r.w_length), (0x0100, 0x3B00, 4));
}

#[test]
fn status_reads_in_order() {
    let d = Driver::new();
    assert_eq!(d.status_len(), 15);
    let slots: Vec<ReadSlot> = (0..15).map(|k| d.status_slot(k)).collect();
    assert_eq!(
        slots,
        vec![
            ReadSlot::Volume(0),
            ReadSlot::Volume(1),
            ReadSlot::Gain(0),
            ReadSlot::Phantom(0),
            ReadSlot::InputMute(0),
            ReadSlot::Gain(1),
            ReadSlot::Phantom(1),
            ReadSlot::InputMute(1),
            ReadSlot::Gain(2),
            ReadSlot::Phantom(2),
            ReadSlot::InputMute(2),
            ReadSlot::Gain(3),
            ReadSlot::Phantom(3),
            ReadSlot::InputMute(3),
            ReadSlot::OutputMute,
        ]
    );
    assert!(Driver::reads_level(ReadSlot::Gain(0)));
    assert!(!Driver::reads_level(ReadSlot::OutputMute));
}

#[test]
fn short_level_reply_is_an_error() {
    let mut s = DeviceStatus::default();
    assert!(matches!(Driver::status_record(&mut s, ReadSlot::Gain(1), &[0x00]), Err(DriverError::ShortReply(1))));
    assert!(matches!(Driver::status_record(&mut s, ReadSlot::Volume(0), &[]), Err(DriverError::ShortReply(0))));
    assert_eq!(s.gain_q88, [0; 4]);
    assert!(matches!(Driver::level_reply(&[0x80]), Err(DriverError::ShortReply(1))));
    assert_eq!(Driver::level_reply(&[0x00, 0x80, 0x33]).unwrap(), i16::MIN);
    // A short boolean reply reads as off.
    Driver::status_record(&mut s, ReadSlot::Phantom(0), &[1]).unwrap();
    assert!(!s.phantom[0]);
}

#[test]
fn status_record_fills_fields() {
    let mut s = DeviceStatus::default();
    Driver::status_record(&mut s, ReadSlot::Volume(1), &[0x00, 0xEC]).unwrap();
    Driver::status_record(&mut s, ReadSlot::Gain(2), &[0x00, 0x14]).unwrap();
    Driver::status_record(&mut s, ReadSlot::Phantom(3), &[1, 0, 0, 0]).unwrap();
    Driver::status_record(&mut s, ReadSlot::InputMute(0), &[1, 0, 0, 0]).unwrap();
    Driver::status_record(&mut s, ReadSlot::OutputMute, &[1, 0, 0, 0]).unwrap();
    assert_eq!(s.volume_q88, [0, -5120]);
    assert_eq!(s.gain_q88, [0, 0, 20 * 256, 0]);
    assert_eq!(s.phantom, [false, false, false, true]);
    assert_eq!(s.input_mute, [true, false, false, false]);
    assert!(s.output_mute);
    assert_eq!(level_from_le(&[0x00, 0x14]), 5120);
}

#[test]
fn written_values_read_back() {
    let d = Driver::new();
    let (xfers, level) = d.volume_set_xfers(1, -3 * 256 - 77).unwrap();
    let mut status = DeviceStatus::default();
    let reply = xfers[0].data[..xfers[0].w_length as usize].to_vec();
    Driver::status_record(&mut status, ReadSlot::Volume(1), &reply).unwrap();
    assert_eq!(status.volume_q88[1], level);
    assert_eq!(level, -3 * 256 - 77);

    let (g, gain) = d.gain_set_xfer(2, 7 * 256 + 100).unwrap();
    Driver::status_record(&mut status, ReadSlot::Gain(2), &g.data[..g.w_length as usize]).unwrap();
    assert_eq!(status.gain_q88[2], gain);
    assert_eq!(gain, 7 * 256);

    let p = d.phantom_set_xfer(3, true).unwrap();
    Driver::status_record(&mut status, ReadSlot::Phantom(3), &p.data[..p.w_length as usize]).unwrap();
    assert!(status.phantom[3]);
    let m = d.output_mute_set_xfer(true);
    Driver::status_record(&mut status, ReadSlot::OutputMute, &m.data[..m.w_length as usize]).unwrap();
    assert!(status.output_mute);
    let m = d.output_mute_set_xfer(false);
    Driver::status_record(&mut status, ReadSlot::OutputMute, &m.data[..m.w_length as usize]).unwrap();
    assert!(!status.output_mute);
}
