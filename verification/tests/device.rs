use snull::checksum::fast_checksum;
use snull::device::{
    injection_advisory, DeviceOpError, DevicePair, DeviceState, InjectionStatus, Stats,
    TxDisposition, TxOutcome, VirtualDevice,
};
use snull::frame::Frame;

/// A well-formed 60-byte Ethernet + IPv4 frame with source 10.0.0.1,
/// destination 10.0.0.2, and a valid stored header checksum.
fn well_formed_frame() -> Frame {
    let mut bytes: Vec<u8> = vec![0; 60];
    bytes[0..6].copy_from_slice(&[2, 0, 0, 0, 0, 2]);
    bytes[6..12].copy_from_slice(&[2, 0, 0, 0, 0, 1]);
    bytes[12] = 0x08;
    bytes[13] = 0x00;
    bytes[14] = 0x45;
    bytes[17] = 46;
    bytes[22] = 64;
    bytes[23] = 17;
    bytes[26..30].copy_from_slice(&[10, 0, 0, 1]);
    bytes[30..34].copy_from_slice(&[10, 0, 0, 2]);
    let c = fast_checksum(&bytes[14..34], 20);
    bytes[24] = (c >> 8) as u8;
    bytes[25] = (c & 0xFF) as u8;
    Frame::new(bytes, 0)
}

#[test]
fn construction_cross_links_the_pair() {
    let pair = DevicePair::new();
    assert_eq!(pair.dev_a.index, 0);
    assert_eq!(pair.dev_b.index, 1);
    assert_eq!(pair.dev_a.sibling, Some(1));
    assert_eq!(pair.dev_b.sibling, Some(0));
    assert_eq!(pair.dev_a.state, DeviceState::Linked);
    assert_eq!(pair.dev_b.state, DeviceState::Linked);
    assert_eq!(pair.dev_a.tx_dropped, 0);
    assert_eq!(pair.dev_b.tx_dropped, 0);
}

#[test]
fn registration_of_both_devices_succeeds_and_tears_down() {
    let mut pair = DevicePair::new();
    assert!(pair.register_first(true).is_ok());
    assert_eq!(pair.dev_a.state, DeviceState::Registered);
    assert!(pair.register_second(true).is_ok());
    assert_eq!(pair.dev_b.state, DeviceState::Registered);
    pair.tear_down();
    assert_eq!(pair.dev_a.state, DeviceState::Unregistered);
    assert_eq!(pair.dev_b.state, DeviceState::Unregistered);
}

#[test]
fn first_registration_refused_leaves_nothing_registered() {
    let mut pair = DevicePair::new();
    let e = pair.register_first(false).unwrap_err();
    assert_eq!(e.device, 0);
    assert_eq!(pair.dev_a.state, DeviceState::Linked);
    assert_eq!(pair.dev_b.state, DeviceState::Linked);
}

#[test]
fn second_registration_refused_rolls_back_the_first() {
    // If device 1's registration fails, device 0 must end the sequence
    // unregistered and the pair construction reports the failure.
    let mut pair = DevicePair::new();
    pair.register_first(true).unwrap();
    let e = pair.register_second(false).unwrap_err();
    assert_eq!(e.device, 1);
    assert_eq!(pair.dev_a.state, DeviceState::Unregistered);
    assert_eq!(pair.dev_b.state, DeviceState::Linked);
}

#[test]
fn loopback_transmit_mutates_restamps_and_injects_once() {
    // End-to-end: a well-formed 60-byte frame submitted to device 0 yields
    // exactly one injected duplicate, with both addresses bit-16-flipped, a
    // valid recomputed checksum, and the sibling's identity stamp.
    let mut pair = DevicePair::new();
    pair.register_first(true).unwrap();
    pair.register_second(true).unwrap();

    let frame = well_formed_frame();
    let (outcome, disposition) = pair.start_transmit(frame, 0);
    assert_eq!(outcome, TxOutcome::TxOk);

    let mut injected: Vec<Frame> = Vec::new();
    match disposition {
        TxDisposition::Injected(f) => injected.push(f),
        other => panic!("expected an injection, got {:?}", other),
    }
    assert_eq!(injected.len(), 1);
    let f = &injected[0];
    assert_eq!(f.dev, 1);
    assert_eq!(&f.bytes[26..30], &[10, 0, 0x80, 1]);
    assert_eq!(&f.bytes[30..34], &[10, 0, 0x80, 2]);
    let stored = ((f.bytes[24] as u16) << 8) | (f.bytes[25] as u16);
    let mut header: Vec<u8> = f.bytes[14..34].to_vec();
    header[10] = 0;
    header[11] = 0;
    assert_eq!(fast_checksum(&header, 20), stored);
    // Counters untouched on the success path.
    assert_eq!(pair.dev_a.tx_dropped, 0);
}

#[test]
fn short_frame_transmit_is_dropped_and_counted() {
    let mut pair = DevicePair::new();
    pair.register_first(true).unwrap();
    pair.register_second(true).unwrap();
    let frame = Frame::new(vec![0; 20], 1);
    let (outcome, disposition) = pair.start_transmit(frame, 1);
    assert_eq!(outcome, TxOutcome::TxOk);
    assert!(matches!(disposition, TxDisposition::Dropped));
    assert_eq!(pair.dev_b.tx_dropped, 1);
    assert_eq!(pair.dev_a.tx_dropped, 0);
}

#[test]
fn transmit_on_sibling_device_stamps_device_zero() {
    let mut pair = DevicePair::new();
    pair.register_first(true).unwrap();
    pair.register_second(true).unwrap();
    let mut frame = well_formed_frame();
    frame.dev = 1;
    let (_, disposition) = pair.start_transmit(frame, 1);
    match disposition {
        TxDisposition::Injected(f) => assert_eq!(f.dev, 0),
        other => panic!("expected an injection, got {:?}", other),
    }
}

#[test]
fn unlinked_device_aborts_transmit_internally() {
    let mut pair = DevicePair {
        dev_a: VirtualDevice::construct(0, None),
        dev_b: VirtualDevice::construct(1, Some(0)),
    };
    let frame = well_formed_frame();
    let (outcome, disposition) = pair.start_transmit(frame, 0);
    assert_eq!(outcome, TxOutcome::TxOk);
    assert!(matches!(disposition, TxDisposition::AbortedInternal));
}

#[test]
fn duplicate_is_independently_owned() {
    let frame = well_formed_frame();
    let mut copy = frame.duplicate();
    assert_eq!(copy.bytes, frame.bytes);
    assert_eq!(copy.dev, frame.dev);
    copy.bytes[0] = 0xEE;
    assert_eq!(frame.bytes[0], 2);
}

#[test]
fn injection_drop_report_is_advisory_logging_only() {
    assert!(!injection_advisory(InjectionStatus::Delivered));
    assert!(injection_advisory(InjectionStatus::Dropped));
}

#[test]
fn stub_operations_are_inert() {
    let mut pair = DevicePair::new();
    assert!(pair.dev_a.init().is_ok());
    assert!(pair.dev_a.validate_addr().is_ok());
    assert_eq!(
        pair.dev_a.change_carrier(true).unwrap_err(),
        DeviceOpError::NotImplemented
    );
    assert_eq!(
        pair.dev_a.set_mac_addr(&[2, 0, 0, 0, 0, 9]).unwrap_err(),
        DeviceOpError::NotImplemented
    );
    pair.dev_a.set_rx_mode();
    pair.dev_a.uninit();
    let mut stats = Stats { rx_packets: 7, tx_packets: 8, rx_bytes: 9, tx_bytes: 10 };
    pair.dev_a.get_stats64(&mut stats);
    assert_eq!(
        stats,
        Stats { rx_packets: 7, tx_packets: 8, rx_bytes: 9, tx_bytes: 10 }
    );
    assert_eq!(pair.dev_a.state, DeviceState::Linked);
    assert_eq!(pair.dev_a.sibling, Some(1));
}
