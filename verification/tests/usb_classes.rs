use rp_keyer::cdc_serial_state::{
    CdcWithSerialState, InResponse, OutResponse, Recipient, Request, RequestType, State,
};
use rp_keyer::midi_interrupt::{EndpointError, MidiInterruptClass, WaitOn};
use rp_keyer::usb_descriptors::UsbItem;

fn descriptor(item: &UsbItem) -> (u8, Vec<u8>) {
    match item {
        UsbItem::Descriptor { kind, data } => (*kind, data.clone()),
        _ => panic!("not a descriptor: {:?}", item),
    }
}

fn request(request: u8, value: u16, index: u16, length: u16) -> Request {
    Request {
        request_type: RequestType::Class,
        recipient: Recipient::Interface,
        request,
        value,
        index,
        length,
    }
}

#[test]
fn function_classes() {
    assert_eq!(CdcWithSerialState::function_class(), (2, 2, 0));
    assert_eq!(MidiInterruptClass::function_class(), (1, 1, 0));
}

#[test]
fn cdc_interfaces() {
    let cdc = CdcWithSerialState::new(64, 2, State::new(), 64);
    assert_eq!(cdc.comm.len(), 5);
    assert!(matches!(
        cdc.comm[0],
        UsbItem::AltSetting { class: 0x02, subclass: 0x02, protocol: 0x00 }
    ));
    assert_eq!(descriptor(&cdc.comm[1]), (0x24, vec![0x00, 0x10, 0x01]));
    assert_eq!(descriptor(&cdc.comm[2]), (0x24, vec![0x02, 0x02]));
    assert_eq!(descriptor(&cdc.comm[3]), (0x24, vec![0x06, 2, 3]));
    assert!(matches!(
        cdc.comm[4],
        UsbItem::InterruptIn { max_packet_size: 10, poll_ms: 1 }
    ));
    assert_eq!(cdc.data.len(), 3);
    assert!(matches!(
        cdc.data[0],
        UsbItem::AltSetting { class: 0x0a, subclass: 0x00, protocol: 0x00 }
    ));
    assert!(matches!(cdc.data[1], UsbItem::BulkOut { max_packet_size: 64 }));
    assert!(matches!(cdc.data[2], UsbItem::BulkIn { max_packet_size: 64 }));
}

#[test]
fn cdc_serial_state_packets() {
    let cdc = CdcWithSerialState::new(7, 3, State::default(), 64);
    let head = [0xa1, 0x20, 0, 0, 3, 0, 2, 0];
    for (dcd, dsr, bits) in [(false, false, 0u8), (true, false, 1), (false, true, 2), (true, true, 3)]
    {
        let packet = cdc.send_serial_state(dcd, dsr);
        assert_eq!(packet[..8], head);
        assert_eq!(packet[8..], [bits, 0]);
    }
}

#[test]
fn cdc_control_line_state() {
    let mut cdc = CdcWithSerialState::new(64, 0, State::new(), 64);
    assert!(!cdc.dtr() && !cdc.rts());
    assert_eq!(
        cdc.control.control_out(request(0x22, 1, 0, 0), &[]),
        Some(OutResponse::Accepted)
    );
    assert!(cdc.dtr() && !cdc.rts());
    cdc.control.control_out(request(0x22, 0xfffe, 0, 0), &[]);
    assert!(!cdc.dtr() && cdc.rts());
    cdc.control.control_out(request(0x22, 3, 0, 0), &[]);
    assert!(cdc.dtr() && cdc.rts());
    cdc.control.reset();
    assert!(!cdc.dtr() && !cdc.rts());
}

#[test]
fn cdc_control_out_answers() {
    let mut state = CdcWithSerialState::new(64, 4, State::new(), 64).control;
    assert_eq!(state.control_out(request(0x00, 0, 4, 0), &[]), Some(OutResponse::Accepted));
    assert_eq!(state.control_out(request(0x20, 0, 4, 7), &[0; 7]), Some(OutResponse::Accepted));
    assert_eq!(state.control_out(request(0x20, 0, 4, 6), &[0; 6]), Some(OutResponse::Rejected));
    assert_eq!(state.control_out(request(0x23, 0, 4, 0), &[]), Some(OutResponse::Rejected));
    // For somebody else.
    assert_eq!(state.control_out(request(0x22, 3, 5, 0), &[]), None);
    let vendor = Request { request_type: RequestType::Vendor, ..request(0x22, 3, 4, 0) };
    assert_eq!(state.control_out(vendor, &[]), None);
    let device = Request { recipient: Recipient::Device, ..request(0x22, 3, 4, 0) };
    assert_eq!(state.control_out(device, &[]), None);
    assert!(!state.dtr && !state.rts);
}

#[test]
fn cdc_control_in_answers() {
    let state = CdcWithSerialState::new(64, 4, State::new(), 64).control;
    // 9600 baud, one stop bit, no parity, eight data bits.
    assert_eq!(
        state.control_in(request(0x21, 0, 4, 7)),
        Some(InResponse::Accepted([0x80, 0x25, 0, 0, 0, 0, 8]))
    );
    assert_eq!(state.control_in(request(0x21, 0, 4, 8)), Some(InResponse::Rejected));
    assert_eq!(state.control_in(request(0x20, 0, 4, 7)), Some(InResponse::Rejected));
    assert_eq!(state.control_in(request(0x21, 0, 3, 7)), None);
}

#[test]
fn midi_send_only_device() {
    let midi = MidiInterruptClass::new(2, 1, 0, 64, 1);
    assert_eq!(midi.control.len(), 2);
    assert_eq!(
        descriptor(&midi.control[1]),
        (0x24, vec![0x01, 0x00, 0x01, 9, 0, 1, 3])
    );
    let s = &midi.streaming;
    assert_eq!(s.len(), 6);
    assert!(matches!(
        s[0],
        UsbItem::AltSetting { class: 0x01, subclass: 0x03, protocol: 0x00 }
    ));
    // 7 + 15 + 12
    assert_eq!(descriptor(&s[1]), (0x24, vec![0x01, 0x00, 0x01, 34, 0]));
    assert_eq!(descriptor(&s[2]), (0x24, vec![0x02, 0x02, 1, 0]));
    assert_eq!(descriptor(&s[3]), (0x24, vec![0x03, 0x01, 2, 1, 1, 1, 0]));
    assert!(matches!(s[4], UsbItem::InterruptIn { max_packet_size: 64, poll_ms: 1 }));
    assert_eq!(descriptor(&s[5]), (0x25, vec![0x01, 1, 2]));

    assert_eq!(midi.write_packet(&[1, 2, 3, 4]), Ok(&[1u8, 2, 3, 4][..]));
    assert_eq!(midi.read_packet(), Err(EndpointError::Disabled));
    assert_eq!(midi.wait_connection(), Some(WaitOn::WriteEndpoint));
}

#[test]
fn midi_two_way_device() {
    let midi = MidiInterruptClass::new(0, 2, 1, 32, 5);
    let s = &midi.streaming;
    // 7 + 3 * 15 + 12 + 13
    assert_eq!(descriptor(&s[1]), (0x24, vec![0x01, 0x00, 0x01, 77, 0]));
    assert_eq!(descriptor(&s[2]), (0x24, vec![0x02, 0x02, 1, 0]));
    assert_eq!(descriptor(&s[3]), (0x24, vec![0x02, 0x02, 3, 0]));
    assert_eq!(descriptor(&s[4]), (0x24, vec![0x02, 0x01, 6, 0]));
    assert_eq!(descriptor(&s[5]), (0x24, vec![0x03, 0x02, 5, 1, 6, 1, 0]));
    assert_eq!(descriptor(&s[6]), (0x24, vec![0x03, 0x01, 2, 1, 1, 1, 0]));
    assert_eq!(descriptor(&s[7]), (0x24, vec![0x03, 0x01, 4, 1, 3, 1, 0]));
    assert!(matches!(s[8], UsbItem::InterruptOut { max_packet_size: 32, poll_ms: 5 }));
    assert_eq!(descriptor(&s[9]), (0x25, vec![0x01, 1, 6]));
    assert!(matches!(s[10], UsbItem::InterruptIn { max_packet_size: 32, poll_ms: 5 }));
    assert_eq!(descriptor(&s[11]), (0x25, vec![0x01, 2, 2, 4]));
    assert_eq!(s.len(), 12);
    assert_eq!(midi.read_packet(), Ok(()));
}

#[test]
fn midi_total_length_is_the_size_of_what_follows() {
    for n_in in 0..=16u8 {
        for n_out in 0..=16u8 {
            let midi = MidiInterruptClass::new(0, n_in, n_out, 64, 1);
            let size: usize = midi.streaming[1..]
                .iter()
                .map(|item| match item {
                    UsbItem::Descriptor { data, .. } => 2 + data.len(),
                    UsbItem::AltSetting { .. } => 9,
                    _ => 7,
                })
                .sum();
            let (_, header) = descriptor(&midi.streaming[1]);
            assert_eq!(header[3] as usize + 256 * header[4] as usize, size);
        }
    }
}

#[test]
fn midi_jack_ids_are_distinct() {
    let midi = MidiInterruptClass::new(0, 16, 16, 64, 1);
    let mut ids: Vec<u8> = midi
        .streaming
        .iter()
        .filter_map(|item| match item {
            UsbItem::Descriptor { kind: 0x24, data } if data[0] != 0x01 => Some(data[2]),
            _ => None,
        })
        .collect();
    assert_eq!(ids.len(), 64);
    ids.sort();
    let all: Vec<u8> = (1..=64).collect();
    assert_eq!(ids, all);
}

#[test]
fn midi_without_jacks_has_no_endpoints() {
    let midi = MidiInterruptClass::new(0, 0, 0, 64, 1);
    assert_eq!(midi.streaming.len(), 2);
    assert_eq!(midi.write_packet(&[0; 4]), Err(EndpointError::Disabled));
    assert_eq!(midi.read_packet(), Err(EndpointError::Disabled));
    assert_eq!(midi.wait_connection(), None);

    let receive_only = MidiInterruptClass::new(0, 0, 1, 64, 1);
    assert_eq!(receive_only.wait_connection(), Some(WaitOn::ReadEndpoint));
}
