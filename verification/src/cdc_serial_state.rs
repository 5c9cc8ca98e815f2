//! CDC-ACM class with SERIAL_STATE notification support.
//!
//! Keeps the interrupt IN endpoint that the CDC specification asks for, and
//! signals device-to-host DCD/DSR on it.

use vstd::prelude::*;

use crate::usb_descriptors::{push_descriptor, push_item, UsbItem, UsbItemView, CS_INTERFACE};

verus! {

pub const USB_CLASS_CDC: u8 = 0x02;

pub const USB_CLASS_CDC_DATA: u8 = 0x0a;

pub const CDC_SUBCLASS_ACM: u8 = 0x02;

pub const CDC_PROTOCOL_NONE: u8 = 0x00;

pub const CDC_TYPE_HEADER: u8 = 0x00;

pub const CDC_TYPE_ACM: u8 = 0x02;

pub const CDC_TYPE_UNION: u8 = 0x06;

pub const REQ_SEND_ENCAPSULATED_COMMAND: u8 = 0x00;

pub const REQ_SET_LINE_CODING: u8 = 0x20;

pub const REQ_GET_LINE_CODING: u8 = 0x21;

pub const REQ_SET_CONTROL_LINE_STATE: u8 = 0x22;

/// CDC SERIAL_STATE notification code.
pub const NOTIF_SERIAL_STATE: u8 = 0x20;

/// Bit 0 of the SERIAL_STATE bitmask: bRxCarrier (DCD).
pub const SERIAL_STATE_DCD: u16 = 1;

/// Bit 1 of the SERIAL_STATE bitmask: bTxCarrier (DSR).
pub const SERIAL_STATE_DSR: u16 = 2;

/// How many bytes a line coding takes.
pub const LINE_CODING_LEN: usize = 7;

/// Who defines the meaning of a control request.
#[derive(Debug, Clone, Copy, PartialEq, Eq, Structural)]
pub enum RequestType {
    Standard,
    Class,
    Vendor,
    Reserved,
}

/// Whom a control request is meant for.
#[derive(Debug, Clone, Copy, PartialEq, Eq, Structural)]
pub enum Recipient {
    Device,
    Interface,
    Endpoint,
    Other,
    Reserved,
}

/// A control request, as read from a SETUP packet.
#[derive(Debug, Clone, Copy, PartialEq, Eq, Structural)]
pub struct Request {
    pub request_type: RequestType,
    pub recipient: Recipient,
    pub request: u8,
    pub value: u16,
    pub index: u16,
    pub length: u16,
}

impl Request {
    /// The request is a class request for the interface `comm_if`.
    pub open spec fn is_for(self, comm_if: u8) -> bool {
        &&& self.request_type == RequestType::Class
        &&& self.recipient == Recipient::Interface
        &&& self.index == comm_if
    }
}

/// Answer to a CONTROL OUT request.
#[derive(Debug, Clone, Copy, PartialEq, Eq, Structural)]
pub enum OutResponse {
    Accepted,
    Rejected,
}

/// Answer to a CONTROL IN request.
#[derive(Debug, Clone, Copy, PartialEq, Eq)]
pub enum InResponse {
    /// Send these bytes.
    Accepted([u8; 7]),
    Rejected,
}

/// Data rate of the default line coding.
pub const DEFAULT_BAUD: u32 = 9600;

/// The default line coding: the data rate, low byte first, then one stop bit,
/// no parity, eight data bits.
pub open spec fn default_line_coding() -> Seq<u8> {
    seq![
        (DEFAULT_BAUD % 256) as u8,
        ((DEFAULT_BAUD / 256) % 256) as u8,
        ((DEFAULT_BAUD / 65536) % 256) as u8,
        (DEFAULT_BAUD / 16777216) as u8,
        0,
        0,
        8,
    ]
}

/// What the host last set, and the number of the control interface.
#[derive(Debug, Clone, Copy, PartialEq, Eq, Structural)]
pub struct State {
    pub dtr: bool,
    pub rts: bool,
    /// Interface number embedded in the wIndex field of every SERIAL_STATE
    /// notification.
    pub comm_if: u8,
}

impl State {
    /// The state before the host or the device set anything.
    pub open spec fn initial() -> State {
        State { dtr: false, rts: false, comm_if: 0 }
    }

    /// The state of the interface with the given number.
    pub open spec fn of_interface(self, comm_if: u8) -> State {
        State { comm_if, ..self }
    }

    /// Both lines down, interface not yet known.
    pub fn new() -> (state: Self)
        ensures
            state == State::initial(),
            state == (State { dtr: false, rts: false, comm_if: 0 }),
    {
        State { dtr: false, rts: false, comm_if: 0 }
    }
}

impl Default for State {
    fn default() -> (state: Self)
        ensures
            state == State::initial(),
            state == (State { dtr: false, rts: false, comm_if: 0 }),
    {
        Self::new()
    }
}

/// The communication interface.
pub open spec fn comm_items(comm_if: int) -> Seq<UsbItemView> {
    seq![
        UsbItemView::AltSetting {
            class: USB_CLASS_CDC,
            subclass: CDC_SUBCLASS_ACM,
            protocol: CDC_PROTOCOL_NONE,
        },
        // bcdCDC 1.10
        UsbItemView::Descriptor { kind: CS_INTERFACE, data: seq![CDC_TYPE_HEADER, 0x10, 0x01] },
        UsbItemView::Descriptor { kind: CS_INTERFACE, data: seq![CDC_TYPE_ACM, 0x02] },
        UsbItemView::Descriptor {
            kind: CS_INTERFACE,
            data: seq![CDC_TYPE_UNION, comm_if as u8, (comm_if + 1) as u8],
        },
        UsbItemView::InterruptIn { max_packet_size: 10, poll_ms: 1 },
    ]
}

/// The data interface.
pub open spec fn data_items(max_packet_size: u16) -> Seq<UsbItemView> {
    seq![
        UsbItemView::AltSetting {
            class: USB_CLASS_CDC_DATA,
            subclass: 0x00,
            protocol: CDC_PROTOCOL_NONE,
        },
        UsbItemView::BulkOut { max_packet_size },
        UsbItemView::BulkIn { max_packet_size },
    ]
}

/// The SERIAL_STATE notification of interface `comm_if` for the given lines:
/// a class notification with a two-byte bitmask, low byte first.
pub open spec fn serial_state_packet(comm_if: u8, dcd: bool, dsr: bool) -> Seq<u8> {
    seq![
        0xA1,
        NOTIF_SERIAL_STATE,
        0x00,
        0x00,
        comm_if,
        0x00,
        0x02,
        0x00,
        ((if dcd {
            SERIAL_STATE_DCD as int
        } else {
            0
        }) + (if dsr {
            SERIAL_STATE_DSR as int
        } else {
            0
        })) as u8,
        0x00,
    ]
}

/// CDC-ACM class with SERIAL_STATE notification support.
#[derive(Debug)]
pub struct CdcWithSerialState {
    /// The communication interface, first of the function's two.
    pub comm: Vec<UsbItem>,
    /// The data interface, second of the function's two.
    pub data: Vec<UsbItem>,
    /// What the control handler and the emit task share.
    pub control: State,
}

impl CdcWithSerialState {
    /// Class, subclass and protocol that the USB function is declared with.
    pub fn function_class() -> (triple: (u8, u8, u8))
        ensures
            triple == (0x02u8, 0x02u8, 0x00u8),
            triple == (USB_CLASS_CDC, CDC_SUBCLASS_ACM, CDC_PROTOCOL_NONE),
    {
        (USB_CLASS_CDC, CDC_SUBCLASS_ACM, CDC_PROTOCOL_NONE)
    }

    /// Describes the class, whose communication interface has the number
    /// `comm_if` and whose data interface follows it.
    ///
    /// The device's control buffer has to hold a line coding.
    pub fn new(control_buf_len: usize, comm_if: u8, state: State, max_packet_size: u16) -> (cdc:
        Self)
        requires
            control_buf_len >= LINE_CODING_LEN,
            comm_if < 255,
        ensures
            crate::usb_descriptors::items_view(cdc.comm@) == comm_items(comm_if as int),
            crate::usb_descriptors::items_view(cdc.data@) == data_items(max_packet_size),
            cdc.control == (State { comm_if, ..state }),
            cdc.control == state.of_interface(comm_if),
    {
        let data_if: u8 = comm_if + 1;
        let mut comm: Vec<UsbItem> = Vec::new();
        push_item(
            &mut comm,
            UsbItem::AltSetting {
                class: USB_CLASS_CDC,
                subclass: CDC_SUBCLASS_ACM,
                protocol: CDC_PROTOCOL_NONE,
            },
        );
        let header: Vec<u8> = vec![CDC_TYPE_HEADER, 0x10, 0x01];
        assert(header@ =~= seq![CDC_TYPE_HEADER, 0x10, 0x01]);
        push_descriptor(&mut comm, CS_INTERFACE, header);
        // Set/Get_Line_Coding, Set_Control_Line_State, Serial_State
        let acm: Vec<u8> = vec![CDC_TYPE_ACM, 0x02];
        assert(acm@ =~= seq![CDC_TYPE_ACM, 0x02]);
        push_descriptor(&mut comm, CS_INTERFACE, acm);
        let union_of: Vec<u8> = vec![CDC_TYPE_UNION, comm_if, data_if];
        assert(union_of@ =~= seq![CDC_TYPE_UNION, comm_if, data_if]);
        push_descriptor(&mut comm, CS_INTERFACE, union_of);
        // 1 ms poll interval: SERIAL_STATE carries per-element key state, and
        // a slower host poll would be a good part of a dit.
        push_item(&mut comm, UsbItem::InterruptIn { max_packet_size: 10, poll_ms: 1 });
        assert(crate::usb_descriptors::items_view(comm@) =~= comm_items(comm_if as int));

        let mut data: Vec<UsbItem> = Vec::new();
        push_item(
            &mut data,
            UsbItem::AltSetting {
                class: USB_CLASS_CDC_DATA,
                subclass: 0x00,
                protocol: CDC_PROTOCOL_NONE,
            },
        );
        push_item(&mut data, UsbItem::BulkOut { max_packet_size });
        push_item(&mut data, UsbItem::BulkIn { max_packet_size });
        assert(crate::usb_descriptors::items_view(data@) =~= data_items(max_packet_size));

        CdcWithSerialState {
            comm,
            data,
            control: State { dtr: state.dtr, rts: state.rts, comm_if },
        }
    }

    /// Returns the DTR (data terminal ready) signal set by the host.
    pub fn dtr(&self) -> (dtr: bool)
        ensures
            dtr == self.control.dtr,
    {
        self.control.dtr
    }

    /// Returns the RTS (request to send) signal set by the host.
    pub fn rts(&self) -> (rts: bool)
        ensures
            rts == self.control.rts,
    {
        self.control.rts
    }

    /// A CDC SERIAL_STATE notification for the host.
    ///
    /// - `dcd`: Data Carrier Detect (dit paddle)
    /// - `dsr`: Data Set Ready (dah paddle)
    pub fn send_serial_state(&self, dcd: bool, dsr: bool) -> (packet: [u8; 10])
        ensures
            packet@ == serial_state_packet(self.control.comm_if, dcd, dsr),
    {
        self.control.serial_state(dcd, dsr)
    }
}

impl State {
    /// The answer to a CONTROL OUT request with a data stage of `len` bytes.
    pub open spec fn out_response(self, req: Request, len: nat) -> Option<OutResponse> {
        if !req.is_for(self.comm_if) {
            None
        } else if req.request == REQ_SEND_ENCAPSULATED_COMMAND || req.request
            == REQ_SET_CONTROL_LINE_STATE || (req.request == REQ_SET_LINE_CODING && len
            >= LINE_CODING_LEN) {
            Some(OutResponse::Accepted)
        } else {
            Some(OutResponse::Rejected)
        }
    }

    /// The state after a CONTROL OUT request.
    pub open spec fn after_out(self, req: Request) -> State {
        if req.is_for(self.comm_if) && req.request == REQ_SET_CONTROL_LINE_STATE {
            State { dtr: req.value % 2 == 1, rts: (req.value / 2) % 2 == 1, ..self }
        } else {
            self
        }
    }

    /// A CONTROL IN request asks for the line coding.
    pub open spec fn gives_line_coding(self, req: Request) -> bool {
        req.is_for(self.comm_if) && req.request == REQ_GET_LINE_CODING && req.length
            == LINE_CODING_LEN
    }

    /// The answer to a CONTROL IN request: the bytes to send, or a rejection.
    pub open spec fn in_response(self, req: Request) -> Option<Option<Seq<u8>>> {
        if !req.is_for(self.comm_if) {
            None
        } else if self.gives_line_coding(req) {
            Some(Some(default_line_coding()))
        } else {
            Some(None)
        }
    }

    /// The state after a bus reset.
    pub open spec fn after_reset(self) -> State {
        State { dtr: false, rts: false, ..self }
    }

    /// Bus reset: the host has both lines down again.
    pub fn reset(&mut self)
        ensures
            *final(self) == (State { dtr: false, rts: false, ..*old(self) }),
            *final(self) == old(self).after_reset(),
    {
        self.dtr = false;
        self.rts = false;
    }

    /// Handle a CONTROL OUT request with its data stage; `None` leaves it to
    /// other handlers.
    pub fn control_out(&mut self, req: Request, data: &[u8]) -> (response: Option<OutResponse>)
        ensures
            response == old(self).out_response(req, data@.len()),
            *final(self) == old(self).after_out(req),
            response is None <==> !req.is_for(old(self).comm_if),
            response == Some(OutResponse::Accepted) <==> (req.is_for(old(self).comm_if) && (
            req.request == REQ_SEND_ENCAPSULATED_COMMAND || (req.request == REQ_SET_LINE_CODING
                && data@.len() >= LINE_CODING_LEN) || req.request == REQ_SET_CONTROL_LINE_STATE)),
            *final(self) == (if req.is_for(old(self).comm_if) && req.request
                == REQ_SET_CONTROL_LINE_STATE {
                State {
                    dtr: req.value % 2 == 1,
                    rts: (req.value / 2) % 2 == 1,
                    comm_if: old(self).comm_if,
                }
            } else {
                *old(self)
            }),
    {
        if req.request_type != RequestType::Class || req.recipient != Recipient::Interface
            || req.index != self.comm_if as u16 {
            return None;
        }
        if req.request == REQ_SEND_ENCAPSULATED_COMMAND {
            Some(OutResponse::Accepted)
        } else if req.request == REQ_SET_LINE_CODING && data.len() >= LINE_CODING_LEN {
            Some(OutResponse::Accepted)
        } else if req.request == REQ_SET_CONTROL_LINE_STATE {
            let value = req.value;
            assert((value & 0x0001u16 != 0) == (value % 2 == 1)) by (bit_vector);
            assert((value & 0x0002u16 != 0) == ((value / 2) % 2 == 1)) by (bit_vector);
            self.dtr = (value & 0x0001u16) != 0;
            self.rts = (value & 0x0002u16) != 0;
            Some(OutResponse::Accepted)
        } else {
            Some(OutResponse::Rejected)
        }
    }

    /// Handle a CONTROL IN request; `None` leaves it to other handlers. The
    /// line coding is always the default one.
    pub fn control_in(&self, req: Request) -> (response: Option<InResponse>)
        ensures
            (response is Some && response->0 is Accepted) <==> self.gives_line_coding(req),
            self.in_response(req) == (match response {
                None => None,
                Some(InResponse::Rejected) => Some(None),
                Some(InResponse::Accepted(bytes)) => Some(Some(bytes@)),
            }),
            response is None <==> !req.is_for(self.comm_if),
            response matches Some(InResponse::Accepted(bytes)) ==> bytes@
                == default_line_coding(),
            (response is Some && response->0 is Accepted) <==> (req.is_for(self.comm_if)
                && req.request == REQ_GET_LINE_CODING && req.length == LINE_CODING_LEN),
    {
        if req.request_type != RequestType::Class || req.recipient != Recipient::Interface
            || req.index != self.comm_if as u16 {
            return None;
        }
        if req.request == REQ_GET_LINE_CODING && req.length == 7 {
            let coding: [u8; 7] = [
                (DEFAULT_BAUD % 256) as u8,
                ((DEFAULT_BAUD / 256) % 256) as u8,
                ((DEFAULT_BAUD / 65536) % 256) as u8,
                (DEFAULT_BAUD / 16777216) as u8,
                0,
                0,
                8,
            ];
            assert(coding@ =~= default_line_coding());
            Some(InResponse::Accepted(coding))
        } else {
            Some(InResponse::Rejected)
        }
    }

    /// The SERIAL_STATE notification for the given lines.
    pub fn serial_state(&self, dcd: bool, dsr: bool) -> (packet: [u8; 10])
        ensures
            packet@ == serial_state_packet(self.comm_if, dcd, dsr),
    {
        let mut state: u16 = 0;
        if dcd {
            assert(0u16 | 1u16 == 1u16) by (bit_vector);
            state = state | SERIAL_STATE_DCD;
        }
        if dsr {
            assert(0u16 | 2u16 == 2u16) by (bit_vector);
            assert(1u16 | 2u16 == 3u16) by (bit_vector);
            state = state | SERIAL_STATE_DSR;
        }
        let low: u8 = (state % 256) as u8;
        let high: u8 = (state / 256) as u8;
        let packet: [u8; 10] = [
            0xA1,
            NOTIF_SERIAL_STATE,
            0x00,
            0x00,
            self.comm_if,
            0x00,
            0x02,
            0x00,
            low,
            high,
        ];
        assert(packet@ =~= serial_state_packet(self.comm_if, dcd, dsr));
        packet
    }
}

/// The host reads back exactly the lines that were sent: bit 0 of the bitmask
/// is DCD, bit 1 is DSR, and nothing else is set.
pub proof fn law_serial_state_carries_both_lines(comm_if: u8, dcd: bool, dsr: bool)
    ensures
        ({
            let packet = serial_state_packet(comm_if, dcd, dsr);
            let mask = packet[8] + 256 * packet[9];
            &&& packet.len() == 10
            &&& packet[4] + 256 * packet[5] == comm_if
            &&& packet[6] + 256 * packet[7] == 2
            &&& (mask % 2 == 1) == dcd
            &&& ((mask / 2) % 2 == 1) == dsr
            &&& mask < 4
        }),
{
}

/// The request is a class request for the interface with the state's number.
pub open spec fn is_own(state: State, req: Request) -> bool {
    req.request_type == RequestType::Class && req.recipient == Recipient::Interface && req.index
        == state.comm_if
}

/// Requests for somebody else are left alone, whatever they ask: neither
/// answered nor acted on. Requests for this interface are always answered.
pub proof fn law_only_own_requests_are_handled(state: State, req: Request, len: nat)
    ensures
        state.out_response(req, len) is None <==> !is_own(state, req),
        !is_own(state, req) ==> state.after_out(req) == state,
        state.gives_line_coding(req) ==> is_own(state, req),
{
}

/// The host sets DTR by the lowest bit of the value and RTS by the next one,
/// each on its own and whatever the other bits are; no other request changes
/// either line.
pub proof fn law_host_sets_the_lines(state: State, req: Request, len: nat)
    requires
        is_own(state, req),
    ensures
        req.request == 0x22 ==> {
            &&& state.out_response(req, len) == Some(OutResponse::Accepted)
            &&& state.after_out(req).dtr <==> req.value % 2 == 1
            &&& state.after_out(req).rts <==> req.value % 4 >= 2
            &&& state.after_out(req).comm_if == state.comm_if
        },
        req.request != 0x22 ==> state.after_out(req) == state,
{
    let v = req.value;
    assert((v / 2) % 2 == 1 <==> v % 4 >= 2) by (bit_vector);
}

/// An encapsulated command is accepted, a line coding if all seven bytes of it
/// are there, and anything else but the control line state is rejected. The
/// line coding is given out on a request for exactly seven bytes.
pub proof fn law_requests_are_answered(state: State, req: Request, len: nat)
    requires
        is_own(state, req),
    ensures
        req.request == 0x00 ==> state.out_response(req, len) == Some(OutResponse::Accepted),
        req.request == 0x20 ==> state.out_response(req, len) == Some(
            if len >= 7 { OutResponse::Accepted } else { OutResponse::Rejected },
        ),
        req.request != 0x00 && req.request != 0x20 && req.request != 0x22 ==> state.out_response(
            req,
            len,
        ) == Some(OutResponse::Rejected),
        state.gives_line_coding(req) <==> req.request == 0x21 && req.length == 7,
{
}

/// The line coding reads as 9600 baud, one stop bit, no parity, eight data
/// bits.
pub proof fn law_line_coding_is_9600_8n1()
    ensures
        default_line_coding().len() == 7,
        default_line_coding()[0] + 0x100 * default_line_coding()[1] + 0x1_0000
            * default_line_coding()[2] + 0x100_0000 * default_line_coding()[3] == 9600,
        default_line_coding()[4] == 0,
        default_line_coding()[5] == 0,
        default_line_coding()[6] == 8,
{
}

/// A notification is a class notification from an interface, and carries the
/// bitmask of the two lines and nothing else.
pub proof fn law_notification_layout(comm_if: u8, dcd: bool, dsr: bool)
    ensures
        serial_state_packet(comm_if, dcd, dsr) == seq![
            0xa1u8,
            0x20,
            0,
            0,
            comm_if,
            0,
            2,
            0,
            (if dcd && dsr {
                3u8
            } else if dcd {
                1
            } else if dsr {
                2
            } else {
                0
            }),
            0,
        ],
{
}

/// The class is two interfaces in a row, joined by the union descriptor: a
/// communication interface with an endpoint that takes one notification every
/// millisecond, and a data interface with a bulk endpoint each way.
pub proof fn law_interfaces_belong_together(comm_if: int, max_packet_size: u16)
    requires
        0 <= comm_if < 255,
    ensures
        ({
            let comm = comm_items(comm_if);
            &&& comm.len() == 5
            &&& comm[0] == (UsbItemView::AltSetting { class: 2, subclass: 2, protocol: 0 })
            &&& comm[1] == (UsbItemView::Descriptor { kind: 0x24, data: seq![0u8, 0x10, 0x01] })
            &&& comm[2] == (UsbItemView::Descriptor { kind: 0x24, data: seq![2u8, 2] })
            &&& comm[3] matches UsbItemView::Descriptor { kind, data }
            &&& kind == 0x24 && data.len() == 3 && data[0] == 6
            &&& data[1] == comm_if && data[2] == comm_if + 1
            &&& comm[4] == (UsbItemView::InterruptIn { max_packet_size: 10, poll_ms: 1 })
        }),
        forall|dcd: bool, dsr: bool|
            #[trigger] serial_state_packet(comm_if as u8, dcd, dsr).len() == 10,
        ({
            let data = data_items(max_packet_size);
            &&& data.len() == 3
            &&& data[0] == (UsbItemView::AltSetting { class: 0x0a, subclass: 0, protocol: 0 })
            &&& data[1] == (UsbItemView::BulkOut { max_packet_size })
            &&& data[2] == (UsbItemView::BulkIn { max_packet_size })
        }),
{
}

/// A request for the line coding, with room for exactly its seven bytes, is
/// answered with seven bytes that read as 9600 baud 8N1; any other request to
/// this interface is rejected, and requests to others are left alone.
pub proof fn law_line_coding_is_given_out(state: State, req: Request)
    ensures
        state.in_response(req) is None <==> !is_own(state, req),
        is_own(state, req) && req.request == 0x21 && req.length == 7 ==> (state.in_response(
            req,
        ) matches Some(Some(b)) && b.len() == 7 && b[0] + 0x100 * b[1] + 0x1_0000 * b[2]
            + 0x100_0000 * b[3] == 9600 && b[4] == 0 && b[5] == 0 && b[6] == 8),
        is_own(state, req) && !(req.request == 0x21 && req.length == 7) ==> state.in_response(req)
            == Some(None::<Seq<u8>>),
{
}

/// A bus reset takes both lines down, whatever the host had set, and keeps the
/// interface.
pub proof fn law_reset_takes_both_lines_down(state: State)
    ensures
        !state.after_reset().dtr,
        !state.after_reset().rts,
        state.after_reset().comm_if == state.comm_if,
{
}

/// The number of the communication interface is the one that its requests are
/// recognised by and that its notifications name; giving it leaves the lines
/// alone. At first both lines are down.
pub proof fn law_interface_number_is_used(state: State, comm_if: u8, req: Request, len: nat)
    ensures
        state.of_interface(comm_if).dtr == state.dtr,
        state.of_interface(comm_if).rts == state.rts,
        req.index != comm_if ==> state.of_interface(comm_if).out_response(req, len) is None
            && state.of_interface(comm_if).in_response(req) is None,
        req.request_type == RequestType::Class && req.recipient == Recipient::Interface
            && req.index == comm_if ==> state.of_interface(comm_if).out_response(req, len) is Some
            && state.of_interface(comm_if).in_response(req) is Some,
        forall|dcd: bool, dsr: bool|
            #[trigger] serial_state_packet(
                state.of_interface(comm_if).comm_if,
                dcd,
                dsr,
            )[4] == comm_if,
        !State::initial().dtr,
        !State::initial().rts,
        State::initial().comm_if == 0,
{
}

} // verus!
