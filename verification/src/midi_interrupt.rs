//! MIDI class using interrupt endpoints instead of bulk.
//!
//! USB MIDI 1.0 specifies bulk endpoints, but interrupt endpoints guarantee a
//! maximum host polling interval (`poll_ms`), which keeps keying latency
//! bounded.

use vstd::prelude::*;

use crate::usb_descriptors::{
    push_descriptor, push_item, UsbItem, UsbItemView, CS_ENDPOINT, CS_INTERFACE,
};

verus! {

pub const USB_AUDIO_CLASS: u8 = 0x01;

pub const USB_AUDIOCONTROL_SUBCLASS: u8 = 0x01;

pub const USB_MIDISTREAMING_SUBCLASS: u8 = 0x03;

pub const MIDI_IN_JACK_SUBTYPE: u8 = 0x02;

pub const MIDI_OUT_JACK_SUBTYPE: u8 = 0x03;

pub const EMBEDDED: u8 = 0x01;

pub const EXTERNAL: u8 = 0x02;

pub const HEADER_SUBTYPE: u8 = 0x01;

pub const MS_HEADER_SUBTYPE: u8 = 0x01;

pub const MS_GENERAL: u8 = 0x01;

pub const PROTOCOL_NONE: u8 = 0x00;

pub const MIDI_IN_SIZE: u8 = 0x06;

pub const MIDI_OUT_SIZE: u8 = 0x09;

/// The endpoint descriptors have room for this many jacks per direction.
pub const MAX_JACKS: u8 = 16;

/// Why a packet could not be moved.
#[derive(Debug, Clone, Copy, PartialEq, Eq, Structural)]
pub enum EndpointError {
    /// No endpoint was allocated for this direction.
    Disabled,
}

/// Which endpoint tells that the host has enabled the interface.
#[derive(Debug, Clone, Copy, PartialEq, Eq, Structural)]
pub enum WaitOn {
    /// The IN endpoint (device to host).
    WriteEndpoint,
    /// The OUT endpoint (host to device).
    ReadEndpoint,
}

/// External IN jack of the `i`-th IN pair.
pub open spec fn in_jack_id_ext(i: int) -> u8 {
    (2 * i + 1) as u8
}

/// Embedded OUT jack of the `i`-th IN pair.
pub open spec fn out_jack_id_emb(i: int) -> u8 {
    (2 * i + 2) as u8
}

/// External OUT jack of the `i`-th OUT pair.
pub open spec fn out_jack_id_ext(n_in_jacks: int, i: int) -> u8 {
    (2 * n_in_jacks + 2 * i + 1) as u8
}

/// Embedded IN jack of the `i`-th OUT pair.
pub open spec fn in_jack_id_emb(n_in_jacks: int, i: int) -> u8 {
    (2 * n_in_jacks + 2 * i + 2) as u8
}

/// An IN jack descriptor.
pub open spec fn in_jack(place: u8, id: u8) -> UsbItemView {
    UsbItemView::Descriptor {
        kind: CS_INTERFACE,
        data: seq![MIDI_IN_JACK_SUBTYPE, place, id, 0x00],
    }
}

/// An OUT jack descriptor, fed from the jack `source`.
pub open spec fn out_jack(place: u8, id: u8, source: u8) -> UsbItemView {
    UsbItemView::Descriptor {
        kind: CS_INTERFACE,
        data: seq![MIDI_OUT_JACK_SUBTYPE, place, id, 0x01, source, 0x01, 0x00],
    }
}

/// The class-specific endpoint descriptor that names the embedded jacks
/// behind an endpoint.
pub open spec fn endpoint_jacks(ids: Seq<u8>) -> UsbItemView {
    UsbItemView::Descriptor { kind: CS_ENDPOINT, data: seq![MS_GENERAL, ids.len() as u8] + ids }
}

/// The embedded jacks behind the OUT endpoint.
pub open spec fn out_endpoint_ids(n_in_jacks: int, n_out_jacks: int) -> Seq<u8> {
    Seq::new(n_out_jacks as nat, |i: int| in_jack_id_emb(n_in_jacks, i))
}

/// The embedded jacks behind the IN endpoint.
pub open spec fn in_endpoint_ids(n_in_jacks: int) -> Seq<u8> {
    Seq::new(n_in_jacks as nat, |i: int| out_jack_id_emb(i))
}

/// All jack descriptors: every logical jack is an IN jack and an OUT jack.
pub open spec fn jack_items(n_in_jacks: int, n_out_jacks: int) -> Seq<UsbItemView> {
    Seq::new(n_in_jacks as nat, |i: int| in_jack(EXTERNAL, in_jack_id_ext(i))) + Seq::new(
        n_out_jacks as nat,
        |i: int| in_jack(EMBEDDED, in_jack_id_emb(n_in_jacks, i)),
    ) + Seq::new(
        n_out_jacks as nat,
        |i: int|
            out_jack(EXTERNAL, out_jack_id_ext(n_in_jacks, i), in_jack_id_emb(n_in_jacks, i)),
    ) + Seq::new(
        n_in_jacks as nat,
        |i: int| out_jack(EMBEDDED, out_jack_id_emb(i), in_jack_id_ext(i)),
    )
}

/// The OUT endpoint, present only when there are OUT jacks.
pub open spec fn out_endpoint_items(
    n_in_jacks: int,
    n_out_jacks: int,
    max_packet_size: u16,
    poll_ms: u8,
) -> Seq<UsbItemView> {
    if n_out_jacks > 0 {
        seq![
            UsbItemView::InterruptOut { max_packet_size, poll_ms },
            endpoint_jacks(out_endpoint_ids(n_in_jacks, n_out_jacks)),
        ]
    } else {
        Seq::empty()
    }
}

/// The IN endpoint, present only when there are IN jacks.
pub open spec fn in_endpoint_items(
    n_in_jacks: int,
    max_packet_size: u16,
    poll_ms: u8,
) -> Seq<UsbItemView> {
    if n_in_jacks > 0 {
        seq![
            UsbItemView::InterruptIn { max_packet_size, poll_ms },
            endpoint_jacks(in_endpoint_ids(n_in_jacks)),
        ]
    } else {
        Seq::empty()
    }
}

/// The value of the header's wTotalLength field.
pub open spec fn ms_total_length(n_in_jacks: int, n_out_jacks: int) -> int {
    7 + (n_in_jacks + n_out_jacks) * (MIDI_IN_SIZE + MIDI_OUT_SIZE) + (if n_out_jacks > 0 {
        7 + 4 + n_out_jacks
    } else {
        0
    }) + (if n_in_jacks > 0 {
        7 + 4 + n_in_jacks
    } else {
        0
    })
}

/// The header of the MIDIStreaming interface; `total` is split low byte first.
pub open spec fn ms_header(total: int) -> UsbItemView {
    UsbItemView::Descriptor {
        kind: CS_INTERFACE,
        data: seq![MS_HEADER_SUBTYPE, 0x00, 0x01, (total % 256) as u8, (total / 256) as u8],
    }
}

/// Everything in the MIDIStreaming interface from its header on.
pub open spec fn ms_items(
    n_in_jacks: int,
    n_out_jacks: int,
    max_packet_size: u16,
    poll_ms: u8,
) -> Seq<UsbItemView> {
    seq![ms_header(ms_total_length(n_in_jacks, n_out_jacks))] + jack_items(
        n_in_jacks,
        n_out_jacks,
    ) + out_endpoint_items(n_in_jacks, n_out_jacks, max_packet_size, poll_ms)
        + in_endpoint_items(n_in_jacks, max_packet_size, poll_ms)
}

/// The audio control interface that points at the streaming interface.
pub open spec fn audio_control_items(audio_if: int) -> Seq<UsbItemView> {
    seq![
        UsbItemView::AltSetting {
            class: USB_AUDIO_CLASS,
            subclass: USB_AUDIOCONTROL_SUBCLASS,
            protocol: PROTOCOL_NONE,
        },
        UsbItemView::Descriptor {
            kind: CS_INTERFACE,
            data: seq![HEADER_SUBTYPE, 0x00, 0x01, 9, 0, 1, (audio_if + 1) as u8],
        },
    ]
}

/// The streaming interface.
pub open spec fn streaming_items(
    n_in_jacks: int,
    n_out_jacks: int,
    max_packet_size: u16,
    poll_ms: u8,
) -> Seq<UsbItemView> {
    seq![
        UsbItemView::AltSetting {
            class: USB_AUDIO_CLASS,
            subclass: USB_MIDISTREAMING_SUBCLASS,
            protocol: PROTOCOL_NONE,
        },
    ] + ms_items(n_in_jacks, n_out_jacks, max_packet_size, poll_ms)
}

/// Packet-level USB MIDI device using interrupt endpoints.
///
/// Both IN and OUT endpoints are only allocated when their jack count is
/// above zero; without IN jacks a packet cannot be written.
#[derive(Debug)]
pub struct MidiInterruptClass {
    /// The audio control interface, first of the function's two.
    pub control: Vec<UsbItem>,
    /// The MIDIStreaming interface, second of the function's two.
    pub streaming: Vec<UsbItem>,
    /// Whether an OUT endpoint is allocated.
    pub read_ep: bool,
    /// Whether an IN endpoint is allocated.
    pub write_ep: bool,
}

impl MidiInterruptClass {
    /// Class, subclass and protocol that the USB function is declared with.
    pub fn function_class() -> (triple: (u8, u8, u8))
        ensures
            triple == (0x01u8, 0x01u8, 0x00u8),
            triple == (USB_AUDIO_CLASS, USB_AUDIOCONTROL_SUBCLASS, PROTOCOL_NONE),
    {
        (USB_AUDIO_CLASS, USB_AUDIOCONTROL_SUBCLASS, PROTOCOL_NONE)
    }

    /// Describes a MIDI class with interrupt endpoints, whose audio control
    /// interface has the number `audio_if` and whose streaming interface
    /// follows it.
    ///
    /// `poll_ms` sets the host polling interval for both endpoints.
    pub fn new(
        audio_if: u8,
        n_in_jacks: u8,
        n_out_jacks: u8,
        max_packet_size: u16,
        poll_ms: u8,
    ) -> (midi: Self)
        requires
            audio_if < 255,
            n_in_jacks <= MAX_JACKS,
            n_out_jacks <= MAX_JACKS,
        ensures
            crate::usb_descriptors::items_view(midi.control@) == audio_control_items(
                audio_if as int,
            ),
            crate::usb_descriptors::items_view(midi.streaming@) == streaming_items(
                n_in_jacks as int,
                n_out_jacks as int,
                max_packet_size,
                poll_ms,
            ),
            midi.read_ep == (n_out_jacks > 0),
            midi.write_ep == (n_in_jacks > 0),
    {
        let control = audio_control_interface(audio_if);
        let mut streaming: Vec<UsbItem> = Vec::new();
        push_item(
            &mut streaming,
            UsbItem::AltSetting {
                class: USB_AUDIO_CLASS,
                subclass: USB_MIDISTREAMING_SUBCLASS,
                protocol: PROTOCOL_NONE,
            },
        );
        push_ms_header(&mut streaming, n_in_jacks, n_out_jacks);
        push_jacks(&mut streaming, n_in_jacks, n_out_jacks);
        let has_out_ep = n_out_jacks > 0;
        let has_in_ep = n_in_jacks > 0;
        if has_out_ep {
            push_item(&mut streaming, UsbItem::InterruptOut { max_packet_size, poll_ms });
            push_out_endpoint_jacks(&mut streaming, n_in_jacks, n_out_jacks);
        }
        if has_in_ep {
            push_item(&mut streaming, UsbItem::InterruptIn { max_packet_size, poll_ms });
            push_in_endpoint_jacks(&mut streaming, n_in_jacks);
        }
        assert(crate::usb_descriptors::items_view(streaming@) =~= streaming_items(
            n_in_jacks as int,
            n_out_jacks as int,
            max_packet_size,
            poll_ms,
        ));
        MidiInterruptClass { control, streaming, read_ep: has_out_ep, write_ep: has_in_ep }
    }

    /// The endpoint that tells that the host has enabled the interface.
    pub open spec fn waits_on(self) -> Option<WaitOn> {
        if self.write_ep {
            Some(WaitOn::WriteEndpoint)
        } else if self.read_ep {
            Some(WaitOn::ReadEndpoint)
        } else {
            None
        }
    }

    /// The bytes to hand to the IN endpoint for a single packet.
    ///
    /// `EndpointError::Disabled` if no IN endpoint was allocated.
    pub fn write_packet<'a>(&self, data: &'a [u8]) -> (r: Result<&'a [u8], EndpointError>)
        ensures
            r == (if self.write_ep {
                Ok(data)
            } else {
                Err(EndpointError::Disabled)
            }),
    {
        if self.write_ep {
            Ok(data)
        } else {
            Err(EndpointError::Disabled)
        }
    }

    /// Whether a single packet can be read from the OUT endpoint.
    ///
    /// `EndpointError::Disabled` if no OUT endpoint was allocated.
    pub fn read_packet(&self) -> (r: Result<(), EndpointError>)
        ensures
            r == (if self.read_ep {
                Ok(())
            } else {
                Err(EndpointError::Disabled)
            }),
    {
        if self.read_ep {
            Ok(())
        } else {
            Err(EndpointError::Disabled)
        }
    }

    /// The endpoint to wait on until the host enables the interface; `None`
    /// if neither endpoint was allocated.
    pub fn wait_connection(&self) -> (w: Option<WaitOn>)
        ensures
            w == (if self.write_ep {
                Some(WaitOn::WriteEndpoint)
            } else if self.read_ep {
                Some(WaitOn::ReadEndpoint)
            } else {
                None
            }),
            w == self.waits_on(),
    {
        if self.write_ep {
            Some(WaitOn::WriteEndpoint)
        } else if self.read_ep {
            Some(WaitOn::ReadEndpoint)
        } else {
            None
        }
    }
}

/// The audio control interface.
fn audio_control_interface(audio_if: u8) -> (items: Vec<UsbItem>)
    requires
        audio_if < 255,
    ensures
        crate::usb_descriptors::items_view(items@) == audio_control_items(audio_if as int),
{
    let midi_if: u8 = audio_if + 1;
    let n_collections: u8 = 1;
    let ac_total_len: u16 = 8 + n_collections as u16;
    let mut items: Vec<UsbItem> = Vec::new();
    push_item(
        &mut items,
        UsbItem::AltSetting {
            class: USB_AUDIO_CLASS,
            subclass: USB_AUDIOCONTROL_SUBCLASS,
            protocol: PROTOCOL_NONE,
        },
    );
    let low: u8 = (ac_total_len % 256) as u8;
    let high: u8 = (ac_total_len / 256) as u8;
    let data: Vec<u8> = vec![HEADER_SUBTYPE, 0x00, 0x01, low, high, n_collections, midi_if];
    assert(data@ =~= seq![HEADER_SUBTYPE, 0x00, 0x01, 9, 0, 1, (audio_if + 1) as u8]);
    push_descriptor(&mut items, CS_INTERFACE, data);
    assert(crate::usb_descriptors::items_view(items@) =~= audio_control_items(audio_if as int));
    items
}

/// Append the header of the streaming interface.
fn push_ms_header(items: &mut Vec<UsbItem>, n_in_jacks: u8, n_out_jacks: u8)
    requires
        n_in_jacks <= MAX_JACKS,
        n_out_jacks <= MAX_JACKS,
    ensures
        crate::usb_descriptors::items_view(final(items)@) == crate::usb_descriptors::items_view(
            old(items)@,
        ).push(ms_header(ms_total_length(n_in_jacks as int, n_out_jacks as int))),
{
    let out_size: usize = if n_out_jacks > 0 {
        7 + (4 + n_out_jacks as usize)
    } else {
        0
    };
    let in_size: usize = if n_in_jacks > 0 {
        7 + (4 + n_in_jacks as usize)
    } else {
        0
    };
    let jacks: usize = n_in_jacks as usize + n_out_jacks as usize;
    let jack_size: usize = MIDI_IN_SIZE as usize + MIDI_OUT_SIZE as usize;
    assert(jacks * jack_size == 15 * jacks) by (nonlinear_arith)
        requires
            jack_size == 15,
    ;
    let total: usize = 7 + jacks * jack_size + out_size + in_size;
    let low: u8 = (total % 256) as u8;
    let high: u8 = (total / 256) as u8;
    let data: Vec<u8> = vec![MS_HEADER_SUBTYPE, 0x00, 0x01, low, high];
    assert(data@ =~= ms_header(ms_total_length(n_in_jacks as int, n_out_jacks as int))->data);
    push_descriptor(items, CS_INTERFACE, data);
}

/// Append all jack descriptors.
fn push_jacks(items: &mut Vec<UsbItem>, n_in_jacks: u8, n_out_jacks: u8)
    requires
        n_in_jacks <= MAX_JACKS,
        n_out_jacks <= MAX_JACKS,
    ensures
        crate::usb_descriptors::items_view(final(items)@) == crate::usb_descriptors::items_view(
            old(items)@,
        ) + jack_items(n_in_jacks as int, n_out_jacks as int),
{
    let ghost start = crate::usb_descriptors::items_view(items@);
    let ghost n_in = n_in_jacks as int;
    let ghost s1 = start + Seq::new(
        n_in_jacks as nat,
        |i: int| in_jack(EXTERNAL, in_jack_id_ext(i)),
    );
    let ghost s2 = s1 + Seq::new(
        n_out_jacks as nat,
        |i: int| in_jack(EMBEDDED, in_jack_id_emb(n_in, i)),
    );
    let ghost s3 = s2 + Seq::new(
        n_out_jacks as nat,
        |i: int| out_jack(EXTERNAL, out_jack_id_ext(n_in, i), in_jack_id_emb(n_in, i)),
    );
    let ghost s4 = s3 + Seq::new(
        n_in_jacks as nat,
        |i: int| out_jack(EMBEDDED, out_jack_id_emb(i), in_jack_id_ext(i)),
    );
    let mut i: u8 = 0;
    while i < n_in_jacks
        invariant
            i <= n_in_jacks <= MAX_JACKS,
            s1.len() == start.len() + n_in_jacks,
            crate::usb_descriptors::items_view(items@) == s1.take(start.len() + i),
            forall|k: int|
                0 <= k < n_in_jacks ==> #[trigger] s1[start.len() + k] == in_jack(
                    EXTERNAL,
                    in_jack_id_ext(k),
                ),
        decreases n_in_jacks - i,
    {
        let data: Vec<u8> = vec![MIDI_IN_JACK_SUBTYPE, EXTERNAL, 2 * i + 1, 0x00];
        assert(data@ =~= in_jack(EXTERNAL, in_jack_id_ext(i as int))->data);
        push_descriptor(items, CS_INTERFACE, data);
        assert(s1[start.len() + i] == in_jack(EXTERNAL, in_jack_id_ext(i as int)));
        assert(crate::usb_descriptors::items_view(items@) =~= s1.take(start.len() + i + 1));
        i = i + 1;
    }
    i = 0;
    while i < n_out_jacks
        invariant
            i <= n_out_jacks <= MAX_JACKS,
            n_in == n_in_jacks <= MAX_JACKS,
            s2.len() == s1.len() + n_out_jacks,
            crate::usb_descriptors::items_view(items@) == s2.take(s1.len() + i),
            forall|k: int|
                0 <= k < n_out_jacks ==> #[trigger] s2[s1.len() + k] == in_jack(
                    EMBEDDED,
                    in_jack_id_emb(n_in, k),
                ),
        decreases n_out_jacks - i,
    {
        let data: Vec<u8> = vec![
            MIDI_IN_JACK_SUBTYPE,
            EMBEDDED,
            2 * n_in_jacks + 2 * i + 2,
            0x00,
        ];
        assert(data@ =~= in_jack(EMBEDDED, in_jack_id_emb(n_in, i as int))->data);
        push_descriptor(items, CS_INTERFACE, data);
        assert(s2[s1.len() + i] == in_jack(EMBEDDED, in_jack_id_emb(n_in, i as int)));
        assert(crate::usb_descriptors::items_view(items@) =~= s2.take(s1.len() + i + 1));
        i = i + 1;
    }
    i = 0;
    while i < n_out_jacks
        invariant
            i <= n_out_jacks <= MAX_JACKS,
            n_in == n_in_jacks <= MAX_JACKS,
            s3.len() == s2.len() + n_out_jacks,
            crate::usb_descriptors::items_view(items@) == s3.take(s2.len() + i),
            forall|k: int|
                0 <= k < n_out_jacks ==> #[trigger] s3[s2.len() + k] == out_jack(
                    EXTERNAL,
                    out_jack_id_ext(n_in, k),
                    in_jack_id_emb(n_in, k),
                ),
        decreases n_out_jacks - i,
    {
        let data: Vec<u8> = vec![
            MIDI_OUT_JACK_SUBTYPE,
            EXTERNAL,
            2 * n_in_jacks + 2 * i + 1,
            0x01,
            2 * n_in_jacks + 2 * i + 2,
            0x01,
            0x00,
        ];
        let ghost item = out_jack(
            EXTERNAL,
            out_jack_id_ext(n_in, i as int),
            in_jack_id_emb(n_in, i as int),
        );
        assert(data@ =~= item->data);
        push_descriptor(items, CS_INTERFACE, data);
        assert(s3[s2.len() + i] == item);
        assert(crate::usb_descriptors::items_view(items@) =~= s3.take(s2.len() + i + 1));
        i = i + 1;
    }
    i = 0;
    while i < n_in_jacks
        invariant
            i <= n_in_jacks <= MAX_JACKS,
            s4.len() == s3.len() + n_in_jacks,
            crate::usb_descriptors::items_view(items@) == s4.take(s3.len() + i),
            forall|k: int|
                0 <= k < n_in_jacks ==> #[trigger] s4[s3.len() + k] == out_jack(
                    EMBEDDED,
                    out_jack_id_emb(k),
                    in_jack_id_ext(k),
                ),
        decreases n_in_jacks - i,
    {
        let data: Vec<u8> = vec![
            MIDI_OUT_JACK_SUBTYPE,
            EMBEDDED,
            2 * i + 2,
            0x01,
            2 * i + 1,
            0x01,
            0x00,
        ];
        let ghost item = out_jack(
            EMBEDDED,
            out_jack_id_emb(i as int),
            in_jack_id_ext(i as int),
        );
        assert(data@ =~= item->data);
        push_descriptor(items, CS_INTERFACE, data);
        assert(s4[s3.len() + i] == item);
        assert(crate::usb_descriptors::items_view(items@) =~= s4.take(s3.len() + i + 1));
        i = i + 1;
    }
    assert(s4 =~= start + jack_items(n_in_jacks as int, n_out_jacks as int));
}

/// Append the descriptor of the jacks behind the OUT endpoint.
fn push_out_endpoint_jacks(items: &mut Vec<UsbItem>, n_in_jacks: u8, n_out_jacks: u8)
    requires
        n_in_jacks <= MAX_JACKS,
        n_out_jacks <= MAX_JACKS,
    ensures
        crate::usb_descriptors::items_view(final(items)@) == crate::usb_descriptors::items_view(
            old(items)@,
        ).push(endpoint_jacks(out_endpoint_ids(n_in_jacks as int, n_out_jacks as int))),
{
    let ghost ids = out_endpoint_ids(n_in_jacks as int, n_out_jacks as int);
    let mut data: Vec<u8> = vec![MS_GENERAL, n_out_jacks];
    let mut i: u8 = 0;
    while i < n_out_jacks
        invariant
            i <= n_out_jacks <= MAX_JACKS,
            n_in_jacks <= MAX_JACKS,
            ids == out_endpoint_ids(n_in_jacks as int, n_out_jacks as int),
            data@ =~= seq![MS_GENERAL, n_out_jacks] + ids.take(i as int),
        decreases n_out_jacks - i,
    {
        data.push(2 * n_in_jacks + 2 * i + 2);
        i = i + 1;
    }
    assert(ids.take(n_out_jacks as int) =~= ids);
    push_descriptor(items, CS_ENDPOINT, data);
}

/// Append the descriptor of the jacks behind the IN endpoint.
fn push_in_endpoint_jacks(items: &mut Vec<UsbItem>, n_in_jacks: u8)
    requires
        n_in_jacks <= MAX_JACKS,
    ensures
        crate::usb_descriptors::items_view(final(items)@) == crate::usb_descriptors::items_view(
            old(items)@,
        ).push(endpoint_jacks(in_endpoint_ids(n_in_jacks as int))),
{
    let ghost ids = in_endpoint_ids(n_in_jacks as int);
    let mut data: Vec<u8> = vec![MS_GENERAL, n_in_jacks];
    let mut i: u8 = 0;
    while i < n_in_jacks
        invariant
            i <= n_in_jacks <= MAX_JACKS,
            ids == in_endpoint_ids(n_in_jacks as int),
            data@ =~= seq![MS_GENERAL, n_in_jacks] + ids.take(i as int),
        decreases n_in_jacks - i,
    {
        data.push(2 * i + 2);
        i = i + 1;
    }
    assert(ids.take(n_in_jacks as int) =~= ids);
    push_descriptor(items, CS_ENDPOINT, data);
}

/// The jack descriptors take 15 bytes per logical jack.
proof fn lemma_jacks_size(n_in_jacks: int, n_out_jacks: int)
    requires
        0 <= n_in_jacks <= MAX_JACKS,
        0 <= n_out_jacks <= MAX_JACKS,
    ensures
        crate::usb_descriptors::total_size(jack_items(n_in_jacks, n_out_jacks)) == 15 * (
        n_in_jacks + n_out_jacks),
{
    let n_in = n_in_jacks as nat;
    let n_out = n_out_jacks as nat;
    let j1 = Seq::new(n_in, |i: int| in_jack(EXTERNAL, in_jack_id_ext(i)));
    let j2 = Seq::new(n_out, |i: int| in_jack(EMBEDDED, in_jack_id_emb(n_in_jacks, i)));
    let j3 = Seq::new(
        n_out,
        |i: int|
            out_jack(EXTERNAL, out_jack_id_ext(n_in_jacks, i), in_jack_id_emb(n_in_jacks, i)),
    );
    let j4 = Seq::new(n_in, |i: int| out_jack(EMBEDDED, out_jack_id_emb(i), in_jack_id_ext(i)));
    crate::usb_descriptors::lemma_total_size_uniform(j1, 6);
    crate::usb_descriptors::lemma_total_size_uniform(j2, 6);
    crate::usb_descriptors::lemma_total_size_uniform(j3, 9);
    crate::usb_descriptors::lemma_total_size_uniform(j4, 9);
    crate::usb_descriptors::lemma_total_size_concat(j1, j2);
    crate::usb_descriptors::lemma_total_size_concat(j1 + j2, j3);
    crate::usb_descriptors::lemma_total_size_concat(j1 + j2 + j3, j4);
    assert(jack_items(n_in_jacks, n_out_jacks) == j1 + j2 + j3 + j4);
}

/// An endpoint takes its standard descriptor and one byte per jack behind it.
proof fn lemma_endpoint_size(endpoint: UsbItemView, ids: Seq<u8>)
    requires
        endpoint.size() == 7,
    ensures
        crate::usb_descriptors::total_size(seq![endpoint, endpoint_jacks(ids)]) == 7 + 4
            + ids.len(),
{
    let items = seq![endpoint, endpoint_jacks(ids)];
    reveal_with_fuel(crate::usb_descriptors::total_size, 3);
    assert(items.drop_last() =~= seq![endpoint]);
    assert(items.drop_last().drop_last() =~= Seq::empty());
}

/// The header's wTotalLength is the number of bytes from the header to the
/// end of the interface: all jack and endpoint descriptors are counted. It
/// fits its two bytes.
#[verifier::spinoff_prover]
pub proof fn law_total_length_covers_everything(
    n_in_jacks: int,
    n_out_jacks: int,
    max_packet_size: u16,
    poll_ms: u8,
)
    requires
        0 <= n_in_jacks <= MAX_JACKS,
        0 <= n_out_jacks <= MAX_JACKS,
    ensures
        crate::usb_descriptors::total_size(
            ms_items(n_in_jacks, n_out_jacks, max_packet_size, poll_ms),
        ) == ms_total_length(n_in_jacks, n_out_jacks),
        ms_header(ms_total_length(n_in_jacks, n_out_jacks))->data[3] as int + 256
            * ms_header(ms_total_length(n_in_jacks, n_out_jacks))->data[4] as int
            == ms_total_length(n_in_jacks, n_out_jacks),
{
    let header = seq![ms_header(ms_total_length(n_in_jacks, n_out_jacks))];
    let jacks = jack_items(n_in_jacks, n_out_jacks);
    let out_ep = out_endpoint_items(n_in_jacks, n_out_jacks, max_packet_size, poll_ms);
    let in_ep = in_endpoint_items(n_in_jacks, max_packet_size, poll_ms);
    assert(crate::usb_descriptors::total_size(header) == 7) by {
        assert(header.drop_last() =~= Seq::empty());
        reveal_with_fuel(crate::usb_descriptors::total_size, 2);
    }
    lemma_jacks_size(n_in_jacks, n_out_jacks);
    lemma_endpoint_size(
        UsbItemView::InterruptOut { max_packet_size, poll_ms },
        out_endpoint_ids(n_in_jacks, n_out_jacks),
    );
    lemma_endpoint_size(
        UsbItemView::InterruptIn { max_packet_size, poll_ms },
        in_endpoint_ids(n_in_jacks),
    );
    crate::usb_descriptors::lemma_total_size_concat(header, jacks);
    crate::usb_descriptors::lemma_total_size_concat(header + jacks, out_ep);
    crate::usb_descriptors::lemma_total_size_concat(header + jacks + out_ep, in_ep);
}

/// The audio control header's wTotalLength counts the header itself, the only
/// class-specific descriptor of that interface.
pub proof fn law_audio_control_length(audio_if: int)
    ensures
        audio_control_items(audio_if)[1]->data[3] as int + 256
            * audio_control_items(audio_if)[1]->data[4] as int == audio_control_items(
            audio_if,
        )[1].size(),
{
}

/// The item is a jack descriptor.
pub open spec fn is_jack(item: UsbItemView) -> bool {
    item matches UsbItemView::Descriptor { kind, data } && kind == CS_INTERFACE && data.len() >= 4
        && (data[0] == MIDI_IN_JACK_SUBTYPE || data[0] == MIDI_OUT_JACK_SUBTYPE)
}

/// The identifier of a jack.
pub open spec fn jack_id(item: UsbItemView) -> u8 {
    item->data[2]
}

/// The `i`-th jack descriptor, and which of the four groups it is in.
proof fn lemma_jack_at(n_in_jacks: int, n_out_jacks: int, i: int)
    requires
        0 <= n_in_jacks <= MAX_JACKS,
        0 <= n_out_jacks <= MAX_JACKS,
        0 <= i < 2 * n_in_jacks + 2 * n_out_jacks,
    ensures
        jack_items(n_in_jacks, n_out_jacks).len() == 2 * n_in_jacks + 2 * n_out_jacks,
        jack_items(n_in_jacks, n_out_jacks)[i] == (if i < n_in_jacks {
            in_jack(EXTERNAL, in_jack_id_ext(i))
        } else if i < n_in_jacks + n_out_jacks {
            in_jack(EMBEDDED, in_jack_id_emb(n_in_jacks, i - n_in_jacks))
        } else if i < n_in_jacks + 2 * n_out_jacks {
            out_jack(
                EXTERNAL,
                out_jack_id_ext(n_in_jacks, i - n_in_jacks - n_out_jacks),
                in_jack_id_emb(n_in_jacks, i - n_in_jacks - n_out_jacks),
            )
        } else {
            out_jack(
                EMBEDDED,
                out_jack_id_emb(i - n_in_jacks - 2 * n_out_jacks),
                in_jack_id_ext(i - n_in_jacks - 2 * n_out_jacks),
            )
        }),
{
}

/// The `k`-th of all jack descriptors.
pub open spec fn jack(n_in_jacks: int, n_out_jacks: int, k: int) -> UsbItemView {
    jack_items(n_in_jacks, n_out_jacks)[k]
}

/// The item is an OUT jack descriptor.
pub open spec fn is_out_jack(item: UsbItemView) -> bool {
    is_jack(item) && item->data[0] == MIDI_OUT_JACK_SUBTYPE
}

/// Whether a jack is embedded or external.
pub open spec fn jack_place(item: UsbItemView) -> u8 {
    item->data[1]
}

/// The jack that an OUT jack is fed from.
pub open spec fn jack_source(item: UsbItemView) -> u8 {
    item->data[4]
}

/// Every jack has an identifier of its own, between 1 and the number of jack
/// descriptors, of which there are two per logical jack.
#[verifier::spinoff_prover]
pub proof fn law_jack_ids_are_distinct(n_in_jacks: int, n_out_jacks: int, i: int, j: int)
    requires
        0 <= n_in_jacks <= MAX_JACKS,
        0 <= n_out_jacks <= MAX_JACKS,
        0 <= i < jack_items(n_in_jacks, n_out_jacks).len(),
        0 <= j < jack_items(n_in_jacks, n_out_jacks).len(),
    ensures
        jack_items(n_in_jacks, n_out_jacks).len() == 2 * (n_in_jacks + n_out_jacks),
        is_jack(jack(n_in_jacks, n_out_jacks, i)),
        1 <= jack_id(jack(n_in_jacks, n_out_jacks, i)) <= 2 * (n_in_jacks + n_out_jacks),
        i != j ==> jack_id(jack(n_in_jacks, n_out_jacks, i)) != jack_id(
            jack(n_in_jacks, n_out_jacks, j),
        ),
{
    assert(jack_items(n_in_jacks, n_out_jacks).len() == 2 * n_in_jacks + 2 * n_out_jacks);
    lemma_jack_at(n_in_jacks, n_out_jacks, i);
    lemma_jack_at(n_in_jacks, n_out_jacks, j);
}

/// No identifier is left out: every number from 1 to the number of jack
/// descriptors is the identifier of a jack.
#[verifier::spinoff_prover]
pub proof fn law_jack_ids_are_consecutive(n_in_jacks: int, n_out_jacks: int, id: int)
    requires
        0 <= n_in_jacks <= MAX_JACKS,
        0 <= n_out_jacks <= MAX_JACKS,
        1 <= id <= 2 * (n_in_jacks + n_out_jacks),
    ensures
        exists|k: int|
            0 <= k < jack_items(n_in_jacks, n_out_jacks).len() && jack_id(
                #[trigger] jack(n_in_jacks, n_out_jacks, k),
            ) == id,
{
    let pair = (id - 1) / 2;
    // Odd identifiers are external, even ones embedded; IN pairs come first.
    let k = if pair < n_in_jacks {
        if id % 2 == 1 {
            pair
        } else {
            n_in_jacks + 2 * n_out_jacks + pair
        }
    } else {
        if id % 2 == 1 {
            n_out_jacks + pair
        } else {
            pair
        }
    };
    lemma_jack_at(n_in_jacks, n_out_jacks, k);
    assert(jack_id(jack(n_in_jacks, n_out_jacks, k)) == id);
}

/// Every OUT jack is fed from an IN jack that exists and is of the other
/// place: an embedded one from an external one, and the reverse. No IN jack
/// feeds two OUT jacks.
pub proof fn law_out_jacks_are_fed(n_in_jacks: int, n_out_jacks: int, i: int, j: int)
    requires
        0 <= n_in_jacks <= MAX_JACKS,
        0 <= n_out_jacks <= MAX_JACKS,
        0 <= i < jack_items(n_in_jacks, n_out_jacks).len(),
        0 <= j < jack_items(n_in_jacks, n_out_jacks).len(),
        is_out_jack(jack(n_in_jacks, n_out_jacks, i)),
        is_out_jack(jack(n_in_jacks, n_out_jacks, j)),
    ensures
        exists|k: int|
            0 <= k < jack_items(n_in_jacks, n_out_jacks).len() && !is_out_jack(
                #[trigger] jack(n_in_jacks, n_out_jacks, k),
            ) && jack_id(jack(n_in_jacks, n_out_jacks, k)) == jack_source(
                jack(n_in_jacks, n_out_jacks, i),
            ) && jack_place(jack(n_in_jacks, n_out_jacks, k)) != jack_place(
                jack(n_in_jacks, n_out_jacks, i),
            ),
        i != j ==> jack_source(jack(n_in_jacks, n_out_jacks, i)) != jack_source(
            jack(n_in_jacks, n_out_jacks, j),
        ),
{
    assert(jack_items(n_in_jacks, n_out_jacks).len() == 2 * n_in_jacks + 2 * n_out_jacks);
    lemma_jack_at(n_in_jacks, n_out_jacks, i);
    lemma_jack_at(n_in_jacks, n_out_jacks, j);
    let k = if i < n_in_jacks + 2 * n_out_jacks {
        i - n_out_jacks
    } else {
        i - n_in_jacks - 2 * n_out_jacks
    };
    lemma_jack_at(n_in_jacks, n_out_jacks, k);
    assert(jack_id(jack(n_in_jacks, n_out_jacks, k)) == jack_source(
        jack(n_in_jacks, n_out_jacks, i),
    ));
}

/// Every jack that an endpoint names exists and is embedded: IN jacks behind
/// the OUT endpoint, OUT jacks behind the IN endpoint.
pub proof fn law_endpoint_jacks_exist(n_in_jacks: int, n_out_jacks: int, id: u8)
    requires
        0 <= n_in_jacks <= MAX_JACKS,
        0 <= n_out_jacks <= MAX_JACKS,
        out_endpoint_ids(n_in_jacks, n_out_jacks).contains(id) || in_endpoint_ids(
            n_in_jacks,
        ).contains(id),
    ensures
        exists|k: int|
            0 <= k < jack_items(n_in_jacks, n_out_jacks).len() && jack_id(
                #[trigger] jack(n_in_jacks, n_out_jacks, k),
            ) == id && jack_place(jack(n_in_jacks, n_out_jacks, k)) == EMBEDDED && is_out_jack(
                jack(n_in_jacks, n_out_jacks, k),
            ) == in_endpoint_ids(n_in_jacks).contains(id),
{
    let out_ids = out_endpoint_ids(n_in_jacks, n_out_jacks);
    let in_ids = in_endpoint_ids(n_in_jacks);
    if in_ids.contains(id) {
        let i = choose|i: int| 0 <= i < in_ids.len() && in_ids[i] == id;
        let k = n_in_jacks + 2 * n_out_jacks + i;
        lemma_jack_at(n_in_jacks, n_out_jacks, k);
        assert(jack_id(jack(n_in_jacks, n_out_jacks, k)) == id);
    } else {
        let i = choose|i: int| 0 <= i < out_ids.len() && out_ids[i] == id;
        lemma_jack_at(n_in_jacks, n_out_jacks, n_in_jacks + i);
        assert(jack_id(jack(n_in_jacks, n_out_jacks, n_in_jacks + i)) == id);
    }
}

/// Every embedded jack is named by its endpoint: an OUT jack by the IN
/// endpoint, an IN jack by the OUT endpoint.
pub proof fn law_embedded_jacks_are_named(n_in_jacks: int, n_out_jacks: int, k: int)
    requires
        0 <= n_in_jacks <= MAX_JACKS,
        0 <= n_out_jacks <= MAX_JACKS,
        0 <= k < jack_items(n_in_jacks, n_out_jacks).len(),
        jack_place(jack(n_in_jacks, n_out_jacks, k)) == EMBEDDED,
    ensures
        is_out_jack(jack(n_in_jacks, n_out_jacks, k)) ==> in_endpoint_ids(n_in_jacks).contains(
            jack_id(jack(n_in_jacks, n_out_jacks, k)),
        ),
        !is_out_jack(jack(n_in_jacks, n_out_jacks, k)) ==> out_endpoint_ids(
            n_in_jacks,
            n_out_jacks,
        ).contains(jack_id(jack(n_in_jacks, n_out_jacks, k))),
{
    assert(jack_items(n_in_jacks, n_out_jacks).len() == 2 * n_in_jacks + 2 * n_out_jacks);
    lemma_jack_at(n_in_jacks, n_out_jacks, k);
    let id = jack_id(jack(n_in_jacks, n_out_jacks, k));
    if is_out_jack(jack(n_in_jacks, n_out_jacks, k)) {
        assert(in_endpoint_ids(n_in_jacks)[k - n_in_jacks - 2 * n_out_jacks] == id);
    } else {
        assert(out_endpoint_ids(n_in_jacks, n_out_jacks)[k - n_in_jacks] == id);
    }
}

/// Which jack descriptor is what: first the IN jacks, external ones of the IN
/// pairs before embedded ones of the OUT pairs, then the OUT jacks, external
/// ones of the OUT pairs before embedded ones of the IN pairs. The pairs are
/// numbered through, IN pairs first, with the odd number for the external jack
/// and the even one for the embedded jack; an OUT jack is fed by the other
/// jack of its pair.
#[verifier::spinoff_prover]
pub proof fn law_jack_descriptors(n_in_jacks: int, n_out_jacks: int, i: int)
    requires
        0 <= n_in_jacks <= MAX_JACKS,
        0 <= n_out_jacks <= MAX_JACKS,
        0 <= i < 2 * (n_in_jacks + n_out_jacks),
    ensures
        ({
            let n = n_in_jacks + n_out_jacks;
            let external = i < n_in_jacks || n <= i < n + n_out_jacks;
            // Which of all pairs the jack belongs to.
            let pair = if i < n {
                i
            } else if i < n + n_out_jacks {
                i - n_out_jacks
            } else {
                i - n - n_out_jacks
            };
            let ext = 2 * pair + 1;
            let emb = 2 * pair + 2;
            &&& jack(n_in_jacks, n_out_jacks, i) matches UsbItemView::Descriptor { kind, data }
            &&& kind == 0x24
            &&& data.len() == (if i < n { 4int } else { 7 })
            &&& data[0] == (if i < n { 2int } else { 3 })
            &&& data[1] == (if external { 2int } else { 1 })
            &&& data[2] == (if external { ext } else { emb })
            &&& i < n ==> data[3] == 0
            &&& i >= n ==> data[3] == 1 && data[4] == (if external { emb } else { ext })
            &&& i >= n ==> data[5] == 1 && data[6] == 0
        }),
{
    lemma_jack_at(n_in_jacks, n_out_jacks, i);
}

/// What the function declares: an audio control interface whose header points
/// at the interface that follows it, and a MIDIStreaming interface that begins
/// with its header, whose length covers all from there on, and ends with its
/// endpoints. An endpoint is there exactly
/// if there are jacks for it, with the packet size and the polling interval
/// that were asked for, and the list of its jacks right behind it.
#[verifier::spinoff_prover]
pub proof fn law_interfaces_are_declared(
    audio_if: int,
    n_in_jacks: int,
    n_out_jacks: int,
    max_packet_size: u16,
    poll_ms: u8,
)
    requires
        0 <= audio_if < 255,
        0 <= n_in_jacks <= MAX_JACKS,
        0 <= n_out_jacks <= MAX_JACKS,
    ensures
        MAX_JACKS == 16,
        ({
            let control = audio_control_items(audio_if);
            &&& control.len() == 2
            &&& control[0] == (UsbItemView::AltSetting { class: 1, subclass: 1, protocol: 0 })
            &&& control[1] matches UsbItemView::Descriptor { kind, data }
            &&& kind == 0x24 && data.len() == 7
            &&& data[0] == 1 && data[1] == 0 && data[2] == 1
            &&& data[5] == 1 && data[6] == audio_if + 1
        }),
        ({
            let items = streaming_items(n_in_jacks, n_out_jacks, max_packet_size, poll_ms);
            let jacks = 2 * (n_in_jacks + n_out_jacks);
            let out_at = 2 + jacks;
            let in_at = if n_out_jacks > 0 { out_at + 2 } else { out_at };
            &&& items.len() == (if n_in_jacks > 0 { in_at + 2 } else { in_at })
            &&& items[0] == (UsbItemView::AltSetting { class: 1, subclass: 3, protocol: 0 })
            &&& items[1] is Descriptor && items[1]->kind == 0x24 && items[1]->data.len() == 5
            &&& items[1]->data[0] == 1 && items[1]->data[1] == 0 && items[1]->data[2] == 1
            &&& items[1]->data[3] as int + 256 * items[1]->data[4] as int
                == crate::usb_descriptors::total_size(items.skip(1))
            &&& items.subrange(2, 2 + jacks) == jack_items(n_in_jacks, n_out_jacks)
            &&& n_out_jacks > 0 ==> {
                &&& items[out_at] == (UsbItemView::InterruptOut { max_packet_size, poll_ms })
                &&& items[out_at + 1] is Descriptor && items[out_at + 1]->kind == 0x25
                &&& items[out_at + 1]->data.len() == 2 + n_out_jacks
                &&& items[out_at + 1]->data[0] == 1
                &&& items[out_at + 1]->data[1] == n_out_jacks
                &&& items[out_at + 1]->data.skip(2) == out_endpoint_ids(n_in_jacks, n_out_jacks)
            }
            &&& n_in_jacks > 0 ==> {
                &&& items[in_at] == (UsbItemView::InterruptIn { max_packet_size, poll_ms })
                &&& items[in_at + 1] is Descriptor && items[in_at + 1]->kind == 0x25
                &&& items[in_at + 1]->data.len() == 2 + n_in_jacks
                &&& items[in_at + 1]->data[0] == 1
                &&& items[in_at + 1]->data[1] == n_in_jacks
                &&& items[in_at + 1]->data.skip(2) == in_endpoint_ids(n_in_jacks)
            }
        }),
{
    let items = streaming_items(n_in_jacks, n_out_jacks, max_packet_size, poll_ms);
    let jacks = jack_items(n_in_jacks, n_out_jacks);
    assert(jacks.len() == 2 * (n_in_jacks + n_out_jacks));
    assert(items.subrange(2, 2 + jacks.len() as int) =~= jacks);
    law_total_length_covers_everything(n_in_jacks, n_out_jacks, max_packet_size, poll_ms);
    assert(items.skip(1) =~= ms_items(n_in_jacks, n_out_jacks, max_packet_size, poll_ms));
    let out_ids = out_endpoint_ids(n_in_jacks, n_out_jacks);
    let in_ids = in_endpoint_ids(n_in_jacks);
    assert((seq![MS_GENERAL, out_ids.len() as u8] + out_ids).skip(2) =~= out_ids);
    assert((seq![MS_GENERAL, in_ids.len() as u8] + in_ids).skip(2) =~= in_ids);
}

/// An endpoint lists its jacks in order, each once: the embedded jacks of the
/// IN pairs are the first even numbers, those of the OUT pairs the next ones.
pub proof fn law_endpoints_list_jacks_in_order(n_in_jacks: int, n_out_jacks: int, i: int)
    requires
        0 <= n_in_jacks <= MAX_JACKS,
        0 <= n_out_jacks <= MAX_JACKS,
    ensures
        in_endpoint_ids(n_in_jacks).len() == n_in_jacks,
        out_endpoint_ids(n_in_jacks, n_out_jacks).len() == n_out_jacks,
        0 <= i < n_in_jacks ==> in_endpoint_ids(n_in_jacks)[i] == 2 * (i + 1),
        0 <= i < n_out_jacks ==> out_endpoint_ids(n_in_jacks, n_out_jacks)[i] == 2 * (n_in_jacks + i
            + 1),
{
}

/// The task waits on an endpoint that is there, on the IN endpoint if it is,
/// and waits for nothing exactly if there is none.
pub proof fn law_waits_on_an_endpoint(midi: MidiInterruptClass)
    ensures
        midi.waits_on() == Some(WaitOn::WriteEndpoint) <==> midi.write_ep,
        midi.waits_on() == Some(WaitOn::ReadEndpoint) <==> midi.read_ep && !midi.write_ep,
        midi.waits_on() is None <==> !midi.read_ep && !midi.write_ep,
{
}

} // verus!
