//! What a USB function adds to the configuration descriptor, as plain values.

use vstd::prelude::*;

verus! {

/// Class-specific interface descriptor type.
pub const CS_INTERFACE: u8 = 0x24;

/// Class-specific endpoint descriptor type.
pub const CS_ENDPOINT: u8 = 0x25;

/// One step of describing an interface, in the order in which the descriptors
/// appear.
#[derive(Debug)]
pub enum UsbItem {
    /// An alternate setting (a standard interface descriptor).
    AltSetting { class: u8, subclass: u8, protocol: u8 },
    /// A class-specific descriptor: its type, and what follows the type byte.
    Descriptor { kind: u8, data: Vec<u8> },
    /// An interrupt endpoint, device to host.
    InterruptIn { max_packet_size: u16, poll_ms: u8 },
    /// An interrupt endpoint, host to device.
    InterruptOut { max_packet_size: u16, poll_ms: u8 },
    /// A bulk endpoint, device to host.
    BulkIn { max_packet_size: u16 },
    /// A bulk endpoint, host to device.
    BulkOut { max_packet_size: u16 },
}

/// A [`UsbItem`] with its bytes as a sequence.
pub enum UsbItemView {
    AltSetting { class: u8, subclass: u8, protocol: u8 },
    Descriptor { kind: u8, data: Seq<u8> },
    InterruptIn { max_packet_size: u16, poll_ms: u8 },
    InterruptOut { max_packet_size: u16, poll_ms: u8 },
    BulkIn { max_packet_size: u16 },
    BulkOut { max_packet_size: u16 },
}

impl View for UsbItem {
    type V = UsbItemView;

    open spec fn view(&self) -> UsbItemView {
        match *self {
            UsbItem::AltSetting { class, subclass, protocol } => UsbItemView::AltSetting {
                class,
                subclass,
                protocol,
            },
            UsbItem::Descriptor { kind, data } => UsbItemView::Descriptor { kind, data: data@ },
            UsbItem::InterruptIn { max_packet_size, poll_ms } => UsbItemView::InterruptIn {
                max_packet_size,
                poll_ms,
            },
            UsbItem::InterruptOut { max_packet_size, poll_ms } => UsbItemView::InterruptOut {
                max_packet_size,
                poll_ms,
            },
            UsbItem::BulkIn { max_packet_size } => UsbItemView::BulkIn { max_packet_size },
            UsbItem::BulkOut { max_packet_size } => UsbItemView::BulkOut { max_packet_size },
        }
    }
}

impl UsbItemView {
    /// How many bytes the item takes in the configuration descriptor: a
    /// length and a type byte, then the data.
    pub open spec fn size(self) -> nat {
        match self {
            UsbItemView::AltSetting { .. } => 9,
            UsbItemView::Descriptor { data, .. } => 2 + data.len(),
            UsbItemView::InterruptIn { .. } => 7,
            UsbItemView::InterruptOut { .. } => 7,
            UsbItemView::BulkIn { .. } => 7,
            UsbItemView::BulkOut { .. } => 7,
        }
    }
}

/// The items of an interface with their bytes as sequences.
pub open spec fn items_view(items: Seq<UsbItem>) -> Seq<UsbItemView> {
    items.map_values(|item: UsbItem| item@)
}

/// How many bytes a run of items takes in the configuration descriptor.
pub open spec fn total_size(items: Seq<UsbItemView>) -> nat
    decreases items.len(),
{
    if items.len() == 0 {
        0
    } else {
        total_size(items.drop_last()) + items.last().size()
    }
}

/// The size of two runs is the sum of their sizes.
pub proof fn lemma_total_size_concat(a: Seq<UsbItemView>, b: Seq<UsbItemView>)
    ensures
        total_size(a + b) == total_size(a) + total_size(b),
    decreases b.len(),
{
    if b.len() == 0 {
        assert(a + b =~= a);
    } else {
        lemma_total_size_concat(a, b.drop_last());
        assert((a + b).drop_last() =~= a + b.drop_last());
    }
}

/// Items of one size add up to a multiple of it.
pub proof fn lemma_total_size_uniform(items: Seq<UsbItemView>, size: nat)
    requires
        forall|i: int| 0 <= i < items.len() ==> (#[trigger] items[i]).size() == size,
    ensures
        total_size(items) == items.len() * size,
    decreases items.len(),
{
    if items.len() > 0 {
        lemma_total_size_uniform(items.drop_last(), size);
        assert((items.len() - 1) * size + size == items.len() * size) by (nonlinear_arith);
    }
}

/// Append a class-specific descriptor.
pub fn push_descriptor(items: &mut Vec<UsbItem>, kind: u8, data: Vec<u8>)
    ensures
        items_view(final(items)@) == items_view(old(items)@).push(
            UsbItemView::Descriptor { kind, data: data@ },
        ),
{
    push_item(items, UsbItem::Descriptor { kind, data });
}

/// Append an item.
pub fn push_item(items: &mut Vec<UsbItem>, item: UsbItem)
    ensures
        items_view(final(items)@) == items_view(old(items)@).push(item@),
{
    items.push(item);
    assert(items_view(items@) =~= items_view(old(items)@).push(item@));
}

} // verus!
