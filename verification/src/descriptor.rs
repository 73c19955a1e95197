//! The report descriptor of the composite device.
//!
//! The descriptor is a fixed byte sequence holding five application
//! collections, one per Report ID: keyboard (1), system control (2),
//! consumer control (3), vendor channel (4) and mouse (5).  Two models of it
//! live here: the shipped byte sequence itself, collection by collection, and
//! the sequence of short items it encodes.  `lemma_descriptor_round_trip`
//! proves that encoding the item sequence yields exactly the shipped bytes,
//! and `report_descriptor` hands the bytes out, identical on every call.
use crate::items::HidItem;
use crate::items::encode_items;
use crate::items::item_wf;
use crate::items::items_bytes;
use crate::items::close_count;
use crate::items::lemma_collection_counts_concat;
use crate::items::lemma_items_bytes_concat;
use crate::items::open_count;
use crate::items::lemma_report_id_selectors_concat;
use crate::items::report_id_selectors;
use vstd::prelude::*;

verus! {

/// Bytes of the keyboard collection: Report ID 1, 120 one-bit key-state
/// flags for usages 4 through 112.
pub open spec fn keyboard_bytes() -> Seq<u8> {
    seq![
        0x05u8, 0x01, 0x09, 0x06, 0xa1, 0x01, 0x85, 0x01, 0x05, 0x07, 0x19, 0x04, 0x29, 0x70, 0x15,
        0x00, 0x25, 0x01, 0x75, 0x01, 0x95, 0x78, 0x81, 0x02, 0xc0,
    ]
}

/// Bytes of the system-control collection: Report ID 2, three one-bit flags
/// for usages 129 through 131 and five padding bits.
pub open spec fn system_bytes() -> Seq<u8> {
    seq![
        0x05u8, 0x01, 0x09, 0x80, 0xa1, 0x01, 0x85, 0x02, 0x05, 0x01, 0x19, 0x81, 0x29, 0x83, 0x15,
        0x00, 0x25, 0x01, 0x95, 0x03, 0x75, 0x01, 0x81, 0x02, 0x95, 0x01, 0x75, 0x05, 0x81, 0x01,
        0xc0,
    ]
}

/// Bytes of the consumer-control collection: Report ID 3, one 16-bit value
/// with usage range 0 through 8191.
pub open spec fn consumer_bytes() -> Seq<u8> {
    seq![
        0x05u8, 0x0c, 0x09, 0x01, 0xa1, 0x01, 0x85, 0x03, 0x15, 0x00, 0x26, 0xff, 0x1f, 0x19, 0x00,
        0x2a, 0xff, 0x1f, 0x75, 0x10, 0x95, 0x01, 0x81, 0x00, 0xc0,
    ]
}

/// Bytes of the vendor-channel collection: Report ID 4, a 63-byte output
/// array and a 1-byte input array.
pub open spec fn vendor_bytes() -> Seq<u8> {
    seq![
        0x06u8, 0x1c, 0xff, 0x09, 0x92, 0xa1, 0x01, 0x85, 0x04, 0x19, 0x00, 0x2a, 0xff, 0x00, 0x15,
        0x00, 0x26, 0xff, 0x00, 0x75, 0x08, 0x95, 0x3f, 0x91, 0x00, 0x19, 0x00, 0x29, 0xff, 0x81,
        0x00, 0xc0,
    ]
}

/// Bytes of the mouse collection: Report ID 5, five button bits and three
/// padding bits, 16-bit X and Y, 8-bit wheel and 8-bit horizontal pan.
pub open spec fn mouse_bytes() -> Seq<u8> {
    seq![
        0x05u8, 0x01, 0x09, 0x02, 0xa1, 0x01, 0x85, 0x05, 0x09, 0x01, 0xa1, 0x00, 0x05, 0x09, 0x19,
        0x01, 0x29, 0x05, 0x15, 0x00, 0x25, 0x01, 0x95, 0x05, 0x75, 0x01, 0x81, 0x02, 0x95, 0x01,
        0x75, 0x03, 0x81, 0x01, 0x05, 0x01, 0x09, 0x30, 0x09, 0x31, 0x16, 0x00, 0x80, 0x26, 0xff,
        0x7f, 0x75, 0x10, 0x95, 0x02, 0x81, 0x06, 0x09, 0x38, 0x15, 0x81, 0x25, 0x7f, 0x75, 0x08,
        0x95, 0x01, 0x81, 0x06, 0x05, 0x0c, 0x0a, 0x38, 0x02, 0x15, 0x81, 0x25, 0x7f, 0x75, 0x08,
        0x95, 0x01, 0x81, 0x06, 0xc0, 0xc0,
    ]
}

/// The whole shipped descriptor: the five collections in Report ID order.
pub open spec fn spec_report_descriptor() -> Seq<u8> {
    keyboard_bytes() + system_bytes() + consumer_bytes() + vendor_bytes() + mouse_bytes()
}

/// The keyboard collection as short items.
pub open spec fn keyboard_items() -> Seq<HidItem> {
    seq![
        HidItem::Short1 { tag: 0, typ: 1, b0: 0x01 },  // Usage Page (Generic Desktop)
        HidItem::Short1 { tag: 0, typ: 2, b0: 0x06 },  // Usage (Keyboard)
        HidItem::Short1 { tag: 0xa, typ: 0, b0: 0x01 },  // Collection (Application)
        HidItem::Short1 { tag: 8, typ: 1, b0: 0x01 },  // Report ID (1)
        HidItem::Short1 { tag: 0, typ: 1, b0: 0x07 },  // Usage Page (Keyboard)
        HidItem::Short1 { tag: 1, typ: 2, b0: 0x04 },  // Usage Minimum (4)
        HidItem::Short1 { tag: 2, typ: 2, b0: 0x70 },  // Usage Maximum (112)
        HidItem::Short1 { tag: 1, typ: 1, b0: 0x00 },  // Logical Minimum (0)
        HidItem::Short1 { tag: 2, typ: 1, b0: 0x01 },  // Logical Maximum (1)
        HidItem::Short1 { tag: 7, typ: 1, b0: 0x01 },  // Report Size (1)
        HidItem::Short1 { tag: 9, typ: 1, b0: 0x78 },  // Report Count (120)
        HidItem::Short1 { tag: 8, typ: 0, b0: 0x02 },  // Input (Data,Var,Abs)
        HidItem::Short0 { tag: 0xc, typ: 0 },  // End Collection
    ]
}

/// The system-control collection as short items.
pub open spec fn system_items() -> Seq<HidItem> {
    seq![
        HidItem::Short1 { tag: 0, typ: 1, b0: 0x01 },  // Usage Page (Generic Desktop)
        HidItem::Short1 { tag: 0, typ: 2, b0: 0x80 },  // Usage (System Control)
        HidItem::Short1 { tag: 0xa, typ: 0, b0: 0x01 },  // Collection (Application)
        HidItem::Short1 { tag: 8, typ: 1, b0: 0x02 },  // Report ID (2)
        HidItem::Short1 { tag: 0, typ: 1, b0: 0x01 },  // Usage Page (Generic Desktop)
        HidItem::Short1 { tag: 1, typ: 2, b0: 0x81 },  // Usage Minimum (129)
        HidItem::Short1 { tag: 2, typ: 2, b0: 0x83 },  // Usage Maximum (131)
        HidItem::Short1 { tag: 1, typ: 1, b0: 0x00 },  // Logical Minimum (0)
        HidItem::Short1 { tag: 2, typ: 1, b0: 0x01 },  // Logical Maximum (1)
        HidItem::Short1 { tag: 9, typ: 1, b0: 0x03 },  // Report Count (3)
        HidItem::Short1 { tag: 7, typ: 1, b0: 0x01 },  // Report Size (1)
        HidItem::Short1 { tag: 8, typ: 0, b0: 0x02 },  // Input (Data,Var,Abs)
        HidItem::Short1 { tag: 9, typ: 1, b0: 0x01 },  // Report Count (1)
        HidItem::Short1 { tag: 7, typ: 1, b0: 0x05 },  // Report Size (5)
        HidItem::Short1 { tag: 8, typ: 0, b0: 0x01 },  // Input (Cnst,Arr,Abs)
        HidItem::Short0 { tag: 0xc, typ: 0 },  // End Collection
    ]
}

/// The consumer-control collection as short items.
pub open spec fn consumer_items() -> Seq<HidItem> {
    seq![
        HidItem::Short1 { tag: 0, typ: 1, b0: 0x0c },  // Usage Page (Consumer Devices)
        HidItem::Short1 { tag: 0, typ: 2, b0: 0x01 },  // Usage (Consumer Control)
        HidItem::Short1 { tag: 0xa, typ: 0, b0: 0x01 },  // Collection (Application)
        HidItem::Short1 { tag: 8, typ: 1, b0: 0x03 },  // Report ID (3)
        HidItem::Short1 { tag: 1, typ: 1, b0: 0x00 },  // Logical Minimum (0)
        HidItem::Short2 { tag: 2, typ: 1, b0: 0xff, b1: 0x1f },  // Logical Maximum (8191)
        HidItem::Short1 { tag: 1, typ: 2, b0: 0x00 },  // Usage Minimum (0)
        HidItem::Short2 { tag: 2, typ: 2, b0: 0xff, b1: 0x1f },  // Usage Maximum (8191)
        HidItem::Short1 { tag: 7, typ: 1, b0: 0x10 },  // Report Size (16)
        HidItem::Short1 { tag: 9, typ: 1, b0: 0x01 },  // Report Count (1)
        HidItem::Short1 { tag: 8, typ: 0, b0: 0x00 },  // Input (Data,Arr,Abs)
        HidItem::Short0 { tag: 0xc, typ: 0 },  // End Collection
    ]
}

/// The vendor-channel collection as short items.
pub open spec fn vendor_items() -> Seq<HidItem> {
    seq![
        HidItem::Short2 { tag: 0, typ: 1, b0: 0x1c, b1: 0xff },  // Usage Page (Vendor 0xff1c)
        HidItem::Short1 { tag: 0, typ: 2, b0: 0x92 },  // Usage (Vendor Usage 0x92)
        HidItem::Short1 { tag: 0xa, typ: 0, b0: 0x01 },  // Collection (Application)
        HidItem::Short1 { tag: 8, typ: 1, b0: 0x04 },  // Report ID (4)
        HidItem::Short1 { tag: 1, typ: 2, b0: 0x00 },  // Usage Minimum (0)
        HidItem::Short2 { tag: 2, typ: 2, b0: 0xff, b1: 0x00 },  // Usage Maximum (255)
        HidItem::Short1 { tag: 1, typ: 1, b0: 0x00 },  // Logical Minimum (0)
        HidItem::Short2 { tag: 2, typ: 1, b0: 0xff, b1: 0x00 },  // Logical Maximum (255)
        HidItem::Short1 { tag: 7, typ: 1, b0: 0x08 },  // Report Size (8)
        HidItem::Short1 { tag: 9, typ: 1, b0: 0x3f },  // Report Count (63)
        HidItem::Short1 { tag: 9, typ: 0, b0: 0x00 },  // Output (Data,Arr,Abs)
        HidItem::Short1 { tag: 1, typ: 2, b0: 0x00 },  // Usage Minimum (0)
        HidItem::Short1 { tag: 2, typ: 2, b0: 0xff },  // Usage Maximum (255)
        HidItem::Short1 { tag: 8, typ: 0, b0: 0x00 },  // Input (Data,Arr,Abs)
        HidItem::Short0 { tag: 0xc, typ: 0 },  // End Collection
    ]
}

/// The mouse collection as short items.
pub open spec fn mouse_items() -> Seq<HidItem> {
    seq![
        HidItem::Short1 { tag: 0, typ: 1, b0: 0x01 },  // Usage Page (Generic Desktop)
        HidItem::Short1 { tag: 0, typ: 2, b0: 0x02 },  // Usage (Mouse)
        HidItem::Short1 { tag: 0xa, typ: 0, b0: 0x01 },  // Collection (Application)
        HidItem::Short1 { tag: 8, typ: 1, b0: 0x05 },  // Report ID (5)
        HidItem::Short1 { tag: 0, typ: 2, b0: 0x01 },  // Usage (Pointer)
        HidItem::Short1 { tag: 0xa, typ: 0, b0: 0x00 },  // Collection (Physical)
        HidItem::Short1 { tag: 0, typ: 1, b0: 0x09 },  // Usage Page (Button)
        HidItem::Short1 { tag: 1, typ: 2, b0: 0x01 },  // Usage Minimum (1)
        HidItem::Short1 { tag: 2, typ: 2, b0: 0x05 },  // Usage Maximum (5)
        HidItem::Short1 { tag: 1, typ: 1, b0: 0x00 },  // Logical Minimum (0)
        HidItem::Short1 { tag: 2, typ: 1, b0: 0x01 },  // Logical Maximum (1)
        HidItem::Short1 { tag: 9, typ: 1, b0: 0x05 },  // Report Count (5)
        HidItem::Short1 { tag: 7, typ: 1, b0: 0x01 },  // Report Size (1)
        HidItem::Short1 { tag: 8, typ: 0, b0: 0x02 },  // Input (Data,Var,Abs)
        HidItem::Short1 { tag: 9, typ: 1, b0: 0x01 },  // Report Count (1)
        HidItem::Short1 { tag: 7, typ: 1, b0: 0x03 },  // Report Size (3)
        HidItem::Short1 { tag: 8, typ: 0, b0: 0x01 },  // Input (Cnst,Arr,Abs)
        HidItem::Short1 { tag: 0, typ: 1, b0: 0x01 },  // Usage Page (Generic Desktop)
        HidItem::Short1 { tag: 0, typ: 2, b0: 0x30 },  // Usage (X)
        HidItem::Short1 { tag: 0, typ: 2, b0: 0x31 },  // Usage (Y)
        HidItem::Short2 { tag: 1, typ: 1, b0: 0x00, b1: 0x80 },  // Logical Minimum (-32768)
        HidItem::Short2 { tag: 2, typ: 1, b0: 0xff, b1: 0x7f },  // Logical Maximum (32767)
        HidItem::Short1 { tag: 7, typ: 1, b0: 0x10 },  // Report Size (16)
        HidItem::Short1 { tag: 9, typ: 1, b0: 0x02 },  // Report Count (2)
        HidItem::Short1 { tag: 8, typ: 0, b0: 0x06 },  // Input (Data,Var,Rel)
        HidItem::Short1 { tag: 0, typ: 2, b0: 0x38 },  // Usage (Wheel)
        HidItem::Short1 { tag: 1, typ: 1, b0: 0x81 },  // Logical Minimum (-127)
        HidItem::Short1 { tag: 2, typ: 1, b0: 0x7f },  // Logical Maximum (127)
        HidItem::Short1 { tag: 7, typ: 1, b0: 0x08 },  // Report Size (8)
        HidItem::Short1 { tag: 9, typ: 1, b0: 0x01 },  // Report Count (1)
        HidItem::Short1 { tag: 8, typ: 0, b0: 0x06 },  // Input (Data,Var,Rel)
        HidItem::Short1 { tag: 0, typ: 1, b0: 0x0c },  // Usage Page (Consumer Devices)
        HidItem::Short2 { tag: 0, typ: 2, b0: 0x38, b1: 0x02 },  // Usage (AC Pan)
        HidItem::Short1 { tag: 1, typ: 1, b0: 0x81 },  // Logical Minimum (-127)
        HidItem::Short1 { tag: 2, typ: 1, b0: 0x7f },  // Logical Maximum (127)
        HidItem::Short1 { tag: 7, typ: 1, b0: 0x08 },  // Report Size (8)
        HidItem::Short1 { tag: 9, typ: 1, b0: 0x01 },  // Report Count (1)
        HidItem::Short1 { tag: 8, typ: 0, b0: 0x06 },  // Input (Data,Var,Rel)
        HidItem::Short0 { tag: 0xc, typ: 0 },  // End Collection (Physical)
        HidItem::Short0 { tag: 0xc, typ: 0 },  // End Collection (Application)
    ]
}

/// The intended structure of the whole descriptor as short items.
pub open spec fn descriptor_items() -> Seq<HidItem> {
    keyboard_items() + system_items() + consumer_items() + vendor_items() + mouse_items()
}

/// Every item of the descriptor is a well-formed short item.
pub proof fn lemma_descriptor_items_wf()
    ensures
        forall|i: int|
            0 <= i < descriptor_items().len() ==> item_wf(#[trigger] descriptor_items()[i]),
{
    assert forall|i: int| 0 <= i < descriptor_items().len() implies item_wf(
        #[trigger] descriptor_items()[i],
    ) by {
        assert(item_wf(descriptor_items()[i]));
    }
}

/// Re-encoding the keyboard collection's items gives its shipped bytes.
pub proof fn lemma_keyboard_round_trip()
    ensures
        items_bytes(keyboard_items()) == keyboard_bytes(),
{
    assert(items_bytes(keyboard_items()) =~= keyboard_bytes()) by {
        reveal_with_fuel(items_bytes, 15);
    }
}

/// Re-encoding the system-control collection's items gives its shipped bytes.
pub proof fn lemma_system_round_trip()
    ensures
        items_bytes(system_items()) == system_bytes(),
{
    assert(items_bytes(system_items()) =~= system_bytes()) by {
        reveal_with_fuel(items_bytes, 18);
    }
}

/// Re-encoding the consumer-control collection's items gives its shipped bytes.
pub proof fn lemma_consumer_round_trip()
    ensures
        items_bytes(consumer_items()) == consumer_bytes(),
{
    assert(items_bytes(consumer_items()) =~= consumer_bytes()) by {
        reveal_with_fuel(items_bytes, 14);
    }
}

/// Re-encoding the vendor-channel collection's items gives its shipped bytes.
pub proof fn lemma_vendor_round_trip()
    ensures
        items_bytes(vendor_items()) == vendor_bytes(),
{
    assert(items_bytes(vendor_items()) =~= vendor_bytes()) by {
        reveal_with_fuel(items_bytes, 17);
    }
}

/// Re-encoding the mouse collection's items gives its shipped bytes.
#[verifier::rlimit(60)]
pub proof fn lemma_mouse_round_trip()
    ensures
        items_bytes(mouse_items()) == mouse_bytes(),
{
    assert(items_bytes(mouse_items()) =~= mouse_bytes()) by {
        reveal_with_fuel(items_bytes, 42);
    }
}

/// Re-encoding the intended item structure gives back the shipped bytes.
pub proof fn lemma_descriptor_round_trip()
    ensures
        items_bytes(descriptor_items()) == spec_report_descriptor(),
{
    lemma_keyboard_round_trip();
    lemma_system_round_trip();
    lemma_consumer_round_trip();
    lemma_vendor_round_trip();
    lemma_mouse_round_trip();
    lemma_items_bytes_concat(
        keyboard_items() + system_items() + consumer_items() + vendor_items(),
        mouse_items(),
    );
    lemma_items_bytes_concat(
        keyboard_items() + system_items() + consumer_items(),
        vendor_items(),
    );
    lemma_items_bytes_concat(keyboard_items() + system_items(), consumer_items());
    lemma_items_bytes_concat(keyboard_items(), system_items());
}

/// Builds the keyboard collection's item list.
fn keyboard_items_vec() -> (v: Vec<HidItem>)
    ensures
        v@ == keyboard_items(),
{
    let mut v: Vec<HidItem> = Vec::new();
    v.push(HidItem::Short1 { tag: 0, typ: 1, b0: 0x01 });
    v.push(HidItem::Short1 { tag: 0, typ: 2, b0: 0x06 });
    v.push(HidItem::Short1 { tag: 0xa, typ: 0, b0: 0x01 });
    v.push(HidItem::Short1 { tag: 8, typ: 1, b0: 0x01 });
    v.push(HidItem::Short1 { tag: 0, typ: 1, b0: 0x07 });
    v.push(HidItem::Short1 { tag: 1, typ: 2, b0: 0x04 });
    v.push(HidItem::Short1 { tag: 2, typ: 2, b0: 0x70 });
    v.push(HidItem::Short1 { tag: 1, typ: 1, b0: 0x00 });
    v.push(HidItem::Short1 { tag: 2, typ: 1, b0: 0x01 });
    v.push(HidItem::Short1 { tag: 7, typ: 1, b0: 0x01 });
    v.push(HidItem::Short1 { tag: 9, typ: 1, b0: 0x78 });
    v.push(HidItem::Short1 { tag: 8, typ: 0, b0: 0x02 });
    v.push(HidItem::Short0 { tag: 0xc, typ: 0 });
    assert(v@ =~= keyboard_items());
    v
}

/// Builds the system collection's item list.
fn system_items_vec() -> (v: Vec<HidItem>)
    ensures
        v@ == system_items(),
{
    let mut v: Vec<HidItem> = Vec::new();
    v.push(HidItem::Short1 { tag: 0, typ: 1, b0: 0x01 });
    v.push(HidItem::Short1 { tag: 0, typ: 2, b0: 0x80 });
    v.push(HidItem::Short1 { tag: 0xa, typ: 0, b0: 0x01 });
    v.push(HidItem::Short1 { tag: 8, typ: 1, b0: 0x02 });
    v.push(HidItem::Short1 { tag: 0, typ: 1, b0: 0x01 });
    v.push(HidItem::Short1 { tag: 1, typ: 2, b0: 0x81 });
    v.push(HidItem::Short1 { tag: 2, typ: 2, b0: 0x83 });
    v.push(HidItem::Short1 { tag: 1, typ: 1, b0: 0x00 });
    v.push(HidItem::Short1 { tag: 2, typ: 1, b0: 0x01 });
    v.push(HidItem::Short1 { tag: 9, typ: 1, b0: 0x03 });
    v.push(HidItem::Short1 { tag: 7, typ: 1, b0: 0x01 });
    v.push(HidItem::Short1 { tag: 8, typ: 0, b0: 0x02 });
    v.push(HidItem::Short1 { tag: 9, typ: 1, b0: 0x01 });
    v.push(HidItem::Short1 { tag: 7, typ: 1, b0: 0x05 });
    v.push(HidItem::Short1 { tag: 8, typ: 0, b0: 0x01 });
    v.push(HidItem::Short0 { tag: 0xc, typ: 0 });
    assert(v@ =~= system_items());
    v
}

/// Builds the consumer collection's item list.
fn consumer_items_vec() -> (v: Vec<HidItem>)
    ensures
        v@ == consumer_items(),
{
    let mut v: Vec<HidItem> = Vec::new();
    v.push(HidItem::Short1 { tag: 0, typ: 1, b0: 0x0c });
    v.push(HidItem::Short1 { tag: 0, typ: 2, b0: 0x01 });
    v.push(HidItem::Short1 { tag: 0xa, typ: 0, b0: 0x01 });
    v.push(HidItem::Short1 { tag: 8, typ: 1, b0: 0x03 });
    v.push(HidItem::Short1 { tag: 1, typ: 1, b0: 0x00 });
    v.push(HidItem::Short2 { tag: 2, typ: 1, b0: 0xff, b1: 0x1f });
    v.push(HidItem::Short1 { tag: 1, typ: 2, b0: 0x00 });
    v.push(HidItem::Short2 { tag: 2, typ: 2, b0: 0xff, b1: 0x1f });
    v.push(HidItem::Short1 { tag: 7, typ: 1, b0: 0x10 });
    v.push(HidItem::Short1 { tag: 9, typ: 1, b0: 0x01 });
    v.push(HidItem::Short1 { tag: 8, typ: 0, b0: 0x00 });
    v.push(HidItem::Short0 { tag: 0xc, typ: 0 });
    assert(v@ =~= consumer_items());
    v
}

/// Builds the vendor collection's item list.
fn vendor_items_vec() -> (v: Vec<HidItem>)
    ensures
        v@ == vendor_items(),
{
    let mut v: Vec<HidItem> = Vec::new();
    v.push(HidItem::Short2 { tag: 0, typ: 1, b0: 0x1c, b1: 0xff });
    v.push(HidItem::Short1 { tag: 0, typ: 2, b0: 0x92 });
    v.push(HidItem::Short1 { tag: 0xa, typ: 0, b0: 0x01 });
    v.push(HidItem::Short1 { tag: 8, typ: 1, b0: 0x04 });
    v.push(HidItem::Short1 { tag: 1, typ: 2, b0: 0x00 });
    v.push(HidItem::Short2 { tag: 2, typ: 2, b0: 0xff, b1: 0x00 });
    v.push(HidItem::Short1 { tag: 1, typ: 1, b0: 0x00 });
    v.push(HidItem::Short2 { tag: 2, typ: 1, b0: 0xff, b1: 0x00 });
    v.push(HidItem::Short1 { tag: 7, typ: 1, b0: 0x08 });
    v.push(HidItem::Short1 { tag: 9, typ: 1, b0: 0x3f });
    v.push(HidItem::Short1 { tag: 9, typ: 0, b0: 0x00 });
    v.push(HidItem::Short1 { tag: 1, typ: 2, b0: 0x00 });
    v.push(HidItem::Short1 { tag: 2, typ: 2, b0: 0xff });
    v.push(HidItem::Short1 { tag: 8, typ: 0, b0: 0x00 });
    v.push(HidItem::Short0 { tag: 0xc, typ: 0 });
    assert(v@ =~= vendor_items());
    v
}

/// Builds the mouse collection's item list.
fn mouse_items_vec() -> (v: Vec<HidItem>)
    ensures
        v@ == mouse_items(),
{
    let mut v: Vec<HidItem> = Vec::new();
    v.push(HidItem::Short1 { tag: 0, typ: 1, b0: 0x01 });
    v.push(HidItem::Short1 { tag: 0, typ: 2, b0: 0x02 });
    v.push(HidItem::Short1 { tag: 0xa, typ: 0, b0: 0x01 });
    v.push(HidItem::Short1 { tag: 8, typ: 1, b0: 0x05 });
    v.push(HidItem::Short1 { tag: 0, typ: 2, b0: 0x01 });
    v.push(HidItem::Short1 { tag: 0xa, typ: 0, b0: 0x00 });
    v.push(HidItem::Short1 { tag: 0, typ: 1, b0: 0x09 });
    v.push(HidItem::Short1 { tag: 1, typ: 2, b0: 0x01 });
    v.push(HidItem::Short1 { tag: 2, typ: 2, b0: 0x05 });
    v.push(HidItem::Short1 { tag: 1, typ: 1, b0: 0x00 });
    v.push(HidItem::Short1 { tag: 2, typ: 1, b0: 0x01 });
    v.push(HidItem::Short1 { tag: 9, typ: 1, b0: 0x05 });
    v.push(HidItem::Short1 { tag: 7, typ: 1, b0: 0x01 });
    v.push(HidItem::Short1 { tag: 8, typ: 0, b0: 0x02 });
    v.push(HidItem::Short1 { tag: 9, typ: 1, b0: 0x01 });
    v.push(HidItem::Short1 { tag: 7, typ: 1, b0: 0x03 });
    v.push(HidItem::Short1 { tag: 8, typ: 0, b0: 0x01 });
    v.push(HidItem::Short1 { tag: 0, typ: 1, b0: 0x01 });
    v.push(HidItem::Short1 { tag: 0, typ: 2, b0: 0x30 });
    v.push(HidItem::Short1 { tag: 0, typ: 2, b0: 0x31 });
    v.push(HidItem::Short2 { tag: 1, typ: 1, b0: 0x00, b1: 0x80 });
    v.push(HidItem::Short2 { tag: 2, typ: 1, b0: 0xff, b1: 0x7f });
    v.push(HidItem::Short1 { tag: 7, typ: 1, b0: 0x10 });
    v.push(HidItem::Short1 { tag: 9, typ: 1, b0: 0x02 });
    v.push(HidItem::Short1 { tag: 8, typ: 0, b0: 0x06 });
    v.push(HidItem::Short1 { tag: 0, typ: 2, b0: 0x38 });
    v.push(HidItem::Short1 { tag: 1, typ: 1, b0: 0x81 });
    v.push(HidItem::Short1 { tag: 2, typ: 1, b0: 0x7f });
    v.push(HidItem::Short1 { tag: 7, typ: 1, b0: 0x08 });
    v.push(HidItem::Short1 { tag: 9, typ: 1, b0: 0x01 });
    v.push(HidItem::Short1 { tag: 8, typ: 0, b0: 0x06 });
    v.push(HidItem::Short1 { tag: 0, typ: 1, b0: 0x0c });
    v.push(HidItem::Short2 { tag: 0, typ: 2, b0: 0x38, b1: 0x02 });
    v.push(HidItem::Short1 { tag: 1, typ: 1, b0: 0x81 });
    v.push(HidItem::Short1 { tag: 2, typ: 1, b0: 0x7f });
    v.push(HidItem::Short1 { tag: 7, typ: 1, b0: 0x08 });
    v.push(HidItem::Short1 { tag: 9, typ: 1, b0: 0x01 });
    v.push(HidItem::Short1 { tag: 8, typ: 0, b0: 0x06 });
    v.push(HidItem::Short0 { tag: 0xc, typ: 0 });
    v.push(HidItem::Short0 { tag: 0xc, typ: 0 });
    assert(v@ =~= mouse_items());
    v
}

/// Builds the intended item structure of the whole descriptor.
pub fn intended_descriptor_items() -> (v: Vec<HidItem>)
    ensures
        v@ == descriptor_items(),
{
    let mut v = keyboard_items_vec();
    let mut s = system_items_vec();
    v.append(&mut s);
    let mut c = consumer_items_vec();
    v.append(&mut c);
    let mut w = vendor_items_vec();
    v.append(&mut w);
    let mut m = mouse_items_vec();
    v.append(&mut m);
    v
}

/// The shipped report descriptor.  The result is the same byte sequence on
/// every call: the descriptor is static data, built here by encoding the
/// intended item structure.
pub fn report_descriptor() -> (r: Vec<u8>)
    ensures
        r@ == spec_report_descriptor(),
{
    let items = intended_descriptor_items();
    proof {
        lemma_descriptor_items_wf();
        lemma_descriptor_round_trip();
    }
    encode_items(&items)
}


/// Structure of the keyboard collection: one Report ID selector, 1, one
/// collection opened and one closed.
proof fn lemma_keyboard_structure()
    ensures
        report_id_selectors(keyboard_items()) == seq![1u8],
        open_count(keyboard_items()) == 1,
        close_count(keyboard_items()) == 1,
{
    reveal_with_fuel(report_id_selectors, 15);
    reveal_with_fuel(open_count, 15);
    reveal_with_fuel(close_count, 15);
    assert(report_id_selectors(keyboard_items()) =~= seq![1u8]);
}

/// Structure of the system-control collection: one Report ID selector, 2,
/// one collection opened and one closed.
proof fn lemma_system_structure()
    ensures
        report_id_selectors(system_items()) == seq![2u8],
        open_count(system_items()) == 1,
        close_count(system_items()) == 1,
{
    reveal_with_fuel(report_id_selectors, 18);
    reveal_with_fuel(open_count, 18);
    reveal_with_fuel(close_count, 18);
    assert(report_id_selectors(system_items()) =~= seq![2u8]);
}

/// Structure of the consumer-control collection: one Report ID selector,
/// 3, one collection opened and one closed.
proof fn lemma_consumer_structure()
    ensures
        report_id_selectors(consumer_items()) == seq![3u8],
        open_count(consumer_items()) == 1,
        close_count(consumer_items()) == 1,
{
    reveal_with_fuel(report_id_selectors, 14);
    reveal_with_fuel(open_count, 14);
    reveal_with_fuel(close_count, 14);
    assert(report_id_selectors(consumer_items()) =~= seq![3u8]);
}

/// Structure of the vendor-channel collection: one Report ID selector, 4,
/// one collection opened and one closed.
proof fn lemma_vendor_structure()
    ensures
        report_id_selectors(vendor_items()) == seq![4u8],
        open_count(vendor_items()) == 1,
        close_count(vendor_items()) == 1,
{
    reveal_with_fuel(report_id_selectors, 17);
    reveal_with_fuel(open_count, 17);
    reveal_with_fuel(close_count, 17);
    assert(report_id_selectors(vendor_items()) =~= seq![4u8]);
}

/// Structure of the mouse collection: one Report ID selector, 5, and two
/// collections opened and closed (application and physical).
#[verifier::rlimit(80)]
proof fn lemma_mouse_structure()
    ensures
        report_id_selectors(mouse_items()) == seq![5u8],
        open_count(mouse_items()) == 2,
        close_count(mouse_items()) == 2,
{
    reveal_with_fuel(report_id_selectors, 42);
    reveal_with_fuel(open_count, 42);
    reveal_with_fuel(close_count, 42);
    assert(report_id_selectors(mouse_items()) =~= seq![5u8]);
}

/// The descriptor's Report ID selectors are, in order, exactly 1 through
/// 5: each of the five IDs is present, once, and none overlaps another.
pub proof fn lemma_report_ids_in_order()
    ensures
        report_id_selectors(descriptor_items()) == seq![1u8, 2, 3, 4, 5],
{
    lemma_keyboard_structure();
    lemma_system_structure();
    lemma_consumer_structure();
    lemma_vendor_structure();
    lemma_mouse_structure();
    lemma_report_id_selectors_concat(
        keyboard_items() + system_items() + consumer_items() + vendor_items(),
        mouse_items(),
    );
    lemma_report_id_selectors_concat(
        keyboard_items() + system_items() + consumer_items(),
        vendor_items(),
    );
    lemma_report_id_selectors_concat(keyboard_items() + system_items(), consumer_items());
    lemma_report_id_selectors_concat(keyboard_items(), system_items());
    assert(seq![1u8] + seq![2u8] + seq![3u8] + seq![4u8] + seq![5u8] =~= seq![1u8, 2, 3, 4, 5]);
}

/// The descriptor opens and closes collections in balance: six of each,
/// the five application collections and the mouse's physical collection.
pub proof fn lemma_collections_balanced()
    ensures
        open_count(descriptor_items()) == 6,
        close_count(descriptor_items()) == 6,
{
    lemma_keyboard_structure();
    lemma_system_structure();
    lemma_consumer_structure();
    lemma_vendor_structure();
    lemma_mouse_structure();
    lemma_collection_counts_concat(
        keyboard_items() + system_items() + consumer_items() + vendor_items(),
        mouse_items(),
    );
    lemma_collection_counts_concat(
        keyboard_items() + system_items() + consumer_items(),
        vendor_items(),
    );
    lemma_collection_counts_concat(keyboard_items() + system_items(), consumer_items());
    lemma_collection_counts_concat(keyboard_items(), system_items());
}

/// The descriptor has a fixed size: 194 bytes.
pub proof fn lemma_descriptor_len()
    ensures
        spec_report_descriptor().len() == 194,
{
}

/// The descriptor is static data: any two reads of it are byte-for-byte
/// identical, within a process and across processes.
pub proof fn lemma_descriptor_reads_identical(a: Seq<u8>, b: Seq<u8>)
    requires
        a == spec_report_descriptor(),
        b == spec_report_descriptor(),
    ensures
        a == b,
{
}

} // verus!
