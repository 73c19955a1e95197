//! Short items of the USB HID report descriptor grammar.
//!
//! A short item is one prefix byte -- holding a 4-bit tag, a 2-bit type and a
//! 2-bit size code -- followed by that many data bytes.  The descriptor this
//! crate ships uses only sizes 0, 1 and 2, so the model has one variant per
//! size.
use vstd::prelude::*;

verus! {

/// One short item: a prefix byte followed by 0, 1 or 2 data bytes.
#[derive(Clone, Copy, Debug, PartialEq, Eq, Structural)]
pub enum HidItem {
    Short0 { tag: u8, typ: u8 },
    Short1 { tag: u8, typ: u8, b0: u8 },
    Short2 { tag: u8, typ: u8, b0: u8, b1: u8 },
}

/// The tag fits in 4 bits and the type in 2 bits.
pub open spec fn item_wf(it: HidItem) -> bool {
    match it {
        HidItem::Short0 { tag, typ } => tag < 16 && typ < 4,
        HidItem::Short1 { tag, typ, .. } => tag < 16 && typ < 4,
        HidItem::Short2 { tag, typ, .. } => tag < 16 && typ < 4,
    }
}

/// Prefix byte layout: tag in bits 7..4, type in bits 3..2, size code in bits 1..0.
pub open spec fn prefix_byte(tag: u8, typ: u8, size: u8) -> u8
    recommends
        tag < 16,
        typ < 4,
        size < 4,
{
    (tag * 16 + typ * 4 + size) as u8
}

/// The bytes one item contributes to the descriptor.
pub open spec fn item_bytes(it: HidItem) -> Seq<u8> {
    match it {
        HidItem::Short0 { tag, typ } => seq![prefix_byte(tag, typ, 0)],
        HidItem::Short1 { tag, typ, b0 } => seq![prefix_byte(tag, typ, 1), b0],
        HidItem::Short2 { tag, typ, b0, b1 } => seq![prefix_byte(tag, typ, 2), b0, b1],
    }
}

/// The bytes of a whole item sequence, in order.
pub open spec fn items_bytes(items: Seq<HidItem>) -> Seq<u8>
    decreases items.len(),
{
    if items.len() == 0 {
        Seq::empty()
    } else {
        item_bytes(items.first()) + items_bytes(items.drop_first())
    }
}

/// Encoding distributes over concatenation of item sequences.
pub proof fn lemma_items_bytes_concat(a: Seq<HidItem>, b: Seq<HidItem>)
    ensures
        items_bytes(a + b) == items_bytes(a) + items_bytes(b),
    decreases a.len(),
{
    if a.len() == 0 {
        assert(a + b =~= b);
        assert(items_bytes(a) + items_bytes(b) =~= items_bytes(b));
    } else {
        lemma_items_bytes_concat(a.drop_first(), b);
        assert((a + b).drop_first() =~= a.drop_first() + b);
        assert(items_bytes(a) + items_bytes(b) =~= item_bytes(a.first()) + (items_bytes(
            a.drop_first(),
        ) + items_bytes(b)));
    }
}

/// Appending one item appends its bytes.
pub proof fn lemma_items_bytes_push(items: Seq<HidItem>, it: HidItem)
    ensures
        items_bytes(items.push(it)) == items_bytes(items) + item_bytes(it),
{
    lemma_items_bytes_concat(items, seq![it]);
    assert(items.push(it) =~= items + seq![it]);
    assert(seq![it].drop_first() =~= Seq::<HidItem>::empty());
    assert(items_bytes(Seq::<HidItem>::empty()) == Seq::<u8>::empty());
    assert(items_bytes(seq![it]) == item_bytes(it) + items_bytes(seq![it].drop_first()));
    assert(item_bytes(it) + Seq::<u8>::empty() =~= item_bytes(it));
}

/// Whether an item opens a collection (main item tag 0xa).
pub open spec fn is_collection_open(it: HidItem) -> bool {
    it matches HidItem::Short1 { tag: 0xa, typ: 0, .. }
}

/// Whether an item closes a collection (main item tag 0xc).
pub open spec fn is_collection_close(it: HidItem) -> bool {
    it matches HidItem::Short0 { tag: 0xc, typ: 0, .. }
}

/// How many collection-open items the sequence holds.
pub open spec fn open_count(items: Seq<HidItem>) -> nat
    decreases items.len(),
{
    if items.len() == 0 {
        0
    } else {
        (if is_collection_open(items.first()) {
            1nat
        } else {
            0nat
        }) + open_count(items.drop_first())
    }
}

/// How many collection-close items the sequence holds.
pub open spec fn close_count(items: Seq<HidItem>) -> nat
    decreases items.len(),
{
    if items.len() == 0 {
        0
    } else {
        (if is_collection_close(items.first()) {
            1nat
        } else {
            0nat
        }) + close_count(items.drop_first())
    }
}

/// Both collection counts distribute over concatenation of item sequences.
pub proof fn lemma_collection_counts_concat(a: Seq<HidItem>, b: Seq<HidItem>)
    ensures
        open_count(a + b) == open_count(a) + open_count(b),
        close_count(a + b) == close_count(a) + close_count(b),
    decreases a.len(),
{
    if a.len() == 0 {
        assert(a + b =~= b);
    } else {
        lemma_collection_counts_concat(a.drop_first(), b);
        assert((a + b).drop_first() =~= a.drop_first() + b);
    }
}

/// The data bytes of the sequence's Report ID selectors, in order.
pub open spec fn report_id_selectors(items: Seq<HidItem>) -> Seq<u8>
    decreases items.len(),
{
    if items.len() == 0 {
        Seq::empty()
    } else {
        match items.first() {
            HidItem::Short1 { tag: 8, typ: 1, b0 } => seq![b0] + report_id_selectors(
                items.drop_first(),
            ),
            _ => report_id_selectors(items.drop_first()),
        }
    }
}

/// Selector extraction distributes over concatenation of item sequences.
pub proof fn lemma_report_id_selectors_concat(a: Seq<HidItem>, b: Seq<HidItem>)
    ensures
        report_id_selectors(a + b) == report_id_selectors(a) + report_id_selectors(b),
    decreases a.len(),
{
    if a.len() == 0 {
        assert(a + b =~= b);
        assert(report_id_selectors(a) + report_id_selectors(b) =~= report_id_selectors(b));
    } else {
        lemma_report_id_selectors_concat(a.drop_first(), b);
        assert((a + b).drop_first() =~= a.drop_first() + b);
        match a.first() {
            HidItem::Short1 { tag: 8, typ: 1, b0 } => {
                assert(report_id_selectors(a) + report_id_selectors(b) =~= seq![b0] + (
                report_id_selectors(a.drop_first()) + report_id_selectors(b)));
            },
            _ => {},
        }
    }
}

/// Appends the encoding of one item to `out`.
pub fn encode_item(it: &HidItem, out: &mut Vec<u8>)
    requires
        item_wf(*it),
    ensures
        final(out)@ == old(out)@ + item_bytes(*it),
{
    match it {
        HidItem::Short0 { tag, typ } => {
            out.push(*tag * 16 + *typ * 4);
        },
        HidItem::Short1 { tag, typ, b0 } => {
            out.push(*tag * 16 + *typ * 4 + 1);
            out.push(*b0);
        },
        HidItem::Short2 { tag, typ, b0, b1 } => {
            out.push(*tag * 16 + *typ * 4 + 2);
            out.push(*b0);
            out.push(*b1);
        },
    }
    assert(out@ =~= old(out)@ + item_bytes(*it));
}

/// Encodes an item sequence into the byte sequence it stands for.
pub fn encode_items(items: &Vec<HidItem>) -> (out: Vec<u8>)
    requires
        forall|i: int| 0 <= i < items@.len() ==> item_wf(items@[i]),
    ensures
        out@ == items_bytes(items@),
{
    let mut out: Vec<u8> = Vec::new();
    let mut idx: usize = 0;
    while idx < items.len()
        invariant
            idx <= items@.len(),
            forall|i: int| 0 <= i < items@.len() ==> item_wf(items@[i]),
            out@ == items_bytes(items@.take(idx as int)),
        decreases items@.len() - idx,
    {
        encode_item(&items[idx], &mut out);
        proof {
            lemma_items_bytes_push(items@.take(idx as int), items@[idx as int]);
            assert(items@.take(idx as int).push(items@[idx as int]) =~= items@.take(
                idx as int + 1,
            ));
        }
        idx = idx + 1;
    }
    proof {
        assert(items@.take(items@.len() as int) =~= items@);
    }
    out
}

} // verus!
