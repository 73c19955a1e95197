//! Typed reports and the per-Report-ID framing of forwarded buffers.
//!
//! A forwarded buffer's first byte is the Report ID; the remaining bytes are
//! that ID's fields as the descriptor lays them out, little-endian for
//! multi-byte fields and two's-complement for signed ones.  The endpoint
//! itself forwards raw bytes without validation, so `Report` offers producers
//! a typed way to build buffers that are framed right by construction, and
//! `buffer_is_well_framed` lets a caller test a raw buffer against the
//! schema of its leading byte.
use vstd::prelude::*;

verus! {

/// Report ID of the keyboard collection.
pub const KEYBOARD_REPORT_ID: u8 = 1;

/// Report ID of the system-control collection.
pub const SYSTEM_REPORT_ID: u8 = 2;

/// Report ID of the consumer-control collection.
pub const CONSUMER_REPORT_ID: u8 = 3;

/// Report ID of the vendor-channel collection.
pub const VENDOR_REPORT_ID: u8 = 4;

/// Report ID of the mouse collection.
pub const MOUSE_REPORT_ID: u8 = 5;

/// One report for one of the five logical sub-devices.
#[derive(Debug, PartialEq, Eq)]
pub enum Report {
    /// 120 one-bit key-state flags (usages 4 through 112) in 15 bytes,
    /// least significant bit of the first byte first.
    Keyboard { keys: Vec<u8> },
    /// Three one-bit flags: system power down (usage 129), sleep (130) and
    /// wake up (131); the remaining five bits are padding.
    System { power: bool, sleep: bool, wake: bool },
    /// One 16-bit consumer-control usage in the range 0 through 8191.
    Consumer { usage: u16 },
    /// Raw vendor-channel payload of at most 63 bytes.
    Vendor { data: Vec<u8> },
    /// Five button bits, 16-bit signed X and Y deltas, 8-bit signed wheel
    /// and horizontal-pan deltas.
    Mouse { buttons: u8, x: i16, y: i16, wheel: i8, pan: i8 },
}

/// The low byte of a 16-bit value (little-endian order).
pub open spec fn u16_lo(v: u16) -> u8 {
    (v % 256) as u8
}

/// The high byte of a 16-bit value (little-endian order).
pub open spec fn u16_hi(v: u16) -> u8 {
    (v / 256) as u8
}

/// The two's-complement bit pattern of a signed 16-bit value.
pub open spec fn i16_bits(x: i16) -> u16 {
    if x >= 0 {
        x as u16
    } else {
        ((x as int) + 0x10000) as u16
    }
}

/// The two's-complement bit pattern of a signed 8-bit value.
pub open spec fn i8_bits(x: i8) -> u8 {
    if x >= 0 {
        x as u8
    } else {
        ((x as int) + 0x100) as u8
    }
}

/// The system-control data byte: power in bit 0, sleep in bit 1, wake in
/// bit 2, the padding bits zero.
pub open spec fn system_flags_byte(power: bool, sleep: bool, wake: bool) -> u8 {
    ((if power {
        1int
    } else {
        0int
    }) + (if sleep {
        2int
    } else {
        0int
    }) + (if wake {
        4int
    } else {
        0int
    })) as u8
}

/// Whether a raw buffer is framed as the schema of its leading Report ID
/// demands: one header byte, then 15 data bytes for the keyboard, 1 for
/// system control, 2 for consumer control, up to 63 for the vendor channel
/// and 6 plus the pan byte for the mouse.  A buffer whose leading byte is
/// none of the five IDs matches no schema; what the kernel does with such a
/// buffer is kernel-defined, not this crate's contract.
pub open spec fn buffer_well_framed(b: Seq<u8>) -> bool {
    b.len() > 0 && match b[0] {
        1u8 => b.len() == 16,
        2u8 => b.len() == 2,
        3u8 => b.len() == 3,
        4u8 => b.len() <= 64,
        5u8 => b.len() == 8,
        _ => false,
    }
}

impl Report {
    /// The Report ID this report is framed under.
    pub open spec fn id(self) -> u8 {
        match self {
            Report::Keyboard { .. } => 1,
            Report::System { .. } => 2,
            Report::Consumer { .. } => 3,
            Report::Vendor { .. } => 4,
            Report::Mouse { .. } => 5,
        }
    }

    /// A validly constructed report: the keyboard holds exactly its 15 data
    /// bytes, the consumer usage stays in the descriptor's logical range,
    /// the vendor payload fits its array, and only the five button bits of
    /// the mouse are set.
    pub open spec fn wf(self) -> bool {
        match self {
            Report::Keyboard { keys } => keys@.len() == 15,
            Report::System { .. } => true,
            Report::Consumer { usage } => usage <= 8191,
            Report::Vendor { data } => data@.len() <= 63,
            Report::Mouse { buttons, .. } => buttons < 32,
        }
    }

    /// The exact bytes this report is forwarded as.
    pub open spec fn bytes(self) -> Seq<u8> {
        match self {
            Report::Keyboard { keys } => seq![1u8] + keys@,
            Report::System { power, sleep, wake } => seq![
                2u8,
                system_flags_byte(power, sleep, wake),
            ],
            Report::Consumer { usage } => seq![3u8, u16_lo(usage), u16_hi(usage)],
            Report::Vendor { data } => seq![4u8] + data@,
            Report::Mouse { buttons, x, y, wheel, pan } => seq![
                5u8,
                buttons,
                u16_lo(i16_bits(x)),
                u16_hi(i16_bits(x)),
                u16_lo(i16_bits(y)),
                u16_hi(i16_bits(y)),
                i8_bits(wheel),
                i8_bits(pan),
            ],
        }
    }

    /// The Report ID, as the buffer's leading byte will carry it.
    pub fn report_id(&self) -> (id: u8)
        ensures
            id == self.id(),
    {
        match self {
            Report::Keyboard { .. } => 1,
            Report::System { .. } => 2,
            Report::Consumer { .. } => 3,
            Report::Vendor { .. } => 4,
            Report::Mouse { .. } => 5,
        }
    }

    /// Serializes the report into the buffer the endpoint forwards: the
    /// Report ID byte followed by exactly that ID's fields.
    pub fn encode(&self) -> (out: Vec<u8>)
        requires
            self.wf(),
        ensures
            out@ == self.bytes(),
            buffer_well_framed(out@),
    {
        match self {
            Report::Keyboard { keys } => {
                let mut out: Vec<u8> = Vec::new();
                out.push(1);
                let mut i: usize = 0;
                while i < keys.len()
                    invariant
                        i <= keys@.len(),
                        out@ == seq![1u8] + keys@.take(i as int),
                    decreases keys@.len() - i,
                {
                    out.push(keys[i]);
                    proof {
                        assert(keys@.take(i as int).push(keys@[i as int]) =~= keys@.take(
                            i as int + 1,
                        ));
                        assert((seq![1u8] + keys@.take(i as int)).push(keys@[i as int]) =~= seq![1u8]
                            + keys@.take(i as int + 1));
                    }
                    i = i + 1;
                }
                proof {
                    assert(keys@.take(keys@.len() as int) =~= keys@);
                }
                out
            },
            Report::System { power, sleep, wake } => {
                let mut flags: u8 = 0;
                if *power {
                    flags = flags + 1;
                }
                if *sleep {
                    flags = flags + 2;
                }
                if *wake {
                    flags = flags + 4;
                }
                let mut out: Vec<u8> = Vec::new();
                out.push(2);
                out.push(flags);
                assert(out@ =~= self.bytes());
                out
            },
            Report::Consumer { usage } => {
                let mut out: Vec<u8> = Vec::new();
                out.push(3);
                out.push((*usage % 256) as u8);
                out.push((*usage / 256) as u8);
                assert(out@ =~= self.bytes());
                out
            },
            Report::Vendor { data } => {
                let mut out: Vec<u8> = Vec::new();
                out.push(4);
                let mut i: usize = 0;
                while i < data.len()
                    invariant
                        i <= data@.len(),
                        out@ == seq![4u8] + data@.take(i as int),
                    decreases data@.len() - i,
                {
                    out.push(data[i]);
                    proof {
                        assert((seq![4u8] + data@.take(i as int)).push(data@[i as int]) =~= seq![4u8]
                            + data@.take(i as int + 1));
                    }
                    i = i + 1;
                }
                proof {
                    assert(data@.take(data@.len() as int) =~= data@);
                }
                out
            },
            Report::Mouse { buttons, x, y, wheel, pan } => {
                let xb = i16_to_bits(*x);
                let yb = i16_to_bits(*y);
                let mut out: Vec<u8> = Vec::new();
                out.push(5);
                out.push(*buttons);
                out.push((xb % 256) as u8);
                out.push((xb / 256) as u8);
                out.push((yb % 256) as u8);
                out.push((yb / 256) as u8);
                out.push(i8_to_bits(*wheel));
                out.push(i8_to_bits(*pan));
                assert(out@ =~= self.bytes());
                out
            },
        }
    }
}

/// The two's-complement bit pattern of a signed 16-bit value.
pub fn i16_to_bits(x: i16) -> (r: u16)
    ensures
        r == i16_bits(x),
{
    if x >= 0 {
        x as u16
    } else {
        let w: i32 = (x as i32) + 0x10000;
        w as u16
    }
}

/// The two's-complement bit pattern of a signed 8-bit value.
pub fn i8_to_bits(x: i8) -> (r: u8)
    ensures
        r == i8_bits(x),
{
    if x >= 0 {
        x as u8
    } else {
        let w: i16 = (x as i16) + 0x100;
        w as u8
    }
}

/// Tests a raw buffer against the schema of its leading Report ID, exactly
/// as `buffer_well_framed` states it.  A buffer this refuses is either
/// empty, led by an unknown Report ID, or of the wrong length for its ID.
pub fn buffer_is_well_framed(buf: &[u8]) -> (ok: bool)
    ensures
        ok == buffer_well_framed(buf@),
{
    if buf.len() == 0 {
        return false;
    }
    let id = buf[0];
    if id == 1 {
        buf.len() == 16
    } else if id == 2 {
        buf.len() == 2
    } else if id == 3 {
        buf.len() == 3
    } else if id == 4 {
        buf.len() <= 64
    } else if id == 5 {
        buf.len() == 8
    } else {
        false
    }
}

/// For every validly constructed report, the byte length of its encoding is
/// fixed by its Report ID alone -- one header byte plus 15 data bytes for
/// the keyboard, 1 for system control, 2 for consumer control and 6 plus
/// the pan byte for the mouse -- and for the vendor channel it is the
/// header byte plus the payload, at most 64 in all.
pub proof fn lemma_report_lengths(r: Report)
    requires
        r.wf(),
    ensures
        r is Keyboard ==> r.bytes().len() == 16,
        r is System ==> r.bytes().len() == 2,
        r is Consumer ==> r.bytes().len() == 3,
        r is Vendor ==> r.bytes().len() == 1 + r->data@.len() && r.bytes().len() <= 64,
        r is Mouse ==> r.bytes().len() == 8,
{
}

/// Every validly constructed report encodes to a buffer whose leading byte
/// is its Report ID and which is framed as that ID's schema demands.
pub proof fn lemma_encode_well_framed(r: Report)
    requires
        r.wf(),
    ensures
        r.bytes()[0] == r.id(),
        buffer_well_framed(r.bytes()),
{
}

/// A buffer whose leading byte is none of the five Report IDs matches no
/// schema, whatever follows it.
pub proof fn lemma_unknown_id_not_framed(b: Seq<u8>)
    requires
        b.len() > 0,
        !(1 <= b[0] <= 5),
    ensures
        !buffer_well_framed(b),
{
}

} // verus!
