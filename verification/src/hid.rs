//! HID report descriptor and 8-byte single-touch input reports.

use vstd::prelude::*;

verus! {

/// Largest HID logical coordinate on either axis.
pub const HID_MAX: u16 = 4095;

/// Report ID of the touch input report (matches the descriptor).
pub const INPUT_REPORT_ID: u8 = 1;

/// HID Report descriptor for a single-touch touch screen.
///
/// Based on Microsoft's HID touchscreen descriptor, stripped down to one finger.
/// Usage Page: Digitizers (0x0D), Usage: Touch Screen (0x04).
/// Layout: report ID, tip switch bit + 7 padding bits, contact identifier,
/// 16-bit X and Y (logical 0..=4095), contact count.
pub const TOUCH_SCREEN_DESCRIPTOR: [u8; 79] = [
    0x05, 0x0d, 0x09, 0x04, 0xa1, 0x01, 0x85, 0x01,
    0x09, 0x22, 0xa1, 0x02,
    0x09, 0x42, 0x15, 0x00, 0x25, 0x01, 0x75, 0x01, 0x95, 0x01, 0x81, 0x02,
    0x95, 0x07, 0x81, 0x03,
    0x75, 0x08, 0x09, 0x51, 0x95, 0x01, 0x81, 0x02,
    0x05, 0x01, 0x26, 0xff, 0x0f, 0x75, 0x10, 0x55, 0x0e, 0x65, 0x13,
    0x09, 0x30, 0x35, 0x00, 0x46, 0xb0, 0x08, 0x95, 0x01, 0x81, 0x02,
    0x09, 0x31, 0x46, 0xc8, 0x0b, 0x81, 0x02,
    0xc0,
    0x05, 0x0d, 0x09, 0x54, 0x25, 0x01, 0x75, 0x08, 0x95, 0x01, 0x81, 0x02,
    0xc0,
];

/// A coordinate clamped into the HID logical range.
pub open spec fn clamp_coord(v: u16) -> u16 {
    if v <= HID_MAX { v } else { HID_MAX }
}

/// HID touch report.
///
/// Wire layout (8 bytes, little-endian):
/// byte 0 report ID (1), byte 1 tip switch in bit 0, byte 2 contact ID,
/// bytes 3-4 X, bytes 5-6 Y, byte 7 contact count.
#[derive(Debug, Clone, Copy, PartialEq, Eq, Structural)]
pub struct HidReport {
    pub tip_switch: bool,
    pub contact_id: u8,
    pub x: u16,
    pub y: u16,
    pub contact_count: u8,
}

impl HidReport {
    /// The report for a finger touching at `(x, y)`, each axis clamped to 4095.
    pub open spec fn touch_spec(x: u16, y: u16) -> HidReport {
        HidReport {
            tip_switch: true,
            contact_id: 1,
            x: clamp_coord(x),
            y: clamp_coord(y),
            contact_count: 1,
        }
    }

    /// The report for a lifted finger: every field zero.
    pub open spec fn release_spec() -> HidReport {
        HidReport { tip_switch: false, contact_id: 0, x: 0, y: 0, contact_count: 0 }
    }

    /// A report that this library can produce: a touch inside the HID range, or a release.
    pub open spec fn wf(self) -> bool {
        ||| self == HidReport::touch_spec(self.x, self.y) && self.x <= HID_MAX && self.y <= HID_MAX
        ||| self == HidReport::release_spec()
    }

    /// The 8 wire bytes of this report.
    pub open spec fn encoded(self) -> Seq<u8> {
        seq![
            INPUT_REPORT_ID,
            if self.tip_switch { 1u8 } else { 0u8 },
            self.contact_id,
            (self.x % 256) as u8,
            (self.x / 256) as u8,
            (self.y % 256) as u8,
            (self.y / 256) as u8,
            self.contact_count,
        ]
    }

    /// Finger down / touching at (x, y).
    pub fn touch(x: u16, y: u16) -> (r: HidReport)
        ensures
            r == HidReport::touch_spec(x, y),
            r.wf(),
            r.tip_switch && r.contact_id == 1 && r.contact_count == 1,
            r.x == (if x <= 4095 { x } else { 4095u16 }),
            r.y == (if y <= 4095 { y } else { 4095u16 }),
    {
        HidReport {
            tip_switch: true,
            contact_id: 1,
            x: if x <= HID_MAX { x } else { HID_MAX },
            y: if y <= HID_MAX { y } else { HID_MAX },
            contact_count: 1,
        }
    }

    /// Finger lifted (no touch).
    pub fn release() -> (r: HidReport)
        ensures
            r == HidReport::release_spec(),
            r.wf(),
            !r.tip_switch && r.contact_id == 0 && r.contact_count == 0 && r.x == 0 && r.y == 0,
    {
        HidReport { tip_switch: false, contact_id: 0, x: 0, y: 0, contact_count: 0 }
    }

    /// Serialize to the 8-byte HID report (little-endian coordinates).
    pub fn to_bytes(&self) -> (bytes: [u8; 8])
        ensures
            bytes@ == self.encoded(),
            bytes[0] == 1,
            bytes[1] == (if self.tip_switch { 1u8 } else { 0u8 }),
            bytes[2] == self.contact_id,
            bytes[3] + 256 * bytes[4] == self.x,
            bytes[5] + 256 * bytes[6] == self.y,
            bytes[7] == self.contact_count,
    {
        let tip: u8 = if self.tip_switch { 1 } else { 0 };
        let bytes: [u8; 8] = [
            INPUT_REPORT_ID,
            tip,
            self.contact_id,
            (self.x % 256) as u8,
            (self.x / 256) as u8,
            (self.y % 256) as u8,
            (self.y / 256) as u8,
            self.contact_count,
        ];
        assert(bytes@ =~= self.encoded());
        bytes
    }
}

/// The wire encoding loses nothing: two reports with the same 8 bytes and the same
/// tip-switch byte meaning are equal, and each coordinate is the little-endian
/// value of its two bytes.
pub proof fn lemma_encoding_injective(r1: HidReport, r2: HidReport)
    requires
        r1.encoded() == r2.encoded(),
    ensures
        r1 == r2,
        r1.encoded()[3] + 256 * r1.encoded()[4] == r1.x,
        r1.encoded()[5] + 256 * r1.encoded()[6] == r1.y,
{
    let e1 = r1.encoded();
    let e2 = r2.encoded();
    assert(e1[1] == e2[1]);
    assert(e1[2] == e2[2]);
    assert(e1[3] == e2[3]);
    assert(e1[4] == e2[4]);
    assert(e1[5] == e2[5]);
    assert(e1[6] == e2[6]);
    assert(e1[7] == e2[7]);
}

} // verus!
