//! The USB HID boot-keyboard input report and its 8-byte wire format.

use vstd::prelude::*;

verus! {

/// One boot-keyboard input report: a modifier bitmask (bit 0 = LeftCtrl,
/// bit 1 = LeftShift, bit 2 = LeftAlt, bit 3 = LeftGUI, bits 4..7 the right
/// side) and up to six concurrently pressed keycodes, unused slots zero.
/// The reserved byte of the wire format is always zero and is added by
/// `to_bytes`.
#[derive(Clone, Copy, PartialEq, Eq, Debug)]
pub struct Report {
    pub modifier: u8,
    pub keycodes: [u8; 6],
}

impl Report {
    /// The canonical "all keys released" report: modifier zero, every slot zero.
    pub open spec fn spec_released() -> Report {
        Report { modifier: 0, keycodes: [0u8, 0u8, 0u8, 0u8, 0u8, 0u8] }
    }

    /// A report pressing a single key under the given modifier bitmask.
    pub open spec fn spec_key_press(modifier: u8, keycode: u8) -> Report {
        Report { modifier: modifier, keycodes: [keycode, 0u8, 0u8, 0u8, 0u8, 0u8] }
    }

    pub fn released() -> (r: Report)
        ensures
            r == Report::spec_released(),
    {
        Report { modifier: 0, keycodes: [0, 0, 0, 0, 0, 0] }
    }

    pub fn key_press(modifier: u8, keycode: u8) -> (r: Report)
        ensures
            r == Report::spec_key_press(modifier, keycode),
    {
        Report { modifier, keycodes: [keycode, 0, 0, 0, 0, 0] }
    }

    /// The fixed 8-byte wire layout: modifier, reserved zero, six keycode slots.
    pub open spec fn wire_bytes(self) -> Seq<u8> {
        seq![
            self.modifier,
            0u8,
            self.keycodes[0],
            self.keycodes[1],
            self.keycodes[2],
            self.keycodes[3],
            self.keycodes[4],
            self.keycodes[5],
        ]
    }

    /// Frame this report as the exact 8 bytes that cross the USB endpoint.
    pub fn to_bytes(&self) -> (b: Vec<u8>)
        ensures
            b@ == self.wire_bytes(),
    {
        let mut b: Vec<u8> = Vec::new();
        b.push(self.modifier);
        b.push(0);
        b.push(self.keycodes[0]);
        b.push(self.keycodes[1]);
        b.push(self.keycodes[2]);
        b.push(self.keycodes[3]);
        b.push(self.keycodes[4]);
        b.push(self.keycodes[5]);
        proof {
            assert(b@ =~= self.wire_bytes());
        }
        b
    }
}

} // verus!
