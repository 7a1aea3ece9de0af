use vstd::prelude::*;

use crate::bytes::{all_bytes_equal, all_equal, copy_range};
use crate::calibration::spi::{spi_reply_matches, spi_reply_matches_spec, SPI_DATA_OFFSET};

verus! {

/// Address and length of the colors in SPI flash.
pub const COLOR_ADDRESS: u16 = 0x6050;
pub const COLOR_LENGTH: u8 = 12;

/// Colors of the controller's body, buttons and grips, as RGB.
#[derive(Debug, Clone, Copy, Hash, Eq, PartialEq)]
pub struct Color {
    /// Body color, e.g. [30, 220, 0]
    pub body: [u8; 3],
    pub buttons: [u8; 3],
    pub left_grip: Option<[u8; 3]>,
    pub right_grip: Option<[u8; 3]>,
}

/// A grip color of all `0xFF` is no color.
pub open spec fn grip_spec(s: Seq<u8>) -> Option<Seq<u8>> {
    if all_equal(s, 0xFF) {
        None
    } else {
        Some(s)
    }
}

pub open spec fn grip_view(g: Option<[u8; 3]>) -> Option<Seq<u8>> {
    match g {
        Some(c) => Some(c@),
        None => None,
    }
}

impl Color {
    pub open spec fn decodes(self, array: Seq<u8>) -> bool {
        &&& self.body@ == array.subrange(0, 3)
        &&& self.buttons@ == array.subrange(3, 6)
        &&& grip_view(self.left_grip) == grip_spec(array.subrange(6, 9))
        &&& grip_view(self.right_grip) == grip_spec(array.subrange(9, 12))
    }

    pub fn from(array: [u8; 12]) -> (r: Color)
        ensures
            r.decodes(array@),
    {
        let body: [u8; 3] = copy_range(&array, 0);
        let buttons: [u8; 3] = copy_range(&array, 3);
        let left: [u8; 3] = copy_range(&array, 6);
        let right: [u8; 3] = copy_range(&array, 9);
        let left_grip = if all_bytes_equal(&left, 0xFF) {
            None
        } else {
            Some(left)
        };
        let right_grip = if all_bytes_equal(&right, 0xFF) {
            None
        } else {
            Some(right)
        };
        Color { body, buttons, left_grip, right_grip }
    }
}

/// The colors in a reply to their SPI flash read, if the reply answers that
/// read.
pub fn get_color(reply: &[u8; 64]) -> (r: Option<Color>)
    ensures
        spi_reply_matches_spec(reply@, COLOR_ADDRESS, COLOR_LENGTH) ==> r is Some
            && r->Some_0.decodes(reply@.subrange(20, 32)),
        !spi_reply_matches_spec(reply@, COLOR_ADDRESS, COLOR_LENGTH) ==> r is None,
{
    if !spi_reply_matches(reply, COLOR_ADDRESS, COLOR_LENGTH) {
        return None;
    }
    let block: [u8; 12] = copy_range(reply, SPI_DATA_OFFSET);
    Some(Color::from(block))
}

} // verus!
