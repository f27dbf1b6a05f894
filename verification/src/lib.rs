//! Binary Info: the metadata block that `picotool` reads out of an RP2040 /
//! RP2350 image, with its entry layouts and the pin encodings, verified.

pub mod consts;
pub mod laws;
pub mod names;
pub mod types;

pub use consts::GpioFunction;
pub use names::pins_names_concat;
pub use types::{
    DataType, EntryAddr, EntryCommon, Header, IntegerEntry, MappingTableEntry, PinsWithFunction,
    PinsWithName, PointerEntry, StringEntry,
};


use vstd::prelude::*;

verus! {

/// The tag value that two ASCII characters make, the first in the low byte.
pub open spec fn tag_of(c0: u8, c1: u8) -> u16 {
    (c0 as int + 256 * (c1 as int)) as u16
}

/// Make a tag from two characters: the first goes in the low byte, the
/// second in the high byte (the bytes read as a little-endian `u16`).
pub fn make_tag(c: &[u8; 2]) -> (r: u16)
    ensures
        r == tag_of(c[0], c[1]),
        r as int == c[0] as int + 256 * (c[1] as int),
        r % 256 == c[0] as int,
        r / 256 == c[1] as int,
{
    let lo: u16 = c[0] as u16;
    let hi: u16 = c[1] as u16;
    hi * 256 + lo
}

} // verus!
