//! First-boot sponsor slideshow: slide file names.
//!
//! Slides are 152×152 PCX files on the FAT12 volume named `020000.PCX`
//! through `020009.PCX`; missing files are skipped.
use vstd::prelude::*;

verus! {

/// Maximum number of sponsor slides.
pub const MAX_SPONSORS: usize = 10;

/// Upper-case hex digit of `d` (0–15), as an ASCII byte.
pub open spec fn spec_hex_upper(d: int) -> u8 {
    if d < 10 {
        (48 + d) as u8
    } else {
        (55 + d) as u8
    }
}

/// The 8.3 directory name of slide `index`: `0200` then the index as two
/// upper-case hex digits, two spaces, then `PCX`.
pub open spec fn spec_sponsor_filename(index: u8) -> Seq<u8> {
    seq![
        48u8,
        50u8,
        48u8,
        48u8,
        spec_hex_upper((index / 16) as int),
        spec_hex_upper((index % 16) as int),
        32u8,
        32u8,
        80u8,
        67u8,
        88u8,
    ]
}

fn hex_upper(d: u8) -> (c: u8)
    requires
        d < 16,
    ensures
        c == spec_hex_upper(d as int),
{
    if d < 10 {
        48 + d
    } else {
        55 + d
    }
}

/// Build the FAT12 8.3 filename for sponsor slide `index`.
pub fn sponsor_filename(index: u8) -> (name: [u8; 11])
    ensures
        name@ == spec_sponsor_filename(index),
{
    let hi = hex_upper(index / 16);
    let lo = hex_upper(index % 16);
    let name: [u8; 11] = [48, 50, 48, 48, hi, lo, 32, 32, 80, 67, 88];
    assert(name@ =~= spec_sponsor_filename(index));
    name
}

} // verus!
