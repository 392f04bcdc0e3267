//! Device-config flags persisted to the `"config"` key-value namespace.
//!
//! The boot chime flag is stored as one byte; a fresh badge that never had
//! the flag written (or whose read fails) keeps the chime enabled.
use vstd::prelude::*;

verus! {

/// The byte stored for the boot-chime flag.
pub open spec fn spec_boot_chime_byte(enabled: bool) -> u8 {
    if enabled {
        1
    } else {
        0
    }
}

/// The flag a read gives: only a successful one-byte read of 0 disables it.
pub open spec fn spec_boot_chime_from_read(read_len: Option<usize>, first_byte: u8) -> bool {
    !(read_len == Some(1usize) && first_byte == 0)
}

/// The byte stored for the boot-chime flag.
pub fn boot_chime_byte(enabled: bool) -> (b: u8)
    ensures
        b == spec_boot_chime_byte(enabled),
{
    if enabled {
        1
    } else {
        0
    }
}

/// The boot-chime flag from a read of its key: `read_len` is the number of
/// bytes read (`None` when the read failed or the key is missing) and
/// `first_byte` the first byte of the buffer.  Only a successful one-byte
/// read of 0 disables the chime; anything else leaves it enabled.
pub fn boot_chime_from_read(read_len: Option<usize>, first_byte: u8) -> (enabled: bool)
    ensures
        enabled == spec_boot_chime_from_read(read_len, first_byte),
{
    match read_len {
        Some(1) => first_byte != 0,
        _ => true,
    }
}

/// Persisting the flag and reading its one byte back gives the same flag.
pub proof fn lemma_boot_chime_round_trip(enabled: bool)
    ensures
        spec_boot_chime_from_read(Some(1usize), spec_boot_chime_byte(enabled)) == enabled,
{
}

/// A badge that never stored the flag (or cannot read it) chimes.
pub proof fn lemma_boot_chime_default(first_byte: u8)
    ensures
        spec_boot_chime_from_read(None, first_byte),
{
}

} // verus!
