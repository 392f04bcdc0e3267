//! Device identity: a two-byte ID from the factory-programmed device
//! address, cached once at startup.
use vstd::prelude::*;

verus! {

/// The two-byte ID of a device address word: its two low bytes, least
/// significant first.
pub fn id_from_deviceaddr(lo: u32) -> (id: [u8; 2])
    ensures
        id@ == seq![(lo % 256) as u8, ((lo / 256) % 256) as u8],
{
    let id = [(lo % 256) as u8, ((lo / 256) % 256) as u8];
    assert(id@ =~= seq![(lo % 256) as u8, ((lo / 256) % 256) as u8]);
    id
}

/// Return the cached two-byte device ID.  The cache must have been filled
/// at startup.
pub fn get(cached: Option<[u8; 2]>) -> (id: [u8; 2])
    requires
        cached is Some,
    ensures
        cached == Some(id),
{
    match cached {
        Some(id) => id,
        None => [0, 0],
    }
}

} // verus!
