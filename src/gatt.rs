//! Identifiers of the device's Bluetooth services and characteristics, and
//! the choice of the characteristics that carry the command channel.
use vstd::prelude::*;

verus! {

/// Service whose advertisement data holds the live reading
/// (`0000fd3d-0000-1000-8000-00805f9b34fb`).
pub const ADVERTISEMENT_SERVICE_UUID: u128 = 0x0000fd3d00001000800000805f9b34fbu128;

/// GATT service of the command channel (`cba20d00-224d-11e6-9fb8-0002a5d5c51b`).
pub const SERVICE_UUID: u128 = 0xcba20d00224d11e69fb80002a5d5c51bu128;

/// Characteristic that commands are written to
/// (`cba20002-224d-11e6-9fb8-0002a5d5c51b`).
pub const WRITE_CHAR_UUID: u128 = 0xcba20002224d11e69fb80002a5d5c51bu128;

/// Characteristic whose notifications carry the responses
/// (`cba20003-224d-11e6-9fb8-0002a5d5c51b`).
pub const READ_CHAR_UUID: u128 = 0xcba20003224d11e69fb80002a5d5c51bu128;

/// Index of the last characteristic `characteristic` of the command service
/// among the `(service, characteristic)` identifier pairs `found`.
pub open spec fn last_found(found: Seq<(u128, u128)>, characteristic: u128) -> Option<int>
    decreases found.len(),
{
    if found.len() == 0 {
        None
    } else if found.last() == (SERVICE_UUID, characteristic) {
        Some(found.len() - 1)
    } else {
        last_found(found.drop_last(), characteristic)
    }
}

/// Indices of the response and command characteristics among `found`, when
/// both are there.
pub open spec fn channel_of(found: Seq<(u128, u128)>) -> Option<(int, int)> {
    match (last_found(found, READ_CHAR_UUID), last_found(found, WRITE_CHAR_UUID)) {
        (Some(read), Some(write)) => Some((read, write)),
        _ => None,
    }
}

/// Picks the command channel among the characteristics of a device, given
/// in discovery order as `(service, characteristic)` identifier pairs:
/// the indices of the response characteristic and of the command
/// characteristic of the command service, the last of each when one is
/// found twice, or `None` unless both are found.
pub fn select_characteristics(found: &[(u128, u128)]) -> (r: Option<(usize, usize)>)
    ensures
        r is Some <==> channel_of(found@) is Some,
        r matches Some((read, write)) ==> channel_of(found@) == Some((read as int, write as int)),
{
    let mut read: Option<usize> = None;
    let mut write: Option<usize> = None;
    let mut i: usize = 0;
    while i < found.len()
        invariant
            i <= found@.len(),
            read is Some <==> last_found(found@.subrange(0, i as int), READ_CHAR_UUID) is Some,
            read is Some ==> last_found(found@.subrange(0, i as int), READ_CHAR_UUID) == Some(
                read->0 as int,
            ),
            write is Some <==> last_found(found@.subrange(0, i as int), WRITE_CHAR_UUID) is Some,
            write is Some ==> last_found(found@.subrange(0, i as int), WRITE_CHAR_UUID) == Some(
                write->0 as int,
            ),
        decreases found@.len() - i,
    {
        let (service, characteristic) = found[i];
        assert(found@.subrange(0, i + 1).drop_last() =~= found@.subrange(0, i as int));
        if service == SERVICE_UUID {
            if characteristic == READ_CHAR_UUID {
                read = Some(i);
            } else if characteristic == WRITE_CHAR_UUID {
                write = Some(i);
            }
        }
        i = i + 1;
    }
    assert(found@.subrange(0, found@.len() as int) =~= found@);
    match (read, write) {
        (Some(r), Some(w)) => Some((r, w)),
        _ => None,
    }
}

} // verus!
