//! The flag byte that the cache stores for a message.

use vstd::prelude::*;

verus! {

/// Bit of the flag byte that marks a message as read.
pub const FLAG_READ: u8 = 1;

/// Bit of the flag byte that marks a message as starred.
pub const FLAG_STARRED: u8 = 2;

/// The flag byte of a read/starred pair.
pub open spec fn flag_byte(is_read: bool, is_starred: bool) -> u8 {
    if is_read && is_starred {
        3
    } else if is_read {
        1
    } else if is_starred {
        2
    } else {
        0
    }
}

/// Whether a flag byte has the read bit set.
pub open spec fn byte_is_read(flags: u8) -> bool {
    flags % 2 == 1
}

/// Whether a flag byte has the starred bit set.
pub open spec fn byte_is_starred(flags: u8) -> bool {
    (flags / 2) % 2 == 1
}

/// Packs the two flags into one byte.
pub fn flags_to_u8(is_read: bool, is_starred: bool) -> (r: u8)
    ensures
        r == flag_byte(is_read, is_starred),
{
    let mut f: u8 = 0;
    if is_read {
        f = f + FLAG_READ;
    }
    if is_starred {
        f = f + FLAG_STARRED;
    }
    f
}

/// Reads the two flags back from a byte; the other bits are ignored.
pub fn flags_from_u8(flags: u8) -> (r: (bool, bool))
    ensures
        r.0 == byte_is_read(flags),
        r.1 == byte_is_starred(flags),
{
    (flags % 2 == 1, (flags / 2) % 2 == 1)
}

/// Unpacking what was packed gives the flags back.
pub proof fn lemma_flags_roundtrip(is_read: bool, is_starred: bool)
    ensures
        byte_is_read(flag_byte(is_read, is_starred)) == is_read,
        byte_is_starred(flag_byte(is_read, is_starred)) == is_starred,
{
}

} // verus!
