use vstd::prelude::*;

verus! {

/// The key a record is stored under.
pub type FlashKey = u8;

pub const CONFIG_FLASH_KEY: FlashKey = 1;
pub const STATS_FLASH_KEY: FlashKey = 2;

/// The buffer a record of at most `max_size` serialized bytes needs: the
/// record and its one-byte key, rounded up to a multiple of four.
pub fn flash_buffer_size(max_size: usize) -> (r: usize)
    requires
        max_size + 4 <= usize::MAX,
    ensures
        r == (max_size + 4) / 4 * 4,
{
    let n = max_size + 1 + 3;
    let r = n & !3usize;
    assert(n & !3usize == n / 4 * 4) by (bit_vector);
    r
}

/// The buffer holds the record and its key, and no more than three bytes
/// of padding, and is a multiple of four.
pub proof fn law_buffer_size(max_size: usize)
    requires
        max_size + 4 <= usize::MAX,
    ensures
        ((max_size + 4) / 4 * 4) % 4 == 0,
        max_size + 1 <= (max_size + 4) / 4 * 4 <= max_size + 4,
{
}

} // verus!
