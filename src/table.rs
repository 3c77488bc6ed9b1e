//! Construction of one-period waveform tables.
//!
//! Samples are signed 16-bit amplitudes: `FULL_SCALE` stands for +1.0 and
//! `-FULL_SCALE` for -1.0.

use vstd::prelude::*;

verus! {

/// The amplitude that stands for +1.0.
pub const FULL_SCALE: i16 = 32767;

/// Sample `n` of a square table of `len` samples: the low level up to and
/// including the midpoint `len / 2`, the high level after it.
pub open spec fn square_sample(n: int, len: int) -> int {
    if n > len / 2 {
        FULL_SCALE as int
    } else {
        -(FULL_SCALE as int)
    }
}

/// Builds one period of a square wave of `length` samples. The sample at the
/// midpoint `length / 2` belongs to the low half, so for even lengths the low
/// half is one sample longer than the high half.
pub fn build_square(length: usize) -> (table: Vec<i16>)
    ensures
        table@.len() == length,
        forall|n: int| 0 <= n < length ==> #[trigger] table@[n] == square_sample(n, length as int),
{
    let mut table: Vec<i16> = Vec::with_capacity(length);
    let half: usize = length / 2;
    for n in 0..length
        invariant
            half == length / 2,
            table@.len() == n,
            forall|k: int| 0 <= k < n ==> table@[k] == square_sample(k, length as int),
    {
        if n > half {
            table.push(FULL_SCALE);
        } else {
            table.push(-FULL_SCALE);
        }
    }
    table
}

/// Every sample of a square table is exactly one of the two levels; for an
/// even length of at least four, the midpoint sample is low and the one
/// after it is high.
pub proof fn square_levels(len: int)
    requires
        len % 2 == 0,
        len >= 4,
    ensures
        forall|n: int|
            0 <= n < len ==> #[trigger] square_sample(n, len) == FULL_SCALE || square_sample(n, len)
                == -FULL_SCALE,
        square_sample(len / 2, len) == -FULL_SCALE,
        square_sample(len / 2 + 1, len) == FULL_SCALE,
        len / 2 + 1 < len,
{
}

} // verus!
