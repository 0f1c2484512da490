//! Where a tail begins.

use vstd::prelude::*;

verus! {

/// How the first offset is chosen.
#[derive(Clone, Copy, Debug, PartialEq, Eq)]
pub struct TailOptions {
    /// The configured tail offset in bytes, if any.
    pub initial_tail_offset: Option<u64>,
    /// Whether the tail offset counts back from the end of the resource.
    pub reverse_offset: bool,
}

/// The offset at which a tail of a resource of `length` bytes begins.
pub open spec fn initial_offset_of(options: TailOptions, length: u64) -> u64 {
    match options.initial_tail_offset {
        None => length,
        Some(n) => if n >= length {
            length
        } else if options.reverse_offset {
            (length - n) as u64
        } else {
            n
        },
    }
}

/// Computes the offset at which to begin on a resource of `length` bytes.
///
/// With no tail offset the tail begins at the end, so that only what is
/// appended later is shown. A tail offset counts from the start of the
/// resource, or back from its end where the options say so. One that is not
/// below the length gives the end, whichever way it counts.
pub fn initial_offset(options: &TailOptions, length: u64) -> (offset: u64)
    ensures
        offset == initial_offset_of(*options, length),
        offset <= length,
        options.initial_tail_offset is None ==> offset == length,
        options.initial_tail_offset matches Some(n) ==> (n >= length ==> offset == length),
        options.initial_tail_offset matches Some(n) ==> (n < length && !options.reverse_offset
            ==> offset == n),
        options.initial_tail_offset matches Some(n) ==> (n < length && options.reverse_offset
            ==> offset == length - n),
{
    match options.initial_tail_offset {
        None => length,
        Some(n) => if n < length {
            if options.reverse_offset {
                length - n
            } else {
                n
            }
        } else {
            length
        },
    }
}

} // verus!
