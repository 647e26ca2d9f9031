//! Execution core of a small 8-bit CPU (the BatPU-2): a register file with a
//! hardwired zero register, byte-addressable data memory whose top addresses
//! are memory-mapped peripheral ports, a bounded circular call stack, condition
//! flags, and the fetch-decode-execute loop that drives them.
//!
//! The peripherals are a toroidal monochrome screen with front/back buffers, a
//! bounded character display fed from a fixed glyph table, a signed-or-unsigned
//! number display, and a digital controller packed into one byte.

use vstd::prelude::*;

pub mod character_display;
pub mod controller;
pub mod instruction;
pub mod machine;
pub mod number_display;
pub mod rng;
pub mod screen;
pub mod stack;

verus! {

/// Euclidean remainder of `v` modulo `m`: the result is always in `[0, m)`,
/// also for negative `v`. This is the wraparound used both by the screen's
/// toroidal coordinates and by the data-memory address space.
pub(crate) fn emod(v: isize, m: usize) -> (r: usize)
    requires
        1 <= m <= isize::MAX,
    ensures
        r as int == v as int % m as int,
        r < m,
{
    match v.checked_rem_euclid(m as isize) {
        Some(r) => r as usize,
        None => {
            proof {
                assert(false);
            }
            0
        },
    }
}

} // verus!
