//! Screen capture on macOS: ScreenCaptureKit for the picture and the sound.

use std::sync::atomic::{AtomicU64, Ordering};
use vstd::prelude::*;

pub mod capture;
pub mod delegate;

verus! {

/// A width and a height in one number: the width in the upper half, the height in the lower.
pub open spec fn packed_size(width: u32, height: u32) -> u64 {
    (width as u64) << 32 | height as u64
}

/// The width and the height that a number holds.
pub open spec fn unpacked_size(packed: u64) -> (u32, u32) {
    ((packed >> 32) as u32, packed as u32)
}

/// Put a width and a height into one number.
pub fn pack_size(width: u32, height: u32) -> (packed: u64)
    ensures
        packed == packed_size(width, height),
{
    (width as u64) << 32 | height as u64
}

/// Take the width and the height out of a number again.
pub fn unpack_size(packed: u64) -> (size: (u32, u32))
    ensures
        size == unpacked_size(packed),
{
    ((packed >> 32) as u32, #[verifier::truncate]
    (packed as u32))
}

/// What is packed comes out again.
pub proof fn law_size_survives_packing(width: u32, height: u32)
    ensures
        unpacked_size(packed_size(width, height)) == (width, height),
{
    assert((((width as u64) << 32 | height as u64) >> 32) as u32 == width) by (bit_vector);
    assert(((width as u64) << 32 | height as u64) as u32 == height) by (bit_vector);
}

/// The capture's width and height, shared between the capture thread and the descriptor.
///
/// One `u64` rather than a lock: the output delegate writes it from ScreenCaptureKit's serial
/// queue, where it must never block. The packing lives here alone, so the write and the read
/// cannot drift apart, and `store` taking `u32`s is what keeps a 64-bit height out of the
/// width half. What `load` gives depends on what other threads have stored.
pub struct AtomicSize(AtomicU64);

impl AtomicSize {
    /// A size of `(0, 0)`.
    pub fn new() -> Self {
        AtomicSize(AtomicU64::new(0))
    }

    /// Set the size.
    pub fn store(&self, width: u32, height: u32) {
        self.0.store(pack_size(width, height), Ordering::Relaxed);
    }

    /// The size that was set last.
    pub fn load(&self) -> (u32, u32) {
        unpack_size(self.0.load(Ordering::Relaxed))
    }
}

/// The `CGWindowID` that a window number stands for. A window that has none, because it is not
/// on the screen, reports a number that is none.
pub fn window_id(window_number: isize) -> (id: Option<u32>)
    ensures
        match id {
            Some(id) => id == window_number,
            None => window_number < 0 || window_number > u32::MAX,
        },
{
    if window_number < 0 {
        return None;
    }
    let number: u64 = window_number as u64;
    if number <= u32::MAX as u64 {
        Some(number as u32)
    } else {
        None
    }
}

/// A packed size has the width above its lower 32 bits and the height in them, and both come out
/// again.
pub proof fn law_packed_sizes(width: u32, height: u32, packed: u64, size: (u32, u32))
    requires
        call_ensures(pack_size, (width, height), packed),
        call_ensures(unpack_size, (packed,), size),
    ensures
        packed == width * 0x1_0000_0000 + height,
        size == (width, height),
{
    law_size_survives_packing(width, height);
    assert((width as u64) << 32 | height as u64 == width * 0x1_0000_0000 + height) by (bit_vector);
}

/// A window number that 32 bits can say is the window's id, and no other is one.
pub proof fn law_window_ids(window_number: isize, id: Option<u32>)
    requires
        call_ensures(window_id, (window_number,), id),
    ensures
        0 <= window_number <= u32::MAX ==> id is Some && id->0 == window_number,
        window_number < 0 || window_number > u32::MAX ==> id is None,
{
}

} // verus!
