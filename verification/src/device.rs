//! The device-side surface of the binding layer.
//!
//! Grid-geometry registers, warp match and shuffle, and the system
//! allocator are one-to-one bindings to CUDA intrinsics with no algorithmic
//! content.  The verified core assumes nothing of them beyond the single
//! formatted-output entry point the emitted call names, so only their types
//! and traits are declared here, keeping the crate's public surface
//! complete; the intrinsic-backed implementations belong to the device
//! build, outside the verified core.

use vstd::prelude::*;

verus! {

/// Handle for the device-side system allocator (`malloc`/`free` syscalls).
pub struct CudaSysAllocator;

/// Warp-wide value matching: a mask of the lanes whose value equals the
/// caller's.
pub trait Match: Sized {
    fn match_any(self, membermask: u32) -> u32;
}

/// Warp-wide register shuffling between lanes.
pub trait Shuffle: Sized {
    fn shfl_idx(self, mask: u32, src_lane: u32) -> Self;

    fn shfl_down(self, mask: u32, delta: u32) -> Self;

    fn shfl_up(self, mask: u32, delta: u32) -> Self;

    fn shfl_bfly(self, mask: u32, lane_mask: u32) -> Self;
}

/// The thread's index within its block, one special register per axis.
#[allow(non_camel_case_types)]
pub struct threadIdx {}

/// The block's index within the grid, one special register per axis.
#[allow(non_camel_case_types)]
pub struct blockIdx {}

/// The block's extent, one special register per axis.
#[allow(non_camel_case_types)]
pub struct blockDim {}

/// The grid's extent, one special register per axis.
#[allow(non_camel_case_types)]
pub struct gridDim {}

} // verus!
