//! CUDA compatibility: host-side Thrust-shaped algorithms.

pub mod host_thrust;

use vstd::prelude::*;

verus! {

/// The CCCL release these host algorithms follow; this build pins none.
pub const CCCL_VERSION: &'static str = "unpinned";

} // verus!
