//! Kernel module names of the open GPU kernel module set, and Hermes aliases.

use vstd::prelude::*;

verus! {

pub const NVIDIA: &'static str = "nvidia";

pub const NVIDIA_MODESET: &'static str = "nvidia-modeset";

pub const NVIDIA_UVM: &'static str = "nvidia-uvm";

pub const NVIDIA_DRM: &'static str = "nvidia-drm";

pub const NVIDIA_PEERMEM: &'static str = "nvidia-peermem";

/// Hermes-owned alias that loads the same personality.
pub const HERMES: &'static str = "hermes";

pub const HERMES_GSP: &'static str = "hermes-gsp";

/// The five module names of the NVIDIA set, in load order.
pub open spec fn spec_all_nvidia_set() -> Seq<&'static str> {
    seq![NVIDIA, NVIDIA_MODESET, NVIDIA_UVM, NVIDIA_DRM, NVIDIA_PEERMEM]
}

/// The module names of the NVIDIA set.
pub fn all_nvidia_set() -> (names: [&'static str; 5])
    ensures
        names@ == spec_all_nvidia_set(),
{
    let names = [NVIDIA, NVIDIA_MODESET, NVIDIA_UVM, NVIDIA_DRM, NVIDIA_PEERMEM];
    assert(names@ =~= spec_all_nvidia_set());
    names
}

} // verus!
