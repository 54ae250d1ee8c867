//! Userspace control binaries and libraries that Hermes replaces or coexists with.

use vstd::prelude::*;

verus! {

pub const NVIDIA_SETTINGS: &'static str = "nvidia-settings";

pub const NVIDIA_SMI: &'static str = "nvidia-smi";

pub const NVIDIA_MODPROBE: &'static str = "nvidia-modprobe";

pub const LIB_NVIDIA_ML: &'static str = "libnvidia-ml.so.1";

pub const LIB_CUDA: &'static str = "libcuda.so.1";

pub const LIB_GLX_NVIDIA: &'static str = "libGLX_nvidia.so.0";

} // verus!
