//! Character device nodes created by the NVIDIA stack.

use vstd::prelude::*;

verus! {

pub const NVIDIA_CTL: &'static str = "/dev/nvidiactl";

pub const NVIDIA_0: &'static str = "/dev/nvidia0";

pub const NVIDIA_UVM: &'static str = "/dev/nvidia-uvm";

pub const NVIDIA_UVM_TOOLS: &'static str = "/dev/nvidia-uvm-tools";

pub const NVIDIA_MODESET: &'static str = "/dev/nvidia-modeset";

pub const NVIDIA_CAPS: &'static str = "/dev/nvidia-caps";

} // verus!
