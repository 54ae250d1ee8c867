//! Hermes: fail-closed NVIDIA GSP bring-up, display and compatibility layers,
//! with the admission gates, evidence manifold and buffer geometry verified.

pub mod bootstrap;
pub mod bringup;
pub mod cccl;
pub mod ctl;
pub mod ctl_uapi;
pub mod cuda;
pub mod drm;
pub mod elf_gsp;
pub mod fault;
pub mod firmware;
pub mod host_gate;
pub mod layout;
pub mod linux;
pub mod mailbox;
pub mod manifold;
pub mod modprobe;
pub mod mps;
pub mod mesa;
pub mod nouveau;
pub mod nvml;
pub mod pci;
pub mod platform;
pub mod regs;
pub mod session;
pub mod settings;
pub mod sim_platform;
pub mod sort;
pub mod stage;
pub mod text;
pub mod vendor;
pub mod wpr;
