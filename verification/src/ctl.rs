//! Host-side control tools: what the character devices, the graphics path and
//! the PCI silicon report, and the rules that judge those reports.

pub mod chardev;
pub mod graphics;
pub mod silicon;
