# hermes

Fail-closed bring-up of NVIDIA Turing-and-newer GPUs through GSP-RM, and the
drop-in surfaces around it (NVML, CUDA driver entry points, DRM/KMS, Mesa/Vulkan
ICD, `nvidia-smi`, `nvidia-modprobe`, MPS control, `nvidia-settings`), written
in Verus.

## Layout

- `src/` — the verified library. Every public function carries a contract that
  Verus proves: PCI admission gates, firmware pinning by SHA-256, GSP-RM ELF
  parsing, WPR2 layout, DMA staging, the mailbox handshake, the evidence
  manifold and the shared bring-up sequencer (which never reports Online
  without every evidence token, touches no hardware before its gates pass, and
  hands back every domain, BAR window and DMA region it took), plus the text
  and state machines of the user-space tools.
- `src/platform.rs` — the host services trait; its contract keeps the account
  of resources an implementation hands out. `src/sim_platform.rs` is a
  verified implementation used by tests and smoke runs.
- `tests/` — ordinary Rust tests against the library.
- `app/` — the `hermes-ctl` command line, the C ABI entry points, host probing
  (sysfs, ioctls, sockets), the settings web page and everything else that does
  I/O or floating point.

The only outside crate is `sha2`, reached through one trusted wrapper.
