//! Nouveau NVKM GSP knowledge mapped onto Hermes: chip identities, the NVKM
//! object hierarchy, RPC reply policies and the capability comparison. Hermes
//! keeps Nouveau's firmware binding knowledge but raises the Online bar.

pub mod chip;
pub mod nvkm;
pub mod rpc;
pub mod superiority;
