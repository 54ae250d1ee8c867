use hermes::nouveau::chip::{chip_hint_from_device_id, NouveauChip};
use hermes::nouveau::nvkm::NvkmDevice;
use hermes::nouveau::rpc::{validate_reply, RpcError, RpcHeader, RpcReplyPolicy};
use hermes::nouveau::superiority::{comparison_matrix, hermes_exclusive_count, Capability};
use hermes::pci::{pci_identity, NVIDIA_VENDOR_ID};

#[test]
fn aliases_and_fmc() {
    assert_eq!(NouveauChip::Tu117.firmware_canonical(), NouveauChip::Tu116);
    assert_eq!(NouveauChip::Ad107.firmware_canonical(), NouveauChip::Ad102);
    assert!(NouveauChip::Gb202.uses_fmc());
    assert!(!NouveauChip::Tu102.uses_fmc());
    assert_eq!(chip_hint_from_device_id(0x1fb9), Some(NouveauChip::Tu102));
}

#[test]
fn chip_names_round_trip() {
    assert_eq!(NouveauChip::Tu117.as_str(), "tu117");
    assert_eq!(NouveauChip::from_str_name("tu117"), Some(NouveauChip::Tu117));
    assert_eq!(NouveauChip::from_str_name("nv50"), None);
}

#[test]
fn device_defaults_gsp_rm_on() {
    let id = pci_identity(NVIDIA_VENDOR_ID, 0x1fb9, 0x03, 0x00);
    let d = NvkmDevice::new(id, "tu102");
    assert!(d.cfg_nv_gsp_rm);
}

#[test]
fn recv_requires_matching_sequence() {
    let req = RpcHeader { function: 0x10, sequence: 7, payload_bytes: 32, policy: RpcReplyPolicy::Recv };
    assert!(validate_reply(&req, 0x10, 7).is_ok());
    assert_eq!(validate_reply(&req, 0x10, 8), Err(RpcError::SequenceMismatch));
}

#[test]
fn nowait_skips_sequence_check() {
    let req = RpcHeader { function: 1, sequence: 0, payload_bytes: 0, policy: RpcReplyPolicy::NoWait };
    assert!(validate_reply(&req, 99, 99).is_ok());
}

#[test]
fn waiting_reply_for_another_function_is_a_fault() {
    let req = RpcHeader { function: 0x10, sequence: 7, payload_bytes: 32, policy: RpcReplyPolicy::Poll };
    assert_eq!(validate_reply(&req, 0x11, 7), Err(RpcError::Fault));
    assert_eq!(RpcError::Timeout.message(), "rpc timeout");
    assert_eq!(RpcReplyPolicy::from_u8(2), Some(RpcReplyPolicy::Recv));
    assert_eq!(RpcReplyPolicy::from_u8(4), None);
}

#[test]
fn hermes_has_exclusive_edges() {
    assert!(hermes_exclusive_count() >= 5);
    assert!(comparison_matrix()
        .iter()
        .any(|e| e.capability == Capability::MeasuredSha256Admission && e.hermes_advantage()));
}
