use hermes::pci::{
    admit_display_device, admit_nvidia_device, pci_identity, AdmissionError, NvidiaArchitecture,
    NVIDIA_VENDOR_ID, PCI_CLASS_DISPLAY,
};

#[test]
fn admits_t1000_display_rejects_volta() {
    let t1000 = pci_identity(NVIDIA_VENDOR_ID, 0x1fb9, PCI_CLASS_DISPLAY, 0x00);
    let admitted = admit_display_device(&t1000).expect("T1000 must admit");
    assert_eq!(admitted.architecture, NvidiaArchitecture::Turing);

    let volta = pci_identity(NVIDIA_VENDOR_ID, 0x1db6, PCI_CLASS_DISPLAY, 0x00);
    assert_eq!(
        admit_display_device(&volta),
        Err(AdmissionError::UnsupportedArchitecture)
    );
}

#[test]
fn rejects_non_nvidia_and_non_display() {
    let intel = pci_identity(0x8086, 0x3e9b, PCI_CLASS_DISPLAY, 0x00);
    assert_eq!(admit_display_device(&intel), Err(AdmissionError::NotNvidia));

    let audio = pci_identity(NVIDIA_VENDOR_ID, 0x1fb9, 0x04, 0x03);
    assert_eq!(
        admit_display_device(&audio),
        Err(AdmissionError::NotDisplayController)
    );
    assert!(admit_nvidia_device(&audio).is_ok());
}

#[test]
fn admits_ampere_ada_blackwell() {
    for id in [0x2204u16, 0x2684, 0x2b85] {
        let dev = pci_identity(NVIDIA_VENDOR_ID, id, PCI_CLASS_DISPLAY, 0x00);
        assert!(admit_display_device(&dev).is_ok(), "device {id:#x}");
    }
}

#[test]
fn invalid_identity_is_refused_first() {
    let bad = pci_identity(0xffff, 0x1fb9, PCI_CLASS_DISPLAY, 0);
    assert_eq!(admit_nvidia_device(&bad), Err(AdmissionError::InvalidIdentity));
    let zero = pci_identity(0, 0x1fb9, PCI_CLASS_DISPLAY, 0);
    assert_eq!(admit_display_device(&zero), Err(AdmissionError::InvalidIdentity));
}
