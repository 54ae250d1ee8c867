use vstd::prelude::*;

verus! {

/// Faults reported by the GSP path and its host platform services.
#[derive(Clone, Copy, Debug, PartialEq, Eq, Structural)]
pub enum HermesFault {
    NotNvidia,
    NotDisplayController,
    UnsupportedArchitecture,
    NoPersonality,
    AmbiguousPersonality,
    PersonalityCapacity,
    PersonalityRejected,
    CompatibilityRejected,
    ProfileRejected,
    CodecRejected,
    FirmwareMissing,
    FirmwareUnexpected,
    FirmwareSize,
    FirmwareAlignment,
    FirmwareRejected,
    DeviceIsolation,
    BarUnavailable,
    MmioOutOfRange,
    MmioRead,
    MmioWrite,
    UnstableMmio,
    DmaAllocation,
    DmaAccess,
    DmaAddressOverflow,
    QueueGeometry,
    QueueFull,
    QueueCorrupt,
    PendingCapacity,
    DuplicateRequest,
    UnknownResponse,
    ResponseMismatch,
    ResponseExpired,
    ProtocolMismatch,
    RequiredFeatureMissing,
    BootFuelExhausted,
    BootInstructionRejected,
    DeadlineExpired,
    DeviceFault,
    RecoveryRequired,
    CorrelationSpaceExhausted,
    ArithmeticOverflow,
}

} // verus!
