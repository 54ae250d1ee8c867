//! GA102 GSP register offsets and field masks.

use vstd::prelude::*;
use super::{field_mask, field_mask_of};

verus! {

pub const NV_PGSP_FALCON_MAILBOX0: u32 = 0x00110040;
/// Bitfield 31:0
pub const NV_PGSP_FALCON_MAILBOX0_DATA_HI: u32 = 31;
pub const NV_PGSP_FALCON_MAILBOX0_DATA_LO: u32 = 0;
pub fn nv_pgsp_falcon_mailbox0_data_mask() -> (m: u32)
    ensures
        m == field_mask(31, 0),
{
    field_mask_of(31, 0)
}

pub const NV_PGSP_FALCON_MAILBOX1: u32 = 0x00110044;
/// Bitfield 31:0
pub const NV_PGSP_FALCON_MAILBOX1_DATA_HI: u32 = 31;
pub const NV_PGSP_FALCON_MAILBOX1_DATA_LO: u32 = 0;
pub fn nv_pgsp_falcon_mailbox1_data_mask() -> (m: u32)
    ensures
        m == field_mask(31, 0),
{
    field_mask_of(31, 0)
}

pub const NV_PGSP_FALCON_ENGINE: u32 = 0x001103c0;
/// Bitfield 0:0
pub const NV_PGSP_FALCON_ENGINE_RESET_HI: u32 = 0;
pub const NV_PGSP_FALCON_ENGINE_RESET_LO: u32 = 0;
pub fn nv_pgsp_falcon_engine_reset_mask() -> (m: u32)
    ensures
        m == field_mask(0, 0),
{
    field_mask_of(0, 0)
}

pub const NV_PGSP_FALCON_ENGINE_RESET_TRUE: u32 = 0x00000001;
pub const NV_PGSP_FALCON_ENGINE_RESET_FALSE: u32 = 0x00000000;
pub const NV_PGSP_MAILBOX__SIZE_1: u32 = 0x00000004;
/// Bitfield 31:0
pub const NV_PGSP_MAILBOX_DATA_HI: u32 = 31;
pub const NV_PGSP_MAILBOX_DATA_LO: u32 = 0;
pub fn nv_pgsp_mailbox_data_mask() -> (m: u32)
    ensures
        m == field_mask(31, 0),
{
    field_mask_of(31, 0)
}

pub const NV_PGSP_QUEUE_HEAD__SIZE_1: u32 = 0x00000008;
/// Bitfield 31:0
pub const NV_PGSP_QUEUE_HEAD_ADDRESS_HI: u32 = 31;
pub const NV_PGSP_QUEUE_HEAD_ADDRESS_LO: u32 = 0;
pub fn nv_pgsp_queue_head_address_mask() -> (m: u32)
    ensures
        m == field_mask(31, 0),
{
    field_mask_of(31, 0)
}

} // verus!
