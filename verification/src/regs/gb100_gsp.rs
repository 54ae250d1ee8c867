//! GB100 GSP register offsets and field masks.

use vstd::prelude::*;
use super::{field_mask, field_mask_of};

verus! {

pub const NV_PGSP_FALCON_MAILBOX0: u32 = 0x00110040;
/// Bitfield 31:0
pub const NV_PGSP_FALCON_MAILBOX0_DATA_HI: u32 = 31;
pub const NV_PGSP_FALCON_MAILBOX0_DATA_LO: u32 = 0;
pub fn nv_pgsp_falcon_mailbox0_data_mask() -> (m: u32)
    ensures
        m == field_mask(31, 0),
{
    field_mask_of(31, 0)
}

pub const NV_PGSP_FALCON_MAILBOX0_DATA_INIT: u32 = 0x00000000;
pub const NV_PGSP_FALCON_MAILBOX1: u32 = 0x00110044;
/// Bitfield 31:0
pub const NV_PGSP_FALCON_MAILBOX1_DATA_HI: u32 = 31;
pub const NV_PGSP_FALCON_MAILBOX1_DATA_LO: u32 = 0;
pub fn nv_pgsp_falcon_mailbox1_data_mask() -> (m: u32)
    ensures
        m == field_mask(31, 0),
{
    field_mask_of(31, 0)
}

pub const NV_PGSP_FALCON_MAILBOX1_DATA_INIT: u32 = 0x00000000;
pub const NV_PGSP_FALCON_ENGINE: u32 = 0x001103c0;
/// Bitfield 0:0
pub const NV_PGSP_FALCON_ENGINE_RESET_HI: u32 = 0;
pub const NV_PGSP_FALCON_ENGINE_RESET_LO: u32 = 0;
pub fn nv_pgsp_falcon_engine_reset_mask() -> (m: u32)
    ensures
        m == field_mask(0, 0),
{
    field_mask_of(0, 0)
}

pub const NV_PGSP_FALCON_ENGINE_RESET_DEASSERT: u32 = 0x00000000;
pub const NV_PGSP_FALCON_ENGINE_RESET_ASSERT: u32 = 0x00000001;
/// Bitfield 10:8
pub const NV_PGSP_FALCON_ENGINE_RESET_STATUS_HI: u32 = 10;
pub const NV_PGSP_FALCON_ENGINE_RESET_STATUS_LO: u32 = 8;
pub fn nv_pgsp_falcon_engine_reset_status_mask() -> (m: u32)
    ensures
        m == field_mask(10, 8),
{
    field_mask_of(10, 8)
}

pub const NV_PGSP_FALCON_ENGINE_RESET_STATUS_ASSERTED: u32 = 0x00000000;
pub const NV_PGSP_FALCON_ENGINE_RESET_STATUS_DEASSERTED: u32 = 0x00000002;
pub const NV_PGSP_EMEMC__SIZE_1: u32 = 0x00000008;
/// Bitfield 7:2
pub const NV_PGSP_EMEMC_OFFS_HI: u32 = 7;
pub const NV_PGSP_EMEMC_OFFS_LO: u32 = 2;
pub fn nv_pgsp_ememc_offs_mask() -> (m: u32)
    ensures
        m == field_mask(7, 2),
{
    field_mask_of(7, 2)
}

pub const NV_PGSP_EMEMC_OFFS_INIT: u32 = 0x00000000;
/// Bitfield 15:8
pub const NV_PGSP_EMEMC_BLK_HI: u32 = 15;
pub const NV_PGSP_EMEMC_BLK_LO: u32 = 8;
pub fn nv_pgsp_ememc_blk_mask() -> (m: u32)
    ensures
        m == field_mask(15, 8),
{
    field_mask_of(15, 8)
}

pub const NV_PGSP_EMEMC_BLK_INIT: u32 = 0x00000000;
/// Bitfield 24:24
pub const NV_PGSP_EMEMC_AINCW_HI: u32 = 24;
pub const NV_PGSP_EMEMC_AINCW_LO: u32 = 24;
pub fn nv_pgsp_ememc_aincw_mask() -> (m: u32)
    ensures
        m == field_mask(24, 24),
{
    field_mask_of(24, 24)
}

pub const NV_PGSP_EMEMC_AINCW_INIT: u32 = 0x00000000;
pub const NV_PGSP_EMEMC_AINCW_TRUE: u32 = 0x00000001;
pub const NV_PGSP_EMEMC_AINCW_FALSE: u32 = 0x00000000;
/// Bitfield 25:25
pub const NV_PGSP_EMEMC_AINCR_HI: u32 = 25;
pub const NV_PGSP_EMEMC_AINCR_LO: u32 = 25;
pub fn nv_pgsp_ememc_aincr_mask() -> (m: u32)
    ensures
        m == field_mask(25, 25),
{
    field_mask_of(25, 25)
}

pub const NV_PGSP_EMEMC_AINCR_INIT: u32 = 0x00000000;
pub const NV_PGSP_EMEMC_AINCR_TRUE: u32 = 0x00000001;
pub const NV_PGSP_EMEMC_AINCR_FALSE: u32 = 0x00000000;
pub const NV_PGSP_EMEMD__SIZE_1: u32 = 0x00000008;
/// Bitfield 31:0
pub const NV_PGSP_EMEMD_DATA_HI: u32 = 31;
pub const NV_PGSP_EMEMD_DATA_LO: u32 = 0;
pub fn nv_pgsp_ememd_data_mask() -> (m: u32)
    ensures
        m == field_mask(31, 0),
{
    field_mask_of(31, 0)
}

pub const NV_PGSP_FALCON_RESET_PRIV_LEVEL_MASK: u32 = 0x001103c4;
/// Bitfield 0:0
pub const NV_PGSP_FALCON_RESET_PRIV_LEVEL_MASK_READ_PROTECTION_LEVEL0_HI: u32 = 0;
pub const NV_PGSP_FALCON_RESET_PRIV_LEVEL_MASK_READ_PROTECTION_LEVEL0_LO: u32 = 0;
pub fn nv_pgsp_falcon_reset_priv_level_mask_read_protection_level0_mask() -> (m: u32)
    ensures
        m == field_mask(0, 0),
{
    field_mask_of(0, 0)
}

pub const NV_PGSP_FALCON_RESET_PRIV_LEVEL_MASK_READ_PROTECTION_LEVEL0_ENABLE: u32 = 0x00000001;
pub const NV_PGSP_FALCON_RESET_PRIV_LEVEL_MASK_READ_PROTECTION_LEVEL0_DISABLE: u32 = 0x00000000;
/// Bitfield 4:4
pub const NV_PGSP_FALCON_RESET_PRIV_LEVEL_MASK_WRITE_PROTECTION_LEVEL0_HI: u32 = 4;
pub const NV_PGSP_FALCON_RESET_PRIV_LEVEL_MASK_WRITE_PROTECTION_LEVEL0_LO: u32 = 4;
pub fn nv_pgsp_falcon_reset_priv_level_mask_write_protection_level0_mask() -> (m: u32)
    ensures
        m == field_mask(4, 4),
{
    field_mask_of(4, 4)
}

pub const NV_PGSP_FALCON_RESET_PRIV_LEVEL_MASK_WRITE_PROTECTION_LEVEL0_ENABLE: u32 = 0x00000001;
pub const NV_PGSP_FALCON_RESET_PRIV_LEVEL_MASK_WRITE_PROTECTION_LEVEL0_DISABLE: u32 = 0x00000000;
pub const NV_PGSP_FALCON_IRQSTAT: u32 = 0x00110008;
/// Bitfield 24:24
pub const NV_PGSP_FALCON_IRQSTAT_FATAL_ERROR_HI: u32 = 24;
pub const NV_PGSP_FALCON_IRQSTAT_FATAL_ERROR_LO: u32 = 24;
pub fn nv_pgsp_falcon_irqstat_fatal_error_mask() -> (m: u32)
    ensures
        m == field_mask(24, 24),
{
    field_mask_of(24, 24)
}

pub const NV_PGSP_FALCON_IRQSTAT_FATAL_ERROR_TRUE: u32 = 0x00000001;
pub const NV_PGSP_FALCON_IRQSTAT_FATAL_ERROR_FALSE: u32 = 0x00000000;
pub const NV_PGSP_RISCV_FAULT_CONTAINMENT_SRCSTAT: u32 = 0x00111700;
/// Bitfield 0:0
pub const NV_PGSP_RISCV_FAULT_CONTAINMENT_SRCSTAT_GLOBAL_MEM_HI: u32 = 0;
pub const NV_PGSP_RISCV_FAULT_CONTAINMENT_SRCSTAT_GLOBAL_MEM_LO: u32 = 0;
pub fn nv_pgsp_riscv_fault_containment_srcstat_global_mem_mask() -> (m: u32)
    ensures
        m == field_mask(0, 0),
{
    field_mask_of(0, 0)
}

pub const NV_PGSP_RISCV_FAULT_CONTAINMENT_SRCSTAT_GLOBAL_MEM_FAULTED: u32 = 0x00000001;
pub const NV_PGSP_RISCV_FAULT_CONTAINMENT_SRCSTAT_GLOBAL_MEM_NO_FAULT: u32 = 0x00000000;
/// Bitfield 1:1
pub const NV_PGSP_RISCV_FAULT_CONTAINMENT_SRCSTAT_ROM_HI: u32 = 1;
pub const NV_PGSP_RISCV_FAULT_CONTAINMENT_SRCSTAT_ROM_LO: u32 = 1;
pub fn nv_pgsp_riscv_fault_containment_srcstat_rom_mask() -> (m: u32)
    ensures
        m == field_mask(1, 1),
{
    field_mask_of(1, 1)
}

pub const NV_PGSP_RISCV_FAULT_CONTAINMENT_SRCSTAT_ROM_FAULTED: u32 = 0x00000001;
pub const NV_PGSP_RISCV_FAULT_CONTAINMENT_SRCSTAT_ROM_NO_FAULT: u32 = 0x00000000;
/// Bitfield 2:2
pub const NV_PGSP_RISCV_FAULT_CONTAINMENT_SRCSTAT_ITCM_HI: u32 = 2;
pub const NV_PGSP_RISCV_FAULT_CONTAINMENT_SRCSTAT_ITCM_LO: u32 = 2;
pub fn nv_pgsp_riscv_fault_containment_srcstat_itcm_mask() -> (m: u32)
    ensures
        m == field_mask(2, 2),
{
    field_mask_of(2, 2)
}

pub const NV_PGSP_RISCV_FAULT_CONTAINMENT_SRCSTAT_ITCM_FAULTED: u32 = 0x00000001;
pub const NV_PGSP_RISCV_FAULT_CONTAINMENT_SRCSTAT_ITCM_NO_FAULT: u32 = 0x00000000;
/// Bitfield 3:3
pub const NV_PGSP_RISCV_FAULT_CONTAINMENT_SRCSTAT_DTCM_HI: u32 = 3;
pub const NV_PGSP_RISCV_FAULT_CONTAINMENT_SRCSTAT_DTCM_LO: u32 = 3;
pub fn nv_pgsp_riscv_fault_containment_srcstat_dtcm_mask() -> (m: u32)
    ensures
        m == field_mask(3, 3),
{
    field_mask_of(3, 3)
}

pub const NV_PGSP_RISCV_FAULT_CONTAINMENT_SRCSTAT_DTCM_FAULTED: u32 = 0x00000001;
pub const NV_PGSP_RISCV_FAULT_CONTAINMENT_SRCSTAT_DTCM_NO_FAULT: u32 = 0x00000000;
/// Bitfield 4:4
pub const NV_PGSP_RISCV_FAULT_CONTAINMENT_SRCSTAT_ICACHE_HI: u32 = 4;
pub const NV_PGSP_RISCV_FAULT_CONTAINMENT_SRCSTAT_ICACHE_LO: u32 = 4;
pub fn nv_pgsp_riscv_fault_containment_srcstat_icache_mask() -> (m: u32)
    ensures
        m == field_mask(4, 4),
{
    field_mask_of(4, 4)
}

pub const NV_PGSP_RISCV_FAULT_CONTAINMENT_SRCSTAT_ICACHE_FAULTED: u32 = 0x00000001;
pub const NV_PGSP_RISCV_FAULT_CONTAINMENT_SRCSTAT_ICACHE_NO_FAULT: u32 = 0x00000000;
/// Bitfield 5:5
pub const NV_PGSP_RISCV_FAULT_CONTAINMENT_SRCSTAT_DCACHE_HI: u32 = 5;
pub const NV_PGSP_RISCV_FAULT_CONTAINMENT_SRCSTAT_DCACHE_LO: u32 = 5;
pub fn nv_pgsp_riscv_fault_containment_srcstat_dcache_mask() -> (m: u32)
    ensures
        m == field_mask(5, 5),
{
    field_mask_of(5, 5)
}

pub const NV_PGSP_RISCV_FAULT_CONTAINMENT_SRCSTAT_DCACHE_FAULTED: u32 = 0x00000001;
pub const NV_PGSP_RISCV_FAULT_CONTAINMENT_SRCSTAT_DCACHE_NO_FAULT: u32 = 0x00000000;
/// Bitfield 6:6
pub const NV_PGSP_RISCV_FAULT_CONTAINMENT_SRCSTAT_RVCORE_HI: u32 = 6;
pub const NV_PGSP_RISCV_FAULT_CONTAINMENT_SRCSTAT_RVCORE_LO: u32 = 6;
pub fn nv_pgsp_riscv_fault_containment_srcstat_rvcore_mask() -> (m: u32)
    ensures
        m == field_mask(6, 6),
{
    field_mask_of(6, 6)
}

pub const NV_PGSP_RISCV_FAULT_CONTAINMENT_SRCSTAT_RVCORE_FAULTED: u32 = 0x00000001;
pub const NV_PGSP_RISCV_FAULT_CONTAINMENT_SRCSTAT_RVCORE_NO_FAULT: u32 = 0x00000000;
/// Bitfield 7:7
pub const NV_PGSP_RISCV_FAULT_CONTAINMENT_SRCSTAT_REG_HI: u32 = 7;
pub const NV_PGSP_RISCV_FAULT_CONTAINMENT_SRCSTAT_REG_LO: u32 = 7;
pub fn nv_pgsp_riscv_fault_containment_srcstat_reg_mask() -> (m: u32)
    ensures
        m == field_mask(7, 7),
{
    field_mask_of(7, 7)
}

pub const NV_PGSP_RISCV_FAULT_CONTAINMENT_SRCSTAT_REG_FAULTED: u32 = 0x00000001;
pub const NV_PGSP_RISCV_FAULT_CONTAINMENT_SRCSTAT_REG_NO_FAULT: u32 = 0x00000000;
/// Bitfield 8:8
pub const NV_PGSP_RISCV_FAULT_CONTAINMENT_SRCSTAT_SE_LOGIC_HI: u32 = 8;
pub const NV_PGSP_RISCV_FAULT_CONTAINMENT_SRCSTAT_SE_LOGIC_LO: u32 = 8;
pub fn nv_pgsp_riscv_fault_containment_srcstat_se_logic_mask() -> (m: u32)
    ensures
        m == field_mask(8, 8),
{
    field_mask_of(8, 8)
}

pub const NV_PGSP_RISCV_FAULT_CONTAINMENT_SRCSTAT_SE_LOGIC_FAULTED: u32 = 0x00000001;
pub const NV_PGSP_RISCV_FAULT_CONTAINMENT_SRCSTAT_SE_LOGIC_NO_FAULT: u32 = 0x00000000;
/// Bitfield 9:9
pub const NV_PGSP_RISCV_FAULT_CONTAINMENT_SRCSTAT_SE_KSLT_HI: u32 = 9;
pub const NV_PGSP_RISCV_FAULT_CONTAINMENT_SRCSTAT_SE_KSLT_LO: u32 = 9;
pub fn nv_pgsp_riscv_fault_containment_srcstat_se_kslt_mask() -> (m: u32)
    ensures
        m == field_mask(9, 9),
{
    field_mask_of(9, 9)
}

pub const NV_PGSP_RISCV_FAULT_CONTAINMENT_SRCSTAT_SE_KSLT_FAULTED: u32 = 0x00000001;
pub const NV_PGSP_RISCV_FAULT_CONTAINMENT_SRCSTAT_SE_KSLT_NO_FAULT: u32 = 0x00000000;
/// Bitfield 10:10
pub const NV_PGSP_RISCV_FAULT_CONTAINMENT_SRCSTAT_TKE_HI: u32 = 10;
pub const NV_PGSP_RISCV_FAULT_CONTAINMENT_SRCSTAT_TKE_LO: u32 = 10;
pub fn nv_pgsp_riscv_fault_containment_srcstat_tke_mask() -> (m: u32)
    ensures
        m == field_mask(10, 10),
{
    field_mask_of(10, 10)
}

pub const NV_PGSP_RISCV_FAULT_CONTAINMENT_SRCSTAT_TKE_FAULTED: u32 = 0x00000001;
pub const NV_PGSP_RISCV_FAULT_CONTAINMENT_SRCSTAT_TKE_NO_FAULT: u32 = 0x00000000;
/// Bitfield 11:11
pub const NV_PGSP_RISCV_FAULT_CONTAINMENT_SRCSTAT_FBIF_HI: u32 = 11;
pub const NV_PGSP_RISCV_FAULT_CONTAINMENT_SRCSTAT_FBIF_LO: u32 = 11;
pub fn nv_pgsp_riscv_fault_containment_srcstat_fbif_mask() -> (m: u32)
    ensures
        m == field_mask(11, 11),
{
    field_mask_of(11, 11)
}

pub const NV_PGSP_RISCV_FAULT_CONTAINMENT_SRCSTAT_FBIF_FAULTED: u32 = 0x00000001;
pub const NV_PGSP_RISCV_FAULT_CONTAINMENT_SRCSTAT_FBIF_NO_FAULT: u32 = 0x00000000;
/// Bitfield 12:12
pub const NV_PGSP_RISCV_FAULT_CONTAINMENT_SRCSTAT_MPURAM_HI: u32 = 12;
pub const NV_PGSP_RISCV_FAULT_CONTAINMENT_SRCSTAT_MPURAM_LO: u32 = 12;
pub fn nv_pgsp_riscv_fault_containment_srcstat_mpuram_mask() -> (m: u32)
    ensures
        m == field_mask(12, 12),
{
    field_mask_of(12, 12)
}

pub const NV_PGSP_RISCV_FAULT_CONTAINMENT_SRCSTAT_MPURAM_FAULTED: u32 = 0x00000001;
pub const NV_PGSP_RISCV_FAULT_CONTAINMENT_SRCSTAT_MPURAM_NO_FAULT: u32 = 0x00000000;
pub const NV_PGSP_ECC_INTR_STATUS: u32 = 0x00110888;
/// Bitfield 0:0
pub const NV_PGSP_ECC_INTR_STATUS_CORRECTED_HI: u32 = 0;
pub const NV_PGSP_ECC_INTR_STATUS_CORRECTED_LO: u32 = 0;
pub fn nv_pgsp_ecc_intr_status_corrected_mask() -> (m: u32)
    ensures
        m == field_mask(0, 0),
{
    field_mask_of(0, 0)
}

pub const NV_PGSP_ECC_INTR_STATUS_CORRECTED_NOT_PENDING: u32 = 0x00000000;
pub const NV_PGSP_ECC_INTR_STATUS_CORRECTED_PENDING: u32 = 0x00000001;
/// Bitfield 1:1
pub const NV_PGSP_ECC_INTR_STATUS_UNCORRECTED_HI: u32 = 1;
pub const NV_PGSP_ECC_INTR_STATUS_UNCORRECTED_LO: u32 = 1;
pub fn nv_pgsp_ecc_intr_status_uncorrected_mask() -> (m: u32)
    ensures
        m == field_mask(1, 1),
{
    field_mask_of(1, 1)
}

pub const NV_PGSP_ECC_INTR_STATUS_UNCORRECTED_NOT_PENDING: u32 = 0x00000000;
pub const NV_PGSP_ECC_INTR_STATUS_UNCORRECTED_PENDING: u32 = 0x00000001;
pub const NV_PGSP_FALCON_ECC_STATUS: u32 = 0x00110878;
/// Bitfield 8:8
pub const NV_PGSP_FALCON_ECC_STATUS_UNCORRECTED_ERR_IMEM_HI: u32 = 8;
pub const NV_PGSP_FALCON_ECC_STATUS_UNCORRECTED_ERR_IMEM_LO: u32 = 8;
pub fn nv_pgsp_falcon_ecc_status_uncorrected_err_imem_mask() -> (m: u32)
    ensures
        m == field_mask(8, 8),
{
    field_mask_of(8, 8)
}

pub const NV_PGSP_FALCON_ECC_STATUS_UNCORRECTED_ERR_IMEM_NOT_PENDING: u32 = 0x00000000;
pub const NV_PGSP_FALCON_ECC_STATUS_UNCORRECTED_ERR_IMEM_PENDING: u32 = 0x00000001;
pub const NV_PGSP_FALCON_ECC_STATUS_UNCORRECTED_ERR_IMEM_CLEAR: u32 = 0x00000001;
/// Bitfield 9:9
pub const NV_PGSP_FALCON_ECC_STATUS_UNCORRECTED_ERR_DMEM_HI: u32 = 9;
pub const NV_PGSP_FALCON_ECC_STATUS_UNCORRECTED_ERR_DMEM_LO: u32 = 9;
pub fn nv_pgsp_falcon_ecc_status_uncorrected_err_dmem_mask() -> (m: u32)
    ensures
        m == field_mask(9, 9),
{
    field_mask_of(9, 9)
}

pub const NV_PGSP_FALCON_ECC_STATUS_UNCORRECTED_ERR_DMEM_NOT_PENDING: u32 = 0x00000000;
pub const NV_PGSP_FALCON_ECC_STATUS_UNCORRECTED_ERR_DMEM_PENDING: u32 = 0x00000001;
pub const NV_PGSP_FALCON_ECC_STATUS_UNCORRECTED_ERR_DMEM_CLEAR: u32 = 0x00000001;
/// Bitfield 10:10
pub const NV_PGSP_FALCON_ECC_STATUS_UNCORRECTED_ERR_MPU_RAM_HI: u32 = 10;
pub const NV_PGSP_FALCON_ECC_STATUS_UNCORRECTED_ERR_MPU_RAM_LO: u32 = 10;
pub fn nv_pgsp_falcon_ecc_status_uncorrected_err_mpu_ram_mask() -> (m: u32)
    ensures
        m == field_mask(10, 10),
{
    field_mask_of(10, 10)
}

pub const NV_PGSP_FALCON_ECC_STATUS_UNCORRECTED_ERR_MPU_RAM_NOT_PENDING: u32 = 0x00000000;
pub const NV_PGSP_FALCON_ECC_STATUS_UNCORRECTED_ERR_MPU_RAM_PENDING: u32 = 0x00000001;
pub const NV_PGSP_FALCON_ECC_STATUS_UNCORRECTED_ERR_MPU_RAM_CLEAR: u32 = 0x00000001;
/// Bitfield 11:11
pub const NV_PGSP_FALCON_ECC_STATUS_UNCORRECTED_ERR_DCLS_HI: u32 = 11;
pub const NV_PGSP_FALCON_ECC_STATUS_UNCORRECTED_ERR_DCLS_LO: u32 = 11;
pub fn nv_pgsp_falcon_ecc_status_uncorrected_err_dcls_mask() -> (m: u32)
    ensures
        m == field_mask(11, 11),
{
    field_mask_of(11, 11)
}

pub const NV_PGSP_FALCON_ECC_STATUS_UNCORRECTED_ERR_DCLS_NOT_PENDING: u32 = 0x00000000;
pub const NV_PGSP_FALCON_ECC_STATUS_UNCORRECTED_ERR_DCLS_PENDING: u32 = 0x00000001;
pub const NV_PGSP_FALCON_ECC_STATUS_UNCORRECTED_ERR_DCLS_CLEAR: u32 = 0x00000001;
/// Bitfield 12:12
pub const NV_PGSP_FALCON_ECC_STATUS_UNCORRECTED_ERR_REG_HI: u32 = 12;
pub const NV_PGSP_FALCON_ECC_STATUS_UNCORRECTED_ERR_REG_LO: u32 = 12;
pub fn nv_pgsp_falcon_ecc_status_uncorrected_err_reg_mask() -> (m: u32)
    ensures
        m == field_mask(12, 12),
{
    field_mask_of(12, 12)
}

pub const NV_PGSP_FALCON_ECC_STATUS_UNCORRECTED_ERR_REG_NOT_PENDING: u32 = 0x00000000;
pub const NV_PGSP_FALCON_ECC_STATUS_UNCORRECTED_ERR_REG_PENDING: u32 = 0x00000001;
pub const NV_PGSP_FALCON_ECC_STATUS_UNCORRECTED_ERR_REG_CLEAR: u32 = 0x00000001;
/// Bitfield 13:13
pub const NV_PGSP_FALCON_ECC_STATUS_UNCORRECTED_ERR_EMEM_HI: u32 = 13;
pub const NV_PGSP_FALCON_ECC_STATUS_UNCORRECTED_ERR_EMEM_LO: u32 = 13;
pub fn nv_pgsp_falcon_ecc_status_uncorrected_err_emem_mask() -> (m: u32)
    ensures
        m == field_mask(13, 13),
{
    field_mask_of(13, 13)
}

pub const NV_PGSP_FALCON_ECC_STATUS_UNCORRECTED_ERR_EMEM_NOT_PENDING: u32 = 0x00000000;
pub const NV_PGSP_FALCON_ECC_STATUS_UNCORRECTED_ERR_EMEM_PENDING: u32 = 0x00000001;
pub const NV_PGSP_FALCON_ECC_STATUS_UNCORRECTED_ERR_EMEM_CLEAR: u32 = 0x00000001;
/// Bitfield 14:14
pub const NV_PGSP_FALCON_ECC_STATUS_UNCORRECTED_ERR_ICACHE_HI: u32 = 14;
pub const NV_PGSP_FALCON_ECC_STATUS_UNCORRECTED_ERR_ICACHE_LO: u32 = 14;
pub fn nv_pgsp_falcon_ecc_status_uncorrected_err_icache_mask() -> (m: u32)
    ensures
        m == field_mask(14, 14),
{
    field_mask_of(14, 14)
}

pub const NV_PGSP_FALCON_ECC_STATUS_UNCORRECTED_ERR_ICACHE_NOT_PENDING: u32 = 0x00000000;
pub const NV_PGSP_FALCON_ECC_STATUS_UNCORRECTED_ERR_ICACHE_PENDING: u32 = 0x00000001;
pub const NV_PGSP_FALCON_ECC_STATUS_UNCORRECTED_ERR_ICACHE_CLEAR: u32 = 0x00000001;
/// Bitfield 15:15
pub const NV_PGSP_FALCON_ECC_STATUS_UNCORRECTED_ERR_DCACHE_HI: u32 = 15;
pub const NV_PGSP_FALCON_ECC_STATUS_UNCORRECTED_ERR_DCACHE_LO: u32 = 15;
pub fn nv_pgsp_falcon_ecc_status_uncorrected_err_dcache_mask() -> (m: u32)
    ensures
        m == field_mask(15, 15),
{
    field_mask_of(15, 15)
}

pub const NV_PGSP_FALCON_ECC_STATUS_UNCORRECTED_ERR_DCACHE_NOT_PENDING: u32 = 0x00000000;
pub const NV_PGSP_FALCON_ECC_STATUS_UNCORRECTED_ERR_DCACHE_PENDING: u32 = 0x00000001;
pub const NV_PGSP_FALCON_ECC_STATUS_UNCORRECTED_ERR_DCACHE_CLEAR: u32 = 0x00000001;
/// Bitfield 16:16
pub const NV_PGSP_FALCON_ECC_STATUS_CORRECTED_ERR_TOTAL_COUNTER_OVERFLOW_HI: u32 = 16;
pub const NV_PGSP_FALCON_ECC_STATUS_CORRECTED_ERR_TOTAL_COUNTER_OVERFLOW_LO: u32 = 16;
pub fn nv_pgsp_falcon_ecc_status_corrected_err_total_counter_overflow_mask() -> (m: u32)
    ensures
        m == field_mask(16, 16),
{
    field_mask_of(16, 16)
}

pub const NV_PGSP_FALCON_ECC_STATUS_CORRECTED_ERR_TOTAL_COUNTER_OVERFLOW_NOT_PENDING: u32 = 0x00000000;
pub const NV_PGSP_FALCON_ECC_STATUS_CORRECTED_ERR_TOTAL_COUNTER_OVERFLOW_PENDING: u32 = 0x00000001;
pub const NV_PGSP_FALCON_ECC_STATUS_CORRECTED_ERR_TOTAL_COUNTER_OVERFLOW_CLEAR: u32 = 0x00000001;
/// Bitfield 17:17
pub const NV_PGSP_FALCON_ECC_STATUS_CORRECTED_ERR_UNIQUE_COUNTER_OVERFLOW_HI: u32 = 17;
pub const NV_PGSP_FALCON_ECC_STATUS_CORRECTED_ERR_UNIQUE_COUNTER_OVERFLOW_LO: u32 = 17;
pub fn nv_pgsp_falcon_ecc_status_corrected_err_unique_counter_overflow_mask() -> (m: u32)
    ensures
        m == field_mask(17, 17),
{
    field_mask_of(17, 17)
}

pub const NV_PGSP_FALCON_ECC_STATUS_CORRECTED_ERR_UNIQUE_COUNTER_OVERFLOW_NOT_PENDING: u32 = 0x00000000;
pub const NV_PGSP_FALCON_ECC_STATUS_CORRECTED_ERR_UNIQUE_COUNTER_OVERFLOW_PENDING: u32 = 0x00000001;
pub const NV_PGSP_FALCON_ECC_STATUS_CORRECTED_ERR_UNIQUE_COUNTER_OVERFLOW_CLEAR: u32 = 0x00000001;
/// Bitfield 18:18
pub const NV_PGSP_FALCON_ECC_STATUS_UNCORRECTED_ERR_TOTAL_COUNTER_OVERFLOW_HI: u32 = 18;
pub const NV_PGSP_FALCON_ECC_STATUS_UNCORRECTED_ERR_TOTAL_COUNTER_OVERFLOW_LO: u32 = 18;
pub fn nv_pgsp_falcon_ecc_status_uncorrected_err_total_counter_overflow_mask() -> (m: u32)
    ensures
        m == field_mask(18, 18),
{
    field_mask_of(18, 18)
}

pub const NV_PGSP_FALCON_ECC_STATUS_UNCORRECTED_ERR_TOTAL_COUNTER_OVERFLOW_NOT_PENDING: u32 = 0x00000000;
pub const NV_PGSP_FALCON_ECC_STATUS_UNCORRECTED_ERR_TOTAL_COUNTER_OVERFLOW_PENDING: u32 = 0x00000001;
pub const NV_PGSP_FALCON_ECC_STATUS_UNCORRECTED_ERR_TOTAL_COUNTER_OVERFLOW_CLEAR: u32 = 0x00000001;
/// Bitfield 19:19
pub const NV_PGSP_FALCON_ECC_STATUS_UNCORRECTED_ERR_UNIQUE_COUNTER_OVERFLOW_HI: u32 = 19;
pub const NV_PGSP_FALCON_ECC_STATUS_UNCORRECTED_ERR_UNIQUE_COUNTER_OVERFLOW_LO: u32 = 19;
pub fn nv_pgsp_falcon_ecc_status_uncorrected_err_unique_counter_overflow_mask() -> (m: u32)
    ensures
        m == field_mask(19, 19),
{
    field_mask_of(19, 19)
}

pub const NV_PGSP_FALCON_ECC_STATUS_UNCORRECTED_ERR_UNIQUE_COUNTER_OVERFLOW_NOT_PENDING: u32 = 0x00000000;
pub const NV_PGSP_FALCON_ECC_STATUS_UNCORRECTED_ERR_UNIQUE_COUNTER_OVERFLOW_PENDING: u32 = 0x00000001;
pub const NV_PGSP_FALCON_ECC_STATUS_UNCORRECTED_ERR_UNIQUE_COUNTER_OVERFLOW_CLEAR: u32 = 0x00000001;
/// Bitfield 31:31
pub const NV_PGSP_FALCON_ECC_STATUS_RESET_HI: u32 = 31;
pub const NV_PGSP_FALCON_ECC_STATUS_RESET_LO: u32 = 31;
pub fn nv_pgsp_falcon_ecc_status_reset_mask() -> (m: u32)
    ensures
        m == field_mask(31, 31),
{
    field_mask_of(31, 31)
}

pub const NV_PGSP_FALCON_ECC_STATUS_RESET_TASK: u32 = 0x00000001;
pub const NV_PGSP_FALCON_ECC_STATUS_RESET_INIT: u32 = 0x00000000;
pub const NV_PGSP_FALCON_ECC_CORRECTED_ERR_COUNT: u32 = 0x00110880;
/// Bitfield 15:0
pub const NV_PGSP_FALCON_ECC_CORRECTED_ERR_COUNT_TOTAL_HI: u32 = 15;
pub const NV_PGSP_FALCON_ECC_CORRECTED_ERR_COUNT_TOTAL_LO: u32 = 0;
pub fn nv_pgsp_falcon_ecc_corrected_err_count_total_mask() -> (m: u32)
    ensures
        m == field_mask(15, 0),
{
    field_mask_of(15, 0)
}

pub const NV_PGSP_FALCON_ECC_CORRECTED_ERR_COUNT_TOTAL_INIT: u32 = 0x00000000;
/// Bitfield 31:16
pub const NV_PGSP_FALCON_ECC_CORRECTED_ERR_COUNT_UNIQUE_HI: u32 = 31;
pub const NV_PGSP_FALCON_ECC_CORRECTED_ERR_COUNT_UNIQUE_LO: u32 = 16;
pub fn nv_pgsp_falcon_ecc_corrected_err_count_unique_mask() -> (m: u32)
    ensures
        m == field_mask(31, 16),
{
    field_mask_of(31, 16)
}

pub const NV_PGSP_FALCON_ECC_CORRECTED_ERR_COUNT_UNIQUE_INIT: u32 = 0x00000000;
pub const NV_PGSP_FALCON_ECC_UNCORRECTED_ERR_COUNT: u32 = 0x00110884;
/// Bitfield 15:0
pub const NV_PGSP_FALCON_ECC_UNCORRECTED_ERR_COUNT_TOTAL_HI: u32 = 15;
pub const NV_PGSP_FALCON_ECC_UNCORRECTED_ERR_COUNT_TOTAL_LO: u32 = 0;
pub fn nv_pgsp_falcon_ecc_uncorrected_err_count_total_mask() -> (m: u32)
    ensures
        m == field_mask(15, 0),
{
    field_mask_of(15, 0)
}

pub const NV_PGSP_FALCON_ECC_UNCORRECTED_ERR_COUNT_TOTAL_INIT: u32 = 0x00000000;
/// Bitfield 31:16
pub const NV_PGSP_FALCON_ECC_UNCORRECTED_ERR_COUNT_UNIQUE_HI: u32 = 31;
pub const NV_PGSP_FALCON_ECC_UNCORRECTED_ERR_COUNT_UNIQUE_LO: u32 = 16;
pub fn nv_pgsp_falcon_ecc_uncorrected_err_count_unique_mask() -> (m: u32)
    ensures
        m == field_mask(31, 16),
{
    field_mask_of(31, 16)
}

pub const NV_PGSP_FALCON_ECC_UNCORRECTED_ERR_COUNT_UNIQUE_INIT: u32 = 0x00000000;
} // verus!
