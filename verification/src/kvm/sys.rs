//! The KVM interface's numbers and records: ioctl request encoding, the
//! requests used, exit reasons, and the structures passed to the kernel.
use vstd::prelude::*;

verus! {

pub const KVM_API_VERSION: i32 = 12;
pub const KVM_MEM_READONLY: u32 = 0x0002;

pub const KVM_EXIT_EXCEPTION: u32 = 1;
pub const KVM_EXIT_MMIO: u32 = 6;
pub const KVM_EXIT_SHUTDOWN: u32 = 8;
pub const KVM_EXIT_FAIL_ENTRY: u32 = 9;
pub const KVM_EXIT_INTERNAL_ERROR: u32 = 17;

pub const KVM_ARM_VCPU_EL1_32BIT: u32 = 1;

/// The ioctl type of KVM requests.
pub const KVMIO: u32 = 0xae;
pub const IOC_NONE: u32 = 0;
pub const IOC_WRITE: u32 = 1;
pub const IOC_READ: u32 = 2;
pub const IOC_NRSHIFT: u32 = 0;
pub const IOC_TYPESHIFT: u32 = 8;
pub const IOC_SIZESHIFT: u32 = 16;
pub const IOC_DIRSHIFT: u32 = 30;

pub const KVM_GET_API_VERSION: u64 = 0xae00;
pub const KVM_CREATE_VM: u64 = 0xae01;
pub const KVM_GET_VCPU_MMAP_SIZE: u64 = 0xae04;
pub const KVM_CREATE_VCPU: u64 = 0xae41;
pub const KVM_SET_USER_MEMORY_REGION: u64 = 0x4020_ae46;
pub const KVM_IRQ_LINE: u64 = 0x4008_ae61;
pub const KVM_RUN: u64 = 0xae80;
pub const KVM_SET_ONE_REG: u64 = 0x4010_aeac;
pub const KVM_ARM_VCPU_INIT: u64 = 0x4020_aeae;
pub const KVM_ARM_PREFERRED_TARGET: u64 = 0x8020_aeaf;

pub const KVM_REG_ARM64: u64 = 0x6000_0000_0000_0000;
pub const KVM_REG_SIZE_U64: u64 = 0x0030_0000_0000_0000;
pub const KVM_REG_ARM_CORE: u64 = 0x0010_0000;
pub const KVM_REG_ARM_CORE_PC: u64 = 64;

/// The request number of direction `dir`, type `ty`, number `nr` and
/// argument size `size`, packed as Linux does: number in bits 0-7, type in
/// bits 8-15, size from bit 16, direction from bit 30.
pub open spec fn spec_ioc(dir: u32, ty: u32, nr: u32, size: usize) -> u64 {
    ((dir << IOC_DIRSHIFT) | (ty << IOC_TYPESHIFT) | (nr << IOC_NRSHIFT) | ((size as u32) << IOC_SIZESHIFT)) as u64
}

proof fn lemma_ioc_fields(dir: u32, ty: u32, nr: u32, size: u32)
    by (bit_vector)
    requires
        dir < 4,
        ty < 0x100,
        nr < 0x100,
        size < 0x4000,
    ensures
        (dir << 30u32) | (ty << 8u32) | (nr << 0u32) | (size << 16u32)
            == dir * 0x4000_0000 + size * 0x1_0000 + ty * 0x100 + nr,
{
}

/// Packs an ioctl request number; with every field in its range, the
/// fields simply add up in their positions.
pub fn ioc(dir: u32, ty: u32, nr: u32, size: usize) -> (r: u64)
    ensures
        r == spec_ioc(dir, ty, nr, size),
        dir < 4 && ty < 0x100 && nr < 0x100 && size < 0x4000 ==> r == dir * 0x4000_0000 + size * 0x1_0000 + ty * 0x100 + nr,
{
    proof {
        if dir < 4 && ty < 0x100 && nr < 0x100 && size < 0x4000 {
            lemma_ioc_fields(dir, ty, nr, size as u32);
        }
    }
    ((dir << IOC_DIRSHIFT) | (ty << IOC_TYPESHIFT) | (nr << IOC_NRSHIFT) | ((size as u32) << IOC_SIZESHIFT)) as u64
}

/// A request without an argument.
pub fn io(ty: u32, nr: u32) -> (r: u64)
    ensures
        r == spec_ioc(IOC_NONE, ty, nr, 0),
        ty < 0x100 && nr < 0x100 ==> r == ty * 0x100 + nr,
{
    ioc(IOC_NONE, ty, nr, 0)
}

/// A request that passes a `T` to the kernel.
pub fn iow<T>(ty: u32, nr: u32) -> (r: u64)
    ensures
        r == spec_ioc(IOC_WRITE, ty, nr, core::mem::size_of::<T>()),
{
    ioc(IOC_WRITE, ty, nr, core::mem::size_of::<T>())
}

/// A request that receives a `T` from the kernel.
pub fn ior<T>(ty: u32, nr: u32) -> (r: u64)
    ensures
        r == spec_ioc(IOC_READ, ty, nr, core::mem::size_of::<T>()),
{
    ioc(IOC_READ, ty, nr, core::mem::size_of::<T>())
}

/// The register id of the guest pc for `KVM_SET_ONE_REG`.
pub fn reg_arm64_core_pc() -> (r: u64)
    ensures
        r == KVM_REG_ARM64 | KVM_REG_SIZE_U64 | KVM_REG_ARM_CORE | KVM_REG_ARM_CORE_PC,
{
    KVM_REG_ARM64 | KVM_REG_SIZE_U64 | KVM_REG_ARM_CORE | KVM_REG_ARM_CORE_PC
}

pub struct KvmUserspaceMemoryRegion {
    pub slot: u32,
    pub flags: u32,
    pub guest_phys_addr: u64,
    pub memory_size: u64,
    pub userspace_addr: u64,
}

pub struct KvmVcpuInit {
    pub target: u32,
    pub features: [u32; 7],
}

pub struct KvmOneReg {
    pub id: u64,
    pub addr: u64,
}

pub struct KvmIrqLevel {
    pub irq: u32,
    pub level: u32,
}

/// The MMIO part of the vCPU's run record: the guest physical address, up
/// to eight bytes of data, the access size and direction.
pub struct KvmMmio {
    pub phys_addr: u64,
    pub data: [u8; 8],
    pub len: u32,
    pub is_write: u8,
}

pub struct KvmRun {
    pub request_interrupt_window: u8,
    pub immediate_exit: u8,
    pub padding1: [u8; 6],
    pub exit_reason: u32,
    pub ready_for_interrupt_injection: u8,
    pub if_flag: u8,
    pub flags: u16,
    pub cr8: u64,
    pub apic_base: u64,
    pub mmio: KvmMmio,
}

} // verus!
