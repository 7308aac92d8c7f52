//! Fixed parameters of the machine: the memory map, device register offsets,
//! interrupt request numbers, CSR addresses and status-field masks.
use vstd::prelude::*;

verus! {

/// Start of main memory, as in QEMU's `virt` machine.
pub const DRAM_BASE: u64 = 0x8000_0000;
/// Main memory holds 128 MiB.
pub const DRAM_SIZE: u64 = 1024 * 1024 * 128;
/// Last byte address of main memory.
pub const DRAM_END: u64 = DRAM_SIZE + DRAM_BASE - 1;

/// The core-local interruptor: timer registers.
pub const CLINT_BASE: u64 = 0x200_0000;
pub const CLINT_SIZE: u64 = 0x10000;
pub const CLINT_END: u64 = CLINT_BASE + CLINT_SIZE - 1;
pub const CLINT_MTIMECMP: u64 = CLINT_BASE + 0x4000;
pub const CLINT_MTIME: u64 = CLINT_BASE + 0xbff8;

/// The platform-level interrupt controller.
pub const PLIC_BASE: u64 = 0xc00_0000;
pub const PLIC_SIZE: u64 = 0x4000000;
pub const PLIC_END: u64 = PLIC_BASE + PLIC_SIZE - 1;
pub const PLIC_PENDING: u64 = PLIC_BASE + 0x1000;
pub const PLIC_SENABLE: u64 = PLIC_BASE + 0x2000;
pub const PLIC_SPRIORITY: u64 = PLIC_BASE + 0x201000;
pub const PLIC_SCLAIM: u64 = PLIC_BASE + 0x201004;

/// The 16550-style serial port.
pub const UART_BASE: u64 = 0x1000_0000;
pub const UART_SIZE: u64 = 0x100;
pub const UART_END: u64 = UART_BASE + UART_SIZE - 1;
/// Interrupt request number of the serial port.
pub const UART_IRQ: u64 = 10;
/// Receive holding register (input bytes), as an offset.
pub const UART_RHR: u64 = 0;
/// Transmit holding register (output bytes), as an offset.
pub const UART_THR: u64 = 0;
/// Line control register, as an offset.
pub const UART_LCR: u64 = 3;
/// Line status register, as an offset. Bit 0: a byte waits in RHR. Bit 5: THR is empty.
pub const UART_LSR: u64 = 5;
/// LSR bit: a received byte is ready.
pub const MASK_UART_LSR_RX: u8 = 1;
/// LSR bit: the transmitter is empty.
pub const MASK_UART_LSR_TX: u8 = 0x20;

/// The legacy MMIO virtio block device.
pub const VIRTIO_BASE: u64 = 0x1000_1000;
pub const VIRTIO_SIZE: u64 = 0x1000;
pub const VIRTIO_END: u64 = VIRTIO_BASE + VIRTIO_SIZE - 1;
/// Interrupt request number of the block device.
pub const VIRTIO_IRQ: u64 = 1;
/// Number of descriptors in the virtqueue.
pub const DESC_NUM: u64 = 8;
pub const VIRTIO_MAGIC: u64 = VIRTIO_BASE + 0x000;
pub const VIRTIO_VERSION: u64 = VIRTIO_BASE + 0x004;
pub const VIRTIO_DEVICE_ID: u64 = VIRTIO_BASE + 0x008;
pub const VIRTIO_VENDOR_ID: u64 = VIRTIO_BASE + 0x00c;
pub const VIRTIO_DEVICE_FEATURES: u64 = VIRTIO_BASE + 0x010;
pub const VIRTIO_DRIVER_FEATURES: u64 = VIRTIO_BASE + 0x020;
pub const VIRTIO_GUEST_PAGE_SIZE: u64 = VIRTIO_BASE + 0x028;
pub const VIRTIO_QUEUE_SEL: u64 = VIRTIO_BASE + 0x030;
pub const VIRTIO_QUEUE_NUM_MAX: u64 = VIRTIO_BASE + 0x034;
pub const VIRTIO_QUEUE_NUM: u64 = VIRTIO_BASE + 0x038;
pub const VIRTIO_QUEUE_PFN: u64 = VIRTIO_BASE + 0x040;
pub const VIRTIO_QUEUE_NOTIFY: u64 = VIRTIO_BASE + 0x050;
pub const VIRTIO_STATUS: u64 = VIRTIO_BASE + 0x070;
/// Value of the MAGIC register ("virt").
pub const VIRTIO_MAGIC_VALUE: u64 = 0x74726976;
/// Value of the VENDOR_ID register ("QEMU").
pub const VIRTIO_VENDOR_VALUE: u64 = 0x554d4551;

pub const PAGE_SIZE: u64 = 4096;
pub const SECTOR_SIZE: u64 = 512;

/// Block request types.
pub const VIRTIO_BLK_T_IN: u64 = 0;
pub const VIRTIO_BLK_T_OUT: u64 = 1;

/// Number of control and status registers.
pub const NUM_CSRS: usize = 4096;

// Machine-level CSRs.
pub const MHARTID: usize = 0xf14;
pub const MSTATUS: usize = 0x300;
pub const MEDELEG: usize = 0x302;
pub const MIDELEG: usize = 0x303;
pub const MIE: usize = 0x304;
pub const MTVEC: usize = 0x305;
pub const MCOUNTEREN: usize = 0x306;
pub const MSCRATCH: usize = 0x340;
pub const MEPC: usize = 0x341;
pub const MCAUSE: usize = 0x342;
pub const MTVAL: usize = 0x343;
pub const MIP: usize = 0x344;

// Supervisor-level CSRs.
pub const SSTATUS: usize = 0x100;
pub const SIE: usize = 0x104;
pub const STVEC: usize = 0x105;
pub const SSCRATCH: usize = 0x140;
pub const SEPC: usize = 0x141;
pub const SCAUSE: usize = 0x142;
pub const STVAL: usize = 0x143;
pub const SIP: usize = 0x144;
pub const SATP: usize = 0x180;

// Fields of mstatus and sstatus.
pub const MASK_SIE: u64 = 1 << 1;
pub const MASK_MIE: u64 = 1 << 3;
pub const MASK_SPIE: u64 = 1 << 5;
pub const MASK_UBE: u64 = 1 << 6;
pub const MASK_MPIE: u64 = 1 << 7;
pub const MASK_SPP: u64 = 1 << 8;
pub const MASK_VS: u64 = 0b11 << 9;
pub const MASK_MPP: u64 = 0b11 << 11;
pub const MASK_FS: u64 = 0b11 << 13;
pub const MASK_XS: u64 = 0b11 << 15;
pub const MASK_MPRV: u64 = 1 << 17;
pub const MASK_SUM: u64 = 1 << 18;
pub const MASK_MXR: u64 = 1 << 19;
pub const MASK_UXL: u64 = 0b11 << 32;
pub const MASK_SD: u64 = 1 << 63;
/// The fields of mstatus that sstatus shows.
pub const SSTATUS_MASK: u64 = MASK_SIE | MASK_SPIE | MASK_UBE | MASK_SPP | MASK_FS | MASK_XS
    | MASK_SUM | MASK_MXR | MASK_UXL | MASK_SD;

// Bits of mip and mie.
pub const MASK_SSIP: u64 = 1 << 1;
pub const MASK_MSIP: u64 = 1 << 3;
pub const MASK_STIP: u64 = 1 << 5;
pub const MASK_MTIP: u64 = 1 << 7;
pub const MASK_SEIP: u64 = 1 << 9;
pub const MASK_MEIP: u64 = 1 << 11;

} // verus!
