//! A 64-bit RISC-V (RV64IMA, Zicsr, Sv39) emulator for a single hart, with a
//! memory-mapped bus modelled on QEMU's `virt` machine: main memory, a timer (CLINT),
//! an interrupt controller (PLIC), a serial port (UART) and a virtio block device.
//!
//! Each device, the bus and the hart have a mathematical model (`View`); every
//! operation is specified as a function on those models, and the executable code is
//! proved to compute exactly that.

pub mod param;
pub mod exception;
pub mod interrupt;
pub mod dram;
pub mod csr;
pub mod clint;
pub mod plic;
pub mod uart;
pub mod virtqueue;
pub mod virtio;
pub mod bus;
pub mod cpu;
pub mod execute;
pub mod service;
pub mod names;
