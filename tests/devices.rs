use rvemu::bus::Bus;
use rvemu::clint::Clint;
use rvemu::cpu::{Cpu, Mode};
use rvemu::csr::Csr;
use rvemu::dram::{valid_size, Dram};
use rvemu::exception::Exception;
use rvemu::interrupt::Interrupt;
use rvemu::names::{lookup_register, RegisterRef};
use rvemu::param::{
    CLINT_MTIME, CLINT_MTIMECMP, DRAM_BASE, DRAM_END, DRAM_SIZE, MASK_MEIP, MASK_MIE, MASK_MTIP,
    MASK_SEIP, MASK_SIE, MASK_SSIP, MCAUSE, MEDELEG, MEPC, MIDELEG, MIE, MIP, MSTATUS, MTVEC,
    PLIC_BASE, PLIC_SCLAIM, PLIC_SENABLE, SCAUSE, SEPC, SSTATUS, STVEC, UART_BASE, UART_LSR,
    VIRTIO_BASE, VIRTIO_DEVICE_ID, VIRTIO_GUEST_PAGE_SIZE, VIRTIO_MAGIC, VIRTIO_QUEUE_NOTIFY,
    VIRTIO_QUEUE_NUM_MAX, VIRTIO_QUEUE_PFN, VIRTIO_STATUS, VIRTIO_VENDOR_ID, VIRTIO_VERSION,
};
use rvemu::plic::Plic;
use rvemu::uart::Uart;
use rvemu::virtio::Virtio;

#[test]
fn exception_codes_values_and_fatality() {
    let all = [
        (Exception::InstructionAddressMisaligned(1), 0, true),
        (Exception::InstructionAccessFault(1), 1, true),
        (Exception::IllegalInstruction(1), 2, true),
        (Exception::Breakpoint(1), 3, false),
        (Exception::LoadAddressMisaligned(1), 4, false),
        (Exception::LoadAccessFault(1), 5, true),
        (Exception::StoreAMOAddressMisaligned(1), 6, true),
        (Exception::StoreAMOAccessFault(1), 7, true),
        (Exception::EnvironmentCallFromUMode(1), 8, false),
        (Exception::EnvironmentCallFromSMode(1), 9, false),
        (Exception::EnvironmentCallFromMMode(1), 11, false),
        (Exception::InstructionPageFault(1), 12, false),
        (Exception::LoadPageFault(1), 13, false),
        (Exception::StoreAMOPageFault(1), 15, false),
    ];
    for (e, code, fatal) in all {
        assert_eq!(e.code(), code);
        assert_eq!(e.value(), 1);
        assert_eq!(e.is_fatal(), fatal);
    }
    assert_eq!(Exception::LoadPageFault(0xdead).value(), 0xdead);
}

#[test]
fn interrupt_codes_carry_the_interrupt_bit() {
    assert_eq!(Interrupt::SupervisorSoftwareInterrupt.code(), (1 << 63) | 1);
    assert_eq!(Interrupt::MachineSoftwareInterrupt.code(), (1 << 63) | 3);
    assert_eq!(Interrupt::SupervisorTimerInterrupt.code(), (1 << 63) | 5);
    assert_eq!(Interrupt::MachineTimerInterrupt.code(), (1 << 63) | 7);
    assert_eq!(Interrupt::SupervisorExternalInterrupt.code(), (1 << 63) | 9);
    assert_eq!(Interrupt::MachineExternalInterrupt.code(), (1 << 63) | 11);
    assert_eq!(Interrupt::MachineExternalInterrupt.index(), 11);
}

#[test]
fn mode_encodings() {
    assert_eq!(Mode::User.bits(), 0);
    assert_eq!(Mode::Supervisor.bits(), 1);
    assert_eq!(Mode::Machine.bits(), 3);
    assert_eq!(Mode::from_bits(3), Mode::Machine);
    assert_eq!(Mode::from_bits(1), Mode::Supervisor);
    assert_eq!(Mode::from_bits(0), Mode::User);
    assert_eq!(Mode::from_bits(2), Mode::User);
}

#[test]
fn access_sizes() {
    for s in [8, 16, 32, 64] {
        assert!(valid_size(s));
    }
    for s in [0, 1, 7, 24, 128] {
        assert!(!valid_size(s));
    }
}

#[test]
fn dram_is_little_endian_and_bounded() {
    let mut d = Dram::new(vec![0x11, 0x22, 0x33, 0x44]);
    assert_eq!(d.dram.len() as u64, DRAM_SIZE);
    assert_eq!(d.load(DRAM_BASE, 32), Ok(0x4433_2211));
    assert_eq!(d.load(DRAM_BASE + 1, 16), Ok(0x3322));
    assert_eq!(d.load(DRAM_BASE, 24), Err(Exception::LoadAccessFault(DRAM_BASE)));
    assert_eq!(d.load(DRAM_END, 8), Ok(0));
    assert_eq!(d.load(DRAM_END, 16), Err(Exception::LoadAccessFault(DRAM_END)));
    assert_eq!(d.load(DRAM_BASE - 1, 8), Err(Exception::LoadAccessFault(DRAM_BASE - 1)));
    assert_eq!(d.store(DRAM_END - 7, 64, 0x0102_0304_0506_0708), Ok(()));
    assert_eq!(d.load(DRAM_END, 8), Ok(0x01));
    assert_eq!(d.store(DRAM_END - 6, 64, 1), Err(Exception::StoreAMOAccessFault(DRAM_END - 6)));
    assert_eq!(d.store(DRAM_BASE, 12, 1), Err(Exception::StoreAMOAccessFault(DRAM_BASE)));
}

#[test]
fn clint_accepts_only_64_bit_accesses() {
    let mut c = Clint::new();
    assert_eq!(c.store(CLINT_MTIMECMP, 64, 500), Ok(()));
    assert_eq!(c.store(CLINT_MTIME, 64, 7), Ok(()));
    assert_eq!(c.load(CLINT_MTIMECMP, 64), Ok(500));
    assert_eq!(c.load(CLINT_MTIME, 64), Ok(7));
    assert_eq!(c.load(CLINT_MTIME, 32), Err(Exception::LoadAccessFault(CLINT_MTIME)));
    assert_eq!(c.store(CLINT_MTIME, 32, 1), Err(Exception::StoreAMOAccessFault(CLINT_MTIME)));
    assert_eq!(c.load(CLINT_MTIME + 8, 64), Err(Exception::LoadAccessFault(CLINT_MTIME + 8)));
    assert_eq!(c.store(CLINT_MTIME + 8, 64, 1), Err(Exception::StoreAMOAccessFault(CLINT_MTIME + 8)));
}

#[test]
fn plic_absorbs_unknown_offsets() {
    let mut p = Plic::new();
    assert_eq!(p.store(PLIC_SENABLE, 32, 0x1_0000_0402), Ok(()));
    assert_eq!(p.load(PLIC_SENABLE, 32), Ok(0x402));
    assert_eq!(p.store(PLIC_BASE + 4, 32, 9), Ok(()));
    assert_eq!(p.load(PLIC_BASE + 4, 32), Ok(0));
    assert_eq!(p.load(PLIC_SCLAIM, 64), Err(Exception::LoadAccessFault(PLIC_SCLAIM)));
    assert_eq!(p.store(PLIC_SCLAIM, 8, 1), Err(Exception::StoreAMOAccessFault(PLIC_SCLAIM)));
}

#[test]
fn uart_receives_and_transmits() {
    let mut u = Uart::new();
    assert_eq!(u.load(UART_BASE + UART_LSR, 8), Ok(0x20));
    assert!(!u.is_interrupting());
    assert!(u.receive(b'a'));
    assert!(!u.receive(b'b'));
    assert_eq!(u.load(UART_BASE + UART_LSR, 8), Ok(0x21));
    assert!(u.is_interrupting());
    assert!(!u.is_interrupting());
    assert_eq!(u.load(UART_BASE, 8), Ok(b'a' as u64));
    assert_eq!(u.load(UART_BASE + UART_LSR, 8), Ok(0x20));
    assert!(u.receive(b'b'));
    assert_eq!(u.load(UART_BASE, 8), Ok(b'b' as u64));
    assert_eq!(u.store(UART_BASE, 8, b'h' as u64), Ok(()));
    assert_eq!(u.store(UART_BASE, 8, 0x169), Ok(()));
    assert_eq!(u.take_output(), vec![b'h', b'i']);
    assert!(u.take_output().is_empty());
    assert_eq!(u.store(UART_BASE + 3, 8, 3), Ok(()));
    assert_eq!(u.load(UART_BASE + 3, 8), Ok(3));
    assert_eq!(u.load(UART_BASE, 16), Err(Exception::LoadAccessFault(UART_BASE)));
    assert_eq!(u.store(UART_BASE, 32, 1), Err(Exception::StoreAMOAccessFault(UART_BASE)));
}

#[test]
fn virtio_registers() {
    let mut v = Virtio::new(vec![1, 2, 3]);
    assert_eq!(v.load(VIRTIO_MAGIC, 32), Ok(0x74726976));
    assert_eq!(v.load(VIRTIO_VERSION, 32), Ok(1));
    assert_eq!(v.load(VIRTIO_DEVICE_ID, 32), Ok(2));
    assert_eq!(v.load(VIRTIO_VENDOR_ID, 32), Ok(0x554d4551));
    assert_eq!(v.load(VIRTIO_QUEUE_NUM_MAX, 32), Ok(8));
    assert_eq!(v.load(VIRTIO_MAGIC, 64), Err(Exception::LoadAccessFault(VIRTIO_MAGIC)));
    assert_eq!(v.store(VIRTIO_STATUS, 16, 1), Err(Exception::StoreAMOAccessFault(VIRTIO_STATUS)));
    assert_eq!(v.store(VIRTIO_STATUS, 32, 0x1_0000_000f), Ok(()));
    assert_eq!(v.load(VIRTIO_STATUS, 32), Ok(0xf));
    assert_eq!(v.store(VIRTIO_GUEST_PAGE_SIZE, 32, 4096), Ok(()));
    assert_eq!(v.store(VIRTIO_QUEUE_PFN, 32, 0x80001), Ok(()));
    assert_eq!(v.load(VIRTIO_QUEUE_PFN, 32), Ok(0x80001));
    assert_eq!(v.desc_addr(), 0x80001 * 4096);
    assert_eq!(v.load(VIRTIO_BASE + 0x400, 32), Ok(0));
    assert!(!v.is_interrupting());
    assert_eq!(v.store(VIRTIO_QUEUE_NOTIFY, 32, 0), Ok(()));
    assert!(v.is_interrupting());
    assert!(!v.is_interrupting());
    assert_eq!(v.read_disk(2), 3);
    v.write_disk(2, 9);
    assert_eq!(v.read_disk(2), 9);
    assert_eq!(v.get_new_id(), 1);
    assert_eq!(v.get_new_id(), 2);
}

#[test]
fn bus_routes_and_faults() {
    let mut b = Bus::new(vec![0xaa], vec![]);
    assert_eq!(b.load(DRAM_BASE, 8), Ok(0xaa));
    assert_eq!(b.load(0x1000, 8), Err(Exception::LoadAccessFault(0x1000)));
    assert_eq!(b.store(0x1000, 8, 1), Err(Exception::StoreAMOAccessFault(0x1000)));
    assert_eq!(b.store(CLINT_MTIMECMP, 64, 9), Ok(()));
    assert_eq!(b.load(CLINT_MTIMECMP, 64), Ok(9));
    assert_eq!(b.load(VIRTIO_MAGIC, 32), Ok(0x74726976));
    assert_eq!(b.store(PLIC_SCLAIM, 32, 10), Ok(()));
    assert_eq!(b.load(PLIC_SCLAIM, 32), Ok(10));
    assert_eq!(b.load(UART_BASE + UART_LSR, 8), Ok(0x20));
}

#[test]
fn csr_file_delegation_bits() {
    let mut c = Csr::new();
    c.store(MEDELEG, 1 << 8);
    c.store(MIDELEG, 1 << 9);
    assert!(c.is_medelegated(8));
    assert!(!c.is_medelegated(9));
    assert!(c.is_midelegated(9));
    assert!(!c.is_midelegated(8));
    c.store(MTVEC, 0x55);
    assert_eq!(c.load(MTVEC), 0x55);
}

#[test]
fn register_names() {
    assert_eq!(lookup_register(b"zero"), Some(RegisterRef::Gpr(0)));
    assert_eq!(lookup_register(b"fp"), Some(RegisterRef::Gpr(8)));
    assert_eq!(lookup_register(b"s11"), Some(RegisterRef::Gpr(27)));
    assert_eq!(lookup_register(b"x17"), Some(RegisterRef::Gpr(17)));
    assert_eq!(lookup_register(b"pc"), Some(RegisterRef::Pc));
    assert_eq!(lookup_register(b"sepc"), Some(RegisterRef::Csr(SEPC)));
    assert_eq!(lookup_register(b"x32"), None);
    assert_eq!(lookup_register(b""), None);
}

#[test]
fn new_cpu_state_and_csr_dump() {
    let mut cpu = Cpu::new(vec![1, 2], vec![]);
    assert_eq!(cpu.pc, DRAM_BASE);
    assert_eq!(cpu.reg("sp"), DRAM_END);
    assert_eq!(cpu.mode, Mode::Machine);
    assert_eq!(cpu.update_pc(), Ok(DRAM_BASE + 4));
    cpu.store_csr(MSTATUS, 1);
    cpu.store_csr(MTVEC, 2);
    cpu.store_csr(MEPC, 3);
    cpu.store_csr(MCAUSE, 4);
    cpu.store_csr(STVEC, 6);
    cpu.store_csr(SEPC, 7);
    cpu.store_csr(SCAUSE, 8);
    assert_eq!(cpu.dump_csrs(), vec![1, 2, 3, 4, 0, 6, 7, 8]);
}

#[test]
fn amo_instructions() {
    // amoadd.w a2, a1, (a0); amoswap.d a3, a1, (a0)
    let code: [u32; 2] = [
        (11 << 20) | (10 << 15) | (2 << 12) | (12 << 7) | 0x2f,
        (1 << 27) | (11 << 20) | (10 << 15) | (3 << 12) | (13 << 7) | 0x2f,
    ];
    let mut bytes = Vec::new();
    for w in code {
        bytes.extend_from_slice(&w.to_le_bytes());
    }
    let mut cpu = Cpu::new(bytes, vec![]);
    let a = DRAM_BASE + 0x3000;
    cpu.store(a, 64, 40).unwrap();
    cpu.regs[10] = a;
    cpu.regs[11] = 2;
    for _ in 0..2 {
        let inst = cpu.fetch().unwrap();
        cpu.pc = cpu.execute(inst).unwrap();
    }
    assert_eq!(cpu.reg("a2"), 40);
    assert_eq!(cpu.reg("a3"), 42);
    assert_eq!(cpu.load(a, 64), Ok(2));
}

#[test]
fn mret_and_sret_restore_mode_and_enable_bits() {
    let mret: u32 = 0x3020_0073;
    let sret: u32 = 0x1020_0073;
    let mut bytes = Vec::new();
    bytes.extend_from_slice(&mret.to_le_bytes());
    let mut cpu = Cpu::new(bytes, vec![]);
    cpu.store_csr(MEPC, DRAM_BASE + 0x40);
    cpu.store_csr(MSTATUS, (1 << 11) | (1 << 7) | (1 << 17));
    let inst = cpu.fetch().unwrap();
    assert_eq!(cpu.execute(inst), Ok(DRAM_BASE + 0x40));
    assert_eq!(cpu.mode, Mode::Supervisor);
    let ms = cpu.load_csr(MSTATUS);
    assert_eq!(ms & MASK_MIE, MASK_MIE);
    assert_eq!((ms >> 11) & 3, 0);
    assert_eq!((ms >> 17) & 1, 0);
    cpu.store_csr(SEPC, DRAM_BASE + 0x80);
    cpu.store_csr(SSTATUS, 1 << 5);
    assert_eq!(cpu.execute(sret as u64), Ok(DRAM_BASE + 0x80));
    assert_eq!(cpu.mode, Mode::User);
    let ss = cpu.load_csr(SSTATUS);
    assert_eq!(ss & MASK_SIE, MASK_SIE);
    assert_eq!((ss >> 5) & 1, 1);
}

#[test]
fn satp_write_by_csrrw_switches_paging() {
    // csrrw zero, satp, a0
    let inst: u64 = (0x180 << 20) | (10 << 15) | (1 << 12) | 0x73;
    let mut cpu = Cpu::new(vec![], vec![]);
    cpu.regs[10] = (8 << 60) | 0x80100;
    assert_eq!(cpu.execute(inst), Ok(DRAM_BASE + 4));
    assert!(cpu.enable_paging);
    assert_eq!(cpu.page_table, 0x80100 << 12);
    cpu.regs[10] = 0;
    assert_eq!(cpu.execute(inst), Ok(DRAM_BASE + 4));
    assert!(!cpu.enable_paging);
}

#[test]
fn interrupts_by_priority_and_enable() {
    let mut cpu = Cpu::new(vec![], vec![]);
    cpu.store_csr(MIE, MASK_MTIP | MASK_SSIP | MASK_MEIP);
    cpu.store_csr(MIP, MASK_MTIP | MASK_SSIP);
    assert_eq!(cpu.check_pending_interrupt(), None);
    cpu.store_csr(MSTATUS, MASK_MIE);
    assert_eq!(cpu.check_pending_interrupt(), Some(Interrupt::MachineTimerInterrupt));
    assert_eq!(cpu.load_csr(MIP), MASK_SSIP);
    assert_eq!(cpu.check_pending_interrupt(), Some(Interrupt::SupervisorSoftwareInterrupt));
    assert_eq!(cpu.check_pending_interrupt(), None);
    cpu.store_csr(MIP, MASK_MEIP | MASK_MTIP);
    assert_eq!(cpu.check_pending_interrupt(), Some(Interrupt::MachineExternalInterrupt));
}

#[test]
fn uart_input_raises_a_supervisor_external_interrupt() {
    let mut cpu = Cpu::new(vec![], vec![]);
    cpu.store_csr(MIE, MASK_SEIP);
    cpu.store_csr(MSTATUS, MASK_MIE);
    assert!(cpu.bus.uart.receive(b'x'));
    assert_eq!(cpu.check_pending_interrupt(), Some(Interrupt::SupervisorExternalInterrupt));
    assert_eq!(cpu.bus.load(PLIC_SCLAIM, 32), Ok(10));
    assert_eq!(cpu.load_csr(MIP) & MASK_SEIP, 0);
}

#[test]
fn interrupt_delivery_direct_and_vectored() {
    let mut cpu = Cpu::new(vec![], vec![]);
    cpu.store_csr(MTVEC, 0x8000_0101);
    cpu.store_csr(MSTATUS, MASK_MIE);
    cpu.handle_interrupt(Interrupt::MachineTimerInterrupt);
    assert_eq!(cpu.pc, 0x8000_0100 + 4 * 7);
    assert_eq!(cpu.load_csr(MCAUSE), (1 << 63) | 7);
    assert_eq!(cpu.load_csr(MEPC), DRAM_BASE);
    assert_eq!(cpu.load_csr(MSTATUS) & MASK_MIE, 0);
    cpu.mode = Mode::User;
    cpu.store_csr(MIDELEG, 1 << 9);
    cpu.store_csr(STVEC, 0x8000_0200);
    cpu.handle_interrupt(Interrupt::SupervisorExternalInterrupt);
    assert_eq!(cpu.mode, Mode::Supervisor);
    assert_eq!(cpu.pc, 0x8000_0200);
    assert_eq!(cpu.load_csr(SCAUSE), (1 << 63) | 9);
}

/// Lays out a legacy virtqueue at `queue` with one request: header descriptor 0 at `req`,
/// data descriptor 1 at `data` of `len` bytes.
fn queue_request(cpu: &mut Cpu, queue: u64, req: u64, data: u64, len: u64, iotype: u64, sector: u64) {
    cpu.bus.store(VIRTIO_GUEST_PAGE_SIZE, 32, 4096).unwrap();
    cpu.bus.store(VIRTIO_QUEUE_PFN, 32, queue >> 12).unwrap();
    cpu.bus.store(queue, 64, req).unwrap();
    cpu.bus.store(queue + 14, 16, 1).unwrap();
    cpu.bus.store(queue + 16, 64, data).unwrap();
    cpu.bus.store(queue + 24, 32, len).unwrap();
    cpu.bus.store(queue + 8 * 16 + 2, 16, 0).unwrap();
    cpu.bus.store(queue + 8 * 16 + 4, 16, 0).unwrap();
    cpu.bus.store(req, 32, iotype).unwrap();
    cpu.bus.store(req + 8, 64, sector).unwrap();
}

#[test]
fn disk_write_request() {
    let mut cpu = Cpu::new(vec![], vec![0; 2048]);
    let queue = DRAM_BASE + 0x4_0000;
    let data = DRAM_BASE + 0x5_0000;
    queue_request(&mut cpu, queue, DRAM_BASE + 0x6_0000, data, 4, 1, 2);
    cpu.bus.store(data, 32, 0x0403_0201).unwrap();
    assert_eq!(cpu.disk_access(), Ok(()));
    assert_eq!(cpu.bus.virtio.read_disk(1024), 1);
    assert_eq!(cpu.bus.virtio.read_disk(1027), 4);
    assert_eq!(cpu.bus.virtio.read_disk(1028), 0);
    assert_eq!(cpu.bus.load(queue + 4096 + 2, 16), Ok(1));
}

#[test]
fn disk_read_request_through_interrupt_sampling() {
    let mut disk = vec![0u8; 1024];
    disk[512] = 0x5a;
    disk[513] = 0xa5;
    let mut cpu = Cpu::new(vec![], disk);
    let queue = DRAM_BASE + 0x4_0000;
    let data = DRAM_BASE + 0x5_0000;
    queue_request(&mut cpu, queue, DRAM_BASE + 0x6_0000, data, 2, 0, 1);
    cpu.bus.store(VIRTIO_QUEUE_NOTIFY, 32, 0).unwrap();
    cpu.mode = Mode::Supervisor;
    cpu.store_csr(SSTATUS, MASK_SIE);
    cpu.store_csr(MIE, MASK_SEIP);
    assert_eq!(cpu.check_pending_interrupt(), Some(Interrupt::SupervisorExternalInterrupt));
    assert_eq!(cpu.bus.load(data, 16), Ok(0xa55a));
    assert_eq!(cpu.bus.load(PLIC_SCLAIM, 32), Ok(1));
    assert_eq!(cpu.bus.virtio.id, 1);
}

#[test]
fn disk_request_past_the_end_fails() {
    let mut cpu = Cpu::new(vec![], vec![0; 512]);
    let queue = DRAM_BASE + 0x4_0000;
    queue_request(&mut cpu, queue, DRAM_BASE + 0x6_0000, DRAM_BASE + 0x5_0000, 4, 1, 1);
    assert_eq!(cpu.disk_access(), Err(Exception::LoadAccessFault(1)));
    assert_eq!(cpu.bus.virtio.id, 0);
}

#[test]
fn step_delivers_illegal_instruction() {
    let mut cpu = Cpu::new(vec![], vec![]);
    cpu.store_csr(MTVEC, DRAM_BASE + 0x100);
    assert_eq!(cpu.step(), Err(Exception::IllegalInstruction(0)));
    assert_eq!(cpu.pc, DRAM_BASE + 0x100);
    assert_eq!(cpu.load_csr(MCAUSE), 2);
    assert_eq!(cpu.load_csr(MEPC), DRAM_BASE);
    let mut cpu = Cpu::new(vec![], vec![]);
    cpu.pc = 0x1000;
    assert_eq!(cpu.step(), Err(Exception::InstructionAccessFault(0x1000)));
    assert_eq!(cpu.load_csr(MCAUSE), 1);
}
