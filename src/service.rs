//! Interrupt sampling, the block-device request service, and one cycle of the hart:
//! fetch, execute, trap delivery, and interrupt delivery.
use vstd::prelude::*;
use crate::bus::BusModel;
use crate::cpu::{lemma_wide_load_keeps_bus, Cpu, CpuModel, Mode};
use crate::csr::{csr_read, csr_write};
use crate::exception::Exception;
use crate::interrupt::Interrupt;
use crate::param::{DESC_NUM, MASK_MEIP, MASK_MIE, MASK_MSIP, MASK_MTIP, MASK_SEIP, MASK_SIE,
    MASK_SSIP, MASK_STIP, MIE, MIP, MSTATUS, PAGE_SIZE, PLIC_SCLAIM, SECTOR_SIZE, SSTATUS, UART_IRQ,
    VIRTIO_BLK_T_IN, VIRTIO_BLK_T_OUT, VIRTIO_IRQ};
use crate::uart::UartModel;
use crate::virtio::VirtioModel;
use crate::virtqueue::{AVAIL_IDX_OFFSET, AVAIL_RING_OFFSET, DESC_LEN_OFFSET, DESC_NEXT_OFFSET,
    DESC_SIZE, REQ_SECTOR_OFFSET, USED_IDX_OFFSET};

verus! {

/// What a load of `size` bits at `addr` returns.
pub open spec fn peek(bus: BusModel, addr: u64, size: u64) -> Result<u64, Exception> {
    bus.load(addr, size).1
}

/// The block request that the available ring names: its type, first sector, data
/// buffer address and data length.
pub open spec fn read_request(bus: BusModel) -> Result<(u64, u64, u64, u64), Exception> {
    let desc = bus.virtio.desc_addr();
    let avail = desc + DESC_NUM * DESC_SIZE;
    match peek(bus, (avail + AVAIL_IDX_OFFSET) as u64, 16) {
        Err(e) => Err(e),
        Ok(idx) => match peek(
            bus,
            (avail + AVAIL_RING_OFFSET + ((idx & 0xffff) % DESC_NUM) * 2) as u64,
            16,
        ) {
            Err(e) => Err(e),
            Ok(head) => {
                let d0 = (desc + DESC_SIZE * (head & 0xffff)) as u64;
                match peek(bus, d0, 64) {
                    Err(e) => Err(e),
                    Ok(req) => match peek(bus, req.wrapping_add(REQ_SECTOR_OFFSET), 64) {
                        Err(e) => Err(e),
                        Ok(sector) => match peek(bus, req, 32) {
                            Err(e) => Err(e),
                            Ok(iotype) => match peek(bus, (d0 + DESC_NEXT_OFFSET) as u64, 16) {
                                Err(e) => Err(e),
                                Ok(next) => {
                                    let d1 = (desc + DESC_SIZE * (next & 0xffff)) as u64;
                                    match peek(bus, d1, 64) {
                                        Err(e) => Err(e),
                                        Ok(data) => match peek(bus, (d1 + DESC_LEN_OFFSET) as u64, 32) {
                                            Err(e) => Err(e),
                                            Ok(len) => Ok((iotype, sector, data, len & 0xffff_ffff)),
                                        },
                                    }
                                },
                            },
                        },
                    },
                }
            },
        },
    }
}

/// Guest memory bytes `data + i ..` copied to the disk from byte `base + i` on.
pub open spec fn copy_to_disk(bus: BusModel, data: u64, base: int, i: nat, len: nat) -> (
    BusModel,
    Result<(), Exception>,
)
    decreases len - i,
{
    if i >= len {
        (bus, Ok(()))
    } else {
        let (b, r) = bus.load(data.wrapping_add(i as u64), 8);
        match r {
            Err(e) => (b, Err(e)),
            Ok(v) => copy_to_disk(
                BusModel {
                    virtio: VirtioModel { disk: b.virtio.disk.update(base + i, v as u8), ..b.virtio },
                    ..b
                },
                data,
                base,
                i + 1,
                len,
            ),
        }
    }
}

/// Disk bytes `base + i ..` copied to guest memory from `data + i` on.
pub open spec fn copy_from_disk(bus: BusModel, data: u64, base: int, i: nat, len: nat) -> (
    BusModel,
    Result<(), Exception>,
)
    decreases len - i,
{
    if i >= len {
        (bus, Ok(()))
    } else {
        let (b, r) = bus.store(data.wrapping_add(i as u64), 8, bus.virtio.disk[base + i] as u64);
        match r {
            Err(e) => (b, Err(e)),
            Ok(_) => copy_from_disk(b, data, base, i + 1, len),
        }
    }
}

/// One block request served: the data moves between guest memory and the disk, the
/// request count goes up by one, and the count modulo the ring size goes to the used
/// ring's index. A request that reaches past the end of the disk fails with a load
/// access fault carrying its sector, and changes nothing.
pub open spec fn serve_request(bus: BusModel) -> (BusModel, Result<(), Exception>) {
    match read_request(bus) {
        Err(e) => (bus, Err(e)),
        Ok((iotype, sector, data, len)) => {
            let base = sector * SECTOR_SIZE;
            if base + len > bus.virtio.disk.len() {
                (bus, Err(Exception::LoadAccessFault(sector)))
            } else {
                let (b, r) = if iotype == VIRTIO_BLK_T_OUT {
                    copy_to_disk(bus, data, base, 0, len as nat)
                } else if iotype == VIRTIO_BLK_T_IN {
                    copy_from_disk(bus, data, base, 0, len as nat)
                } else {
                    (bus, Ok(()))
                };
                match r {
                    Err(e) => (b, Err(e)),
                    Ok(_) => {
                        let id = b.virtio.id.wrapping_add(1);
                        let b2 = BusModel { virtio: VirtioModel { id, ..b.virtio }, ..b };
                        b2.store(
                            (bus.virtio.desc_addr() + PAGE_SIZE + USED_IDX_OFFSET) as u64,
                            16,
                            id % DESC_NUM,
                        )
                    },
                }
            }
        },
    }
}

impl CpuModel {
    /// Whether interrupts are globally off: machine mode with MIE clear, or supervisor
    /// mode with SIE clear.
    pub open spec fn interrupts_disabled(self) -> bool {
        (self.mode == Mode::Machine && csr_read(self.csrs, MSTATUS) & MASK_MIE == 0) || (self.mode
            == Mode::Supervisor && csr_read(self.csrs, SSTATUS) & MASK_SIE == 0)
    }

    /// The signalling device, the serial port before the block device, claims the
    /// external interrupt: its IRQ goes to the PLIC claim register and SEIP is set. A
    /// block device first serves one request; a request that fails is dropped, and the
    /// interrupt is raised all the same.
    pub open spec fn sample_devices(self) -> CpuModel {
        let seip = csr_write(self.csrs, MIP, csr_read(self.csrs, MIP) | MASK_SEIP);
        if self.bus.uart.interrupt {
            let b0 = BusModel { uart: UartModel { interrupt: false, ..self.bus.uart }, ..self.bus };
            CpuModel { bus: b0.store(PLIC_SCLAIM, 32, UART_IRQ).0, csrs: seip, ..self }
        } else if self.bus.virtio.notified {
            let b0 = BusModel {
                virtio: VirtioModel { notified: false, ..self.bus.virtio },
                ..self.bus
            };
            let b1 = serve_request(b0).0;
            CpuModel { bus: b1.store(PLIC_SCLAIM, 32, VIRTIO_IRQ).0, csrs: seip, ..self }
        } else {
            self
        }
    }

    /// The pending and enabled interrupt of highest priority (MEI, MSI, MTI, SEI, SSI,
    /// STI), with its bit cleared in mip.
    pub open spec fn pick_interrupt(self) -> (CpuModel, Option<Interrupt>) {
        let mip = csr_read(self.csrs, MIP);
        let pending = csr_read(self.csrs, MIE) & mip;
        let clear = |m: u64| CpuModel { csrs: csr_write(self.csrs, MIP, mip & !m), ..self };
        if pending & MASK_MEIP != 0 {
            (clear(MASK_MEIP), Some(Interrupt::MachineExternalInterrupt))
        } else if pending & MASK_MSIP != 0 {
            (clear(MASK_MSIP), Some(Interrupt::MachineSoftwareInterrupt))
        } else if pending & MASK_MTIP != 0 {
            (clear(MASK_MTIP), Some(Interrupt::MachineTimerInterrupt))
        } else if pending & MASK_SEIP != 0 {
            (clear(MASK_SEIP), Some(Interrupt::SupervisorExternalInterrupt))
        } else if pending & MASK_SSIP != 0 {
            (clear(MASK_SSIP), Some(Interrupt::SupervisorSoftwareInterrupt))
        } else if pending & MASK_STIP != 0 {
            (clear(MASK_STIP), Some(Interrupt::SupervisorTimerInterrupt))
        } else {
            (self, None)
        }
    }

    /// Interrupt sampling after an instruction.
    pub open spec fn check_pending_interrupt(self) -> (CpuModel, Option<Interrupt>) {
        if self.interrupts_disabled() {
            (self, None)
        } else {
            self.sample_devices().pick_interrupt()
        }
    }

    /// One cycle: fetch and execute, delivering the exception if one is raised, then
    /// sample and deliver an interrupt. The result is the exception delivered, if any.
    pub open spec fn step(self) -> (CpuModel, Result<(), Exception>) {
        let (s1, r) = match self.fetch() {
            Err(e) => (self.take_exception(e), Err(e)),
            Ok(inst) => {
                let (s, r) = self.execute(inst);
                match r {
                    Ok(pc) => (CpuModel { pc, ..s }, Ok(())),
                    Err(e) => (s.take_exception(e), Err(e)),
                }
            },
        };
        let (s2, i) = s1.check_pending_interrupt();
        match i {
            Some(i) => (s2.take_interrupt(i), r),
            None => (s2, r),
        }
    }
}

impl Cpu {
    /// Load `size` bits from physical address `addr`, a width that leaves the bus as it is.
    fn peek(&mut self, addr: u64, size: u64) -> (r: Result<u64, Exception>)
        requires
            old(self).wf(),
            size != 8,
        ensures
            final(self)@ == old(self)@,
            r == peek(old(self)@.bus, addr, size),
    {
        proof {
            lemma_wide_load_keeps_bus(self@.bus, addr, size);
        }
        self.bus.load(addr, size)
    }

    /// Serve one block request from the virtqueue; see `serve_request`.
    pub fn disk_access(&mut self) -> (r: Result<(), Exception>)
        requires
            old(self).wf(),
        ensures
            final(self).wf(),
            final(self)@ == (CpuModel { bus: serve_request(old(self)@.bus).0, ..old(self)@ }),
            r == serve_request(old(self)@.bus).1,
    {
        let ghost s0 = self@;
        let desc = self.bus.virtio.desc_addr();
        let avail = desc + DESC_NUM * DESC_SIZE;
        let idx = match self.peek(avail + AVAIL_IDX_OFFSET, 16) {
            Ok(v) => v,
            Err(e) => return Err(e),
        };
        proof {
            crate::cpu::lemma_and_le(idx, 0xffff);
        }
        let head = match self.peek(avail + AVAIL_RING_OFFSET + ((idx & 0xffff) % DESC_NUM) * 2, 16) {
            Ok(v) => v,
            Err(e) => return Err(e),
        };
        proof {
            crate::cpu::lemma_and_le(head, 0xffff);
        }
        let d0 = desc + DESC_SIZE * (head & 0xffff);
        let req = match self.peek(d0, 64) {
            Ok(v) => v,
            Err(e) => return Err(e),
        };
        let sector = match self.peek(req.wrapping_add(REQ_SECTOR_OFFSET), 64) {
            Ok(v) => v,
            Err(e) => return Err(e),
        };
        let iotype = match self.peek(req, 32) {
            Ok(v) => v,
            Err(e) => return Err(e),
        };
        let next = match self.peek(d0 + DESC_NEXT_OFFSET, 16) {
            Ok(v) => v,
            Err(e) => return Err(e),
        };
        proof {
            crate::cpu::lemma_and_le(next, 0xffff);
        }
        let d1 = desc + DESC_SIZE * (next & 0xffff);
        let data = match self.peek(d1, 64) {
            Ok(v) => v,
            Err(e) => return Err(e),
        };
        let len = match self.peek(d1 + DESC_LEN_OFFSET, 32) {
            Ok(v) => v & 0xffff_ffff,
            Err(e) => return Err(e),
        };
        assert(read_request(s0.bus) == Ok::<(u64, u64, u64, u64), Exception>((iotype, sector, data, len)));
        let disk_len = self.bus.virtio.disk.len() as u64;
        if sector > disk_len / SECTOR_SIZE {
            assert(sector * SECTOR_SIZE + len > disk_len) by (nonlinear_arith)
                requires
                    sector > disk_len / SECTOR_SIZE,
                    SECTOR_SIZE == 512,
            ;
            return Err(Exception::LoadAccessFault(sector));
        }
        assert(sector * SECTOR_SIZE <= disk_len) by (nonlinear_arith)
            requires
                sector <= disk_len / SECTOR_SIZE,
                SECTOR_SIZE == 512,
        ;
        let base = sector * SECTOR_SIZE;
        if len > disk_len - base {
            return Err(Exception::LoadAccessFault(sector));
        }
        let mut i: u64 = 0;
        if iotype == VIRTIO_BLK_T_OUT {
            while i < len
                invariant
                    self.wf(),
                    self@ == (CpuModel { bus: self@.bus, ..s0 }),
                    s0 == old(self)@,
                    self.bus.virtio.disk@.len() == disk_len,
                    disk_len == s0.bus.virtio.disk.len(),
                    read_request(s0.bus) == Ok::<(u64, u64, u64, u64), Exception>(
                        (iotype, sector, data, len),
                    ),
                    iotype == VIRTIO_BLK_T_OUT,
                    base == sector * SECTOR_SIZE,
                    base + len <= disk_len,
                    i <= len,
                    copy_to_disk(s0.bus, data, base as int, 0, len as nat) == copy_to_disk(
                        self@.bus,
                        data,
                        base as int,
                        i as nat,
                        len as nat,
                    ),
                decreases len - i,
            {
                let ghost cur = self@.bus;
                let v = match self.bus.load(data.wrapping_add(i), 8) {
                    Ok(v) => v,
                    Err(e) => {
                        assert(copy_to_disk(cur, data, base as int, i as nat, len as nat) == (
                        self@.bus, Err::<(), Exception>(e)));
                        return Err(e);
                    },
                };
                self.bus.virtio.write_disk(base + i, v as u8);
                i = i + 1;
            }
        } else if iotype == VIRTIO_BLK_T_IN {
            while i < len
                invariant
                    self.wf(),
                    self@ == (CpuModel { bus: self@.bus, ..s0 }),
                    s0 == old(self)@,
                    self.bus.virtio.disk@.len() == disk_len,
                    disk_len == s0.bus.virtio.disk.len(),
                    read_request(s0.bus) == Ok::<(u64, u64, u64, u64), Exception>(
                        (iotype, sector, data, len),
                    ),
                    iotype == VIRTIO_BLK_T_IN,
                    base == sector * SECTOR_SIZE,
                    base + len <= disk_len,
                    i <= len,
                    copy_from_disk(s0.bus, data, base as int, 0, len as nat) == copy_from_disk(
                        self@.bus,
                        data,
                        base as int,
                        i as nat,
                        len as nat,
                    ),
                decreases len - i,
            {
                let ghost cur = self@.bus;
                let byte = self.bus.virtio.read_disk(base + i);
                match self.bus.store(data.wrapping_add(i), 8, byte as u64) {
                    Ok(()) => {},
                    Err(e) => {
                        assert(copy_from_disk(cur, data, base as int, i as nat, len as nat) == (
                        self@.bus, Err::<(), Exception>(e)));
                        return Err(e);
                    },
                }
                i = i + 1;
            }
        }
        let new_id = self.bus.virtio.get_new_id();
        self.bus.store(desc + PAGE_SIZE + USED_IDX_OFFSET, 16, new_id % DESC_NUM)
    }
}

impl Cpu {
    /// Sample the devices and pick the interrupt to take, if interrupts are enabled;
    /// see `CpuModel::check_pending_interrupt`.
    pub fn check_pending_interrupt(&mut self) -> (r: Option<Interrupt>)
        requires
            old(self).wf(),
        ensures
            final(self).wf(),
            (final(self)@, r) == old(self)@.check_pending_interrupt(),
    {
        if self.mode == Mode::Machine && (self.csr.load(MSTATUS) & MASK_MIE) == 0 {
            return None;
        }
        if self.mode == Mode::Supervisor && (self.csr.load(SSTATUS) & MASK_SIE) == 0 {
            return None;
        }
        if self.bus.uart.is_interrupting() {
            let _ = self.bus.store(PLIC_SCLAIM, 32, UART_IRQ);
            let mip = self.csr.load(MIP);
            self.csr.store(MIP, mip | MASK_SEIP);
        } else if self.bus.virtio.is_interrupting() {
            let _ = self.disk_access();
            let _ = self.bus.store(PLIC_SCLAIM, 32, VIRTIO_IRQ);
            let mip = self.csr.load(MIP);
            self.csr.store(MIP, mip | MASK_SEIP);
        }
        let mip = self.csr.load(MIP);
        let pending = self.csr.load(MIE) & mip;
        if pending & MASK_MEIP != 0 {
            self.csr.store(MIP, mip & !MASK_MEIP);
            Some(Interrupt::MachineExternalInterrupt)
        } else if pending & MASK_MSIP != 0 {
            self.csr.store(MIP, mip & !MASK_MSIP);
            Some(Interrupt::MachineSoftwareInterrupt)
        } else if pending & MASK_MTIP != 0 {
            self.csr.store(MIP, mip & !MASK_MTIP);
            Some(Interrupt::MachineTimerInterrupt)
        } else if pending & MASK_SEIP != 0 {
            self.csr.store(MIP, mip & !MASK_SEIP);
            Some(Interrupt::SupervisorExternalInterrupt)
        } else if pending & MASK_SSIP != 0 {
            self.csr.store(MIP, mip & !MASK_SSIP);
            Some(Interrupt::SupervisorSoftwareInterrupt)
        } else if pending & MASK_STIP != 0 {
            self.csr.store(MIP, mip & !MASK_STIP);
            Some(Interrupt::SupervisorTimerInterrupt)
        } else {
            None
        }
    }

    /// Run one cycle; see `CpuModel::step`. Returns the exception delivered, if any: the
    /// caller stops on a fatal one.
    pub fn step(&mut self) -> (r: Result<(), Exception>)
        requires
            old(self).wf(),
        ensures
            final(self).wf(),
            final(self).regs@[0] == 0,
            (final(self)@, r) == old(self)@.step(),
    {
        let r = match self.fetch() {
            Err(e) => {
                self.handle_exception(e);
                Err(e)
            },
            Ok(inst) => match self.execute(inst) {
                Ok(new_pc) => {
                    self.pc = new_pc;
                    Ok(())
                },
                Err(e) => {
                    self.handle_exception(e);
                    Err(e)
                },
            },
        };
        match self.check_pending_interrupt() {
            Some(i) => self.handle_interrupt(i),
            None => {},
        }
        r
    }
}

} // verus!
