//! The system bus: routes each physical access to the device whose range covers the
//! address, or faults.
use vstd::prelude::*;
use crate::clint::Clint;
use crate::dram::{dram_load, dram_store_op, Dram};
use crate::exception::Exception;
use crate::param::{CLINT_BASE, CLINT_END, DRAM_BASE, DRAM_END, DRAM_SIZE, PLIC_BASE, PLIC_END,
    UART_BASE, UART_END, VIRTIO_BASE, VIRTIO_END};
use crate::plic::Plic;
use crate::uart::{Uart, UartModel};
use crate::virtio::{Virtio, VirtioModel};

verus! {

/// The state of everything on the bus.
pub struct BusModel {
    pub mem: Seq<u8>,
    pub clint: Clint,
    pub plic: Plic,
    pub uart: UartModel,
    pub virtio: VirtioModel,
}

impl BusModel {
    /// The bus at power-on: memory holds `code` from its start and zeros after it, the
    /// disk holds `disk`, and every device register is in its reset state.
    pub open spec fn initial(code: Seq<u8>, disk: Seq<u8>) -> BusModel {
        BusModel {
            mem: Seq::new(DRAM_SIZE as nat, |i: int| if i < code.len() { code[i] } else { 0u8 }),
            clint: Clint { mtime: 0, mtimecmp: 0 },
            plic: Plic { pending: 0, senable: 0, spriority: 0, sclaim: 0 },
            uart: UartModel::initial(),
            virtio: VirtioModel::initial(disk),
        }
    }

    /// A load of `size` bits at physical address `addr`: the state after it, and its result.
    pub open spec fn load(self, addr: u64, size: u64) -> (BusModel, Result<u64, Exception>) {
        if CLINT_BASE <= addr <= CLINT_END {
            (self, self.clint.load_spec(addr, size))
        } else if PLIC_BASE <= addr <= PLIC_END {
            (self, self.plic.load_spec(addr, size))
        } else if DRAM_BASE <= addr <= DRAM_END {
            (self, dram_load(self.mem, addr, size))
        } else if UART_BASE <= addr <= UART_END {
            let (u, r) = self.uart.load(addr, size);
            (BusModel { uart: u, ..self }, r)
        } else if VIRTIO_BASE <= addr <= VIRTIO_END {
            (self, self.virtio.load(addr, size))
        } else {
            (self, Err(Exception::LoadAccessFault(addr)))
        }
    }

    /// A store of `size` bits of `value` at physical address `addr`: the state after it,
    /// and its result.
    pub open spec fn store(self, addr: u64, size: u64, value: u64) -> (BusModel, Result<(), Exception>) {
        if CLINT_BASE <= addr <= CLINT_END {
            let (r, c) = self.clint.store_spec(addr, size, value);
            (BusModel { clint: c, ..self }, r)
        } else if PLIC_BASE <= addr <= PLIC_END {
            let (r, p) = self.plic.store_spec(addr, size, value);
            (BusModel { plic: p, ..self }, r)
        } else if DRAM_BASE <= addr <= DRAM_END {
            let (m, r) = dram_store_op(self.mem, addr, size, value);
            (BusModel { mem: m, ..self }, r)
        } else if UART_BASE <= addr <= UART_END {
            let (u, r) = self.uart.store(addr, size, value);
            (BusModel { uart: u, ..self }, r)
        } else if VIRTIO_BASE <= addr <= VIRTIO_END {
            let (v, r) = self.virtio.store(addr, size, value);
            (BusModel { virtio: v, ..self }, r)
        } else {
            (self, Err(Exception::StoreAMOAccessFault(addr)))
        }
    }
}

/// The system bus and the devices on it.
pub struct Bus {
    pub dram: Dram,
    pub plic: Plic,
    pub clint: Clint,
    pub uart: Uart,
    pub virtio: Virtio,
}

impl View for Bus {
    type V = BusModel;

    open spec fn view(&self) -> BusModel {
        BusModel {
            mem: self.dram.dram@,
            clint: self.clint,
            plic: self.plic,
            uart: self.uart@,
            virtio: self.virtio@,
        }
    }
}

impl Bus {
    pub open spec fn wf(&self) -> bool {
        self.dram.wf() && self.uart.wf()
    }

    /// A bus whose memory starts with `code` and whose disk holds `disk_image`.
    pub fn new(code: Vec<u8>, disk_image: Vec<u8>) -> (b: Bus)
        requires
            code@.len() <= DRAM_SIZE,
        ensures
            b.wf(),
            b@ == BusModel::initial(code@, disk_image@),
    {
        let ghost code_v = code@;
        let b = Bus {
            dram: Dram::new(code),
            clint: Clint::new(),
            plic: Plic::new(),
            uart: Uart::new(),
            virtio: Virtio::new(disk_image),
        };
        assert(b@.mem =~= BusModel::initial(code_v, b@.virtio.disk).mem);
        b
    }

    /// Load `size` bits from physical address `addr`.
    pub fn load(&mut self, addr: u64, size: u64) -> (r: Result<u64, Exception>)
        requires
            old(self).wf(),
        ensures
            final(self).wf(),
            (final(self)@, r) == old(self)@.load(addr, size),
    {
        if CLINT_BASE <= addr && addr <= CLINT_END {
            self.clint.load(addr, size)
        } else if PLIC_BASE <= addr && addr <= PLIC_END {
            self.plic.load(addr, size)
        } else if DRAM_BASE <= addr && addr <= DRAM_END {
            self.dram.load(addr, size)
        } else if UART_BASE <= addr && addr <= UART_END {
            self.uart.load(addr, size)
        } else if VIRTIO_BASE <= addr && addr <= VIRTIO_END {
            self.virtio.load(addr, size)
        } else {
            Err(Exception::LoadAccessFault(addr))
        }
    }

    /// Store the `size` low bits of `value` at physical address `addr`.
    pub fn store(&mut self, addr: u64, size: u64, value: u64) -> (r: Result<(), Exception>)
        requires
            old(self).wf(),
        ensures
            final(self).wf(),
            (final(self)@, r) == old(self)@.store(addr, size, value),
    {
        if CLINT_BASE <= addr && addr <= CLINT_END {
            self.clint.store(addr, size, value)
        } else if PLIC_BASE <= addr && addr <= PLIC_END {
            self.plic.store(addr, size, value)
        } else if DRAM_BASE <= addr && addr <= DRAM_END {
            self.dram.store(addr, size, value)
        } else if UART_BASE <= addr && addr <= UART_END {
            self.uart.store(addr, size, value)
        } else if VIRTIO_BASE <= addr && addr <= VIRTIO_END {
            self.virtio.store(addr, size, value)
        } else {
            Err(Exception::StoreAMOAccessFault(addr))
        }
    }
}

} // verus!
