//! The hart: registers, privilege mode, CSRs and the bus, with address translation,
//! memory access, instruction fetch, and trap delivery.
use vstd::prelude::*;
use crate::bus::{Bus, BusModel};
use crate::csr::{bit_set, csr_read, csr_write, Csr};
use crate::exception::Exception;
use crate::interrupt::Interrupt;
use crate::param::{DRAM_BASE, DRAM_END, DRAM_SIZE, MASK_MIE, MASK_MPIE, MASK_MPP, MASK_SIE,
    MASK_SPIE, MASK_SPP, MCAUSE, MEDELEG, MEPC, MIDELEG, MSTATUS, MTVAL, MTVEC, NUM_CSRS, PAGE_SIZE,
    SATP, SCAUSE, SEPC, SSTATUS, STVAL, STVEC, UART_SIZE};

verus! {

/// A privilege mode.
#[derive(Clone, Copy, Debug, PartialEq, Eq, Structural)]
pub enum Mode {
    User,
    Supervisor,
    Machine,
}

impl Mode {
    /// The mode's encoding in the xPP fields.
    pub open spec fn spec_bits(self) -> u64 {
        match self {
            Mode::User => 0b00,
            Mode::Supervisor => 0b01,
            Mode::Machine => 0b11,
        }
    }

    /// The mode that an xPP field value names; the reserved encoding 0b10 reads as User.
    pub open spec fn spec_from_bits(b: u64) -> Mode {
        if b == 0b11 {
            Mode::Machine
        } else if b == 0b01 {
            Mode::Supervisor
        } else {
            Mode::User
        }
    }

    #[verifier::when_used_as_spec(spec_bits)]
    pub fn bits(self) -> (r: u64)
        ensures
            r == self.spec_bits(),
            r <= 3,
    {
        match self {
            Mode::User => 0b00,
            Mode::Supervisor => 0b01,
            Mode::Machine => 0b11,
        }
    }

    #[verifier::when_used_as_spec(spec_from_bits)]
    pub fn from_bits(b: u64) -> (m: Mode)
        ensures
            m == Mode::spec_from_bits(b),
    {
        if b == 0b11 {
            Mode::Machine
        } else if b == 0b01 {
            Mode::Supervisor
        } else {
            Mode::User
        }
    }
}

/// The kind of access that an address is translated for; it selects the page fault.
#[derive(Clone, Copy, Debug, PartialEq, Eq, Structural)]
pub enum AccessType {
    Instruction,
    Load,
    Store,
}

/// The page fault that matches an access type.
pub open spec fn spec_page_fault(va: u64, access: AccessType) -> Exception {
    match access {
        AccessType::Instruction => Exception::InstructionPageFault(va),
        AccessType::Load => Exception::LoadPageFault(va),
        AccessType::Store => Exception::StoreAMOPageFault(va),
    }
}

#[verifier::when_used_as_spec(spec_page_fault)]
fn page_fault(va: u64, access: AccessType) -> (e: Exception)
    ensures
        e == spec_page_fault(va, access),
{
    match access {
        AccessType::Instruction => Exception::InstructionPageFault(va),
        AccessType::Load => Exception::LoadPageFault(va),
        AccessType::Store => Exception::StoreAMOPageFault(va),
    }
}

/// The largest physical page number a page-table entry or satp can hold.
pub const MAX_PPN: u64 = 0xfff_ffff_ffff;

/// Virtual page number field `level` of a virtual address.
pub open spec fn vpn(va: u64, level: nat) -> u64 {
    (va >> ((12 + 9 * level) as u64)) & 0x1ff
}

/// The physical page number held by a page-table entry.
pub open spec fn pte_ppn(pte: u64) -> u64 {
    (pte >> 10u64) & MAX_PPN
}

/// Whether a page-table entry is invalid: V clear, or W set without R.
pub open spec fn pte_invalid(pte: u64) -> bool {
    pte & 1 == 0 || ((pte >> 1u64) & 1 == 0 && (pte >> 2u64) & 1 == 1)
}

/// Whether a valid page-table entry is a leaf: R or X set.
pub open spec fn pte_leaf(pte: u64) -> bool {
    (pte >> 1u64) & 1 == 1 || (pte >> 3u64) & 1 == 1
}

/// The physical address that a leaf entry found at `level` gives for `va`.
pub open spec fn leaf_address(pte: u64, va: u64, level: nat) -> u64 {
    let offset = va & 0xfff;
    if level == 0 {
        (pte_ppn(pte) << 12u64) | offset
    } else if level == 1 {
        (((pte >> 28u64) & 0x03ff_ffff) << 30u64) | (((pte >> 19u64) & 0x1ff) << 21u64) | (vpn(va, 0)
            << 12u64) | offset
    } else {
        (((pte >> 28u64) & 0x03ff_ffff) << 30u64) | (vpn(va, 1) << 21u64) | (vpn(va, 0) << 12u64)
            | offset
    }
}

/// The Sv39 page-table walk from table `a` at `level` down.
pub open spec fn walk(bus: BusModel, a: u64, va: u64, access: AccessType, level: nat) -> Result<
    u64,
    Exception,
>
    decreases level,
{
    match bus.load((a + vpn(va, level) * 8) as u64, 64).1 {
        Err(_) => Err(spec_page_fault(va, access)),
        Ok(pte) => {
            if pte_invalid(pte) {
                Err(spec_page_fault(va, access))
            } else if pte_leaf(pte) {
                Ok(leaf_address(pte, va, level))
            } else if level == 0 {
                Err(spec_page_fault(va, access))
            } else {
                walk(bus, (pte_ppn(pte) * PAGE_SIZE) as u64, va, access, (level - 1) as nat)
            }
        }
    }
}

/// The root page table that a satp value names.
pub open spec fn satp_page_table(satp: u64) -> u64 {
    ((satp & MAX_PPN) * PAGE_SIZE) as u64
}

/// Whether a satp value selects Sv39.
pub open spec fn satp_paging(satp: u64) -> bool {
    satp >> 60u64 == 8
}

/// sstatus after trap entry into supervisor mode from a mode with encoding `prev`:
/// SPIE takes SIE, SIE is cleared, SPP takes `prev`.
pub open spec fn status_on_s_trap(status: u64, prev: u64) -> u64 {
    let ie = (status & MASK_SIE) >> 1u64;
    let s1 = (status & !MASK_SPIE) | (ie << 5u64);
    let s2 = s1 & !MASK_SIE;
    (s2 & !MASK_SPP) | (prev << 8u64)
}

/// mstatus after trap entry into machine mode from a mode with encoding `prev`:
/// MPIE takes MIE, MIE is cleared, MPP takes `prev`.
pub open spec fn status_on_m_trap(status: u64, prev: u64) -> u64 {
    let ie = (status & MASK_MIE) >> 3u64;
    let s1 = (status & !MASK_MPIE) | (ie << 7u64);
    let s2 = s1 & !MASK_MIE;
    (s2 & !MASK_MPP) | (prev << 11u64)
}

/// The status register after trap entry into supervisor mode (`to_supervisor`) or machine
/// mode from mode `prev`.
pub open spec fn status_on_trap(status: u64, to_supervisor: bool, prev: Mode) -> u64 {
    if to_supervisor {
        status_on_s_trap(status, prev.spec_bits())
    } else {
        status_on_m_trap(status, prev.spec_bits())
    }
}

/// The state of the hart.
pub struct CpuModel {
    pub regs: Seq<u64>,
    pub pc: u64,
    pub mode: Mode,
    pub bus: BusModel,
    pub csrs: Seq<u64>,
    pub enable_paging: bool,
    pub page_table: u64,
}

impl CpuModel {
    pub open spec fn wf(self) -> bool {
        &&& self.regs.len() == 32
        &&& self.regs[0] == 0
        &&& self.csrs.len() == NUM_CSRS
        &&& self.bus.mem.len() == DRAM_SIZE
        &&& self.bus.uart.regs.len() == UART_SIZE
        &&& self.page_table == satp_page_table(self.csrs[SATP as int])
        &&& self.enable_paging == satp_paging(self.csrs[SATP as int])
    }

    /// Register `rd` set to `v`; writes to x0 are dropped.
    pub open spec fn set_reg(self, rd: int, v: u64) -> CpuModel {
        if rd == 0 {
            self
        } else {
            CpuModel { regs: self.regs.update(rd, v), ..self }
        }
    }

    /// The cached paging state brought up to date after a write to CSR `addr`.
    pub open spec fn refresh_paging(self, addr: usize) -> CpuModel {
        if addr == SATP {
            CpuModel {
                page_table: satp_page_table(self.csrs[SATP as int]),
                enable_paging: satp_paging(self.csrs[SATP as int]),
                ..self
            }
        } else {
            self
        }
    }

    /// A CSR write followed by the paging refresh.
    pub open spec fn write_csr(self, addr: usize, v: u64) -> CpuModel {
        CpuModel { csrs: csr_write(self.csrs, addr, v), ..self }.refresh_paging(addr)
    }

    /// The physical address for virtual address `va`.
    pub open spec fn translate(self, va: u64, access: AccessType) -> Result<u64, Exception> {
        if !self.enable_paging {
            Ok(va)
        } else {
            walk(self.bus, self.page_table, va, access, 2)
        }
    }

    /// A load of `size` bits at virtual address `va`.
    pub open spec fn mem_load(self, va: u64, size: u64) -> (CpuModel, Result<u64, Exception>) {
        match self.translate(va, AccessType::Load) {
            Err(e) => (self, Err(e)),
            Ok(pa) => {
                let (b, r) = self.bus.load(pa, size);
                (CpuModel { bus: b, ..self }, r)
            }
        }
    }

    /// A store of `size` bits of `value` at virtual address `va`.
    pub open spec fn mem_store(self, va: u64, size: u64, value: u64) -> (CpuModel, Result<(), Exception>) {
        match self.translate(va, AccessType::Store) {
            Err(e) => (self, Err(e)),
            Ok(pa) => {
                let (b, r) = self.bus.store(pa, size, value);
                (CpuModel { bus: b, ..self }, r)
            }
        }
    }

    /// Trap entry into supervisor mode (`to_s`) or machine mode with the given cause and
    /// trap value, continuing at `new_pc`: xEPC takes the program counter, xCAUSE and xTVAL
    /// their values, the status fields rotate, and the mode switches.
    pub open spec fn enter_trap(self, to_s: bool, cause: u64, tval: u64, new_pc: u64) -> CpuModel {
        let epc = if to_s { SEPC } else { MEPC };
        let cause_reg = if to_s { SCAUSE } else { MCAUSE };
        let tval_reg = if to_s { STVAL } else { MTVAL };
        let status = if to_s { SSTATUS } else { MSTATUS };
        let r = csr_write(csr_write(csr_write(self.csrs, epc, self.pc), cause_reg, cause), tval_reg, tval);
        CpuModel {
            csrs: csr_write(r, status, status_on_trap(csr_read(r, status), to_s, self.mode)),
            mode: if to_s { Mode::Supervisor } else { Mode::Machine },
            pc: new_pc,
            ..self
        }
    }

    /// Whether exception code `cause` traps into supervisor mode: the hart is below
    /// machine mode and medeleg delegates it.
    pub open spec fn exception_delegated(self, cause: u64) -> bool {
        self.mode != Mode::Machine && bit_set(self.csrs[MEDELEG as int], cause)
    }

    /// Whether interrupt number `index` traps into supervisor mode: the hart is below
    /// machine mode and mideleg delegates it.
    pub open spec fn interrupt_delegated(self, index: u64) -> bool {
        self.mode != Mode::Machine && bit_set(self.csrs[MIDELEG as int], index)
    }

    /// Delivery of exception `e`: the trap vector's base is the new program counter.
    pub open spec fn take_exception(self, e: Exception) -> CpuModel {
        let to_s = self.exception_delegated(e.spec_code());
        let tvec = csr_read(self.csrs, if to_s { STVEC } else { MTVEC });
        self.enter_trap(to_s, e.spec_code(), e.spec_value(), tvec & !3u64)
    }

    /// Delivery of interrupt `i`: a vectored trap vector adds four times the interrupt
    /// number to its base; the trap value is zero.
    pub open spec fn take_interrupt(self, i: Interrupt) -> CpuModel {
        let to_s = self.interrupt_delegated(i.spec_index());
        let tvec = csr_read(self.csrs, if to_s { STVEC } else { MTVEC });
        let base = tvec & !3u64;
        let new_pc = if tvec & 3 == 1 { base.wrapping_add((4 * i.spec_index()) as u64) } else { base };
        self.enter_trap(to_s, i.spec_code(), 0, new_pc)
    }

    /// The 32-bit instruction at the program counter.
    pub open spec fn fetch(self) -> Result<u64, Exception> {
        match self.translate(self.pc, AccessType::Instruction) {
            Err(e) => Err(e),
            Ok(pa) => match self.bus.load(pa, 32).1 {
                Ok(inst) => Ok(inst),
                Err(_) => Err(Exception::InstructionAccessFault(self.pc)),
            },
        }
    }
}

/// A value masked by `m` is at most `m`.
pub proof fn lemma_and_le(x: u64, m: u64)
    ensures
        x & m <= m,
{
    assert(x & m <= m) by (bit_vector);
}

/// Loads wider than a byte change nothing on the bus.
pub proof fn lemma_wide_load_keeps_bus(bus: BusModel, addr: u64, size: u64)
    requires
        size != 8,
    ensures
        bus.load(addr, size).0 == bus,
{
}

/// The hart.
pub struct Cpu {
    /// The 32 integer registers; x0 always holds zero.
    pub regs: [u64; 32],
    /// Address of the next instruction.
    pub pc: u64,
    /// The current privilege mode.
    pub mode: Mode,
    /// The bus and its devices.
    pub bus: Bus,
    /// The control and status registers.
    pub csr: Csr,
    /// Whether Sv39 translation is on, as satp says.
    pub enable_paging: bool,
    /// Physical address of the root page table, as satp says.
    pub page_table: u64,
}

impl View for Cpu {
    type V = CpuModel;

    open spec fn view(&self) -> CpuModel {
        CpuModel {
            regs: self.regs@,
            pc: self.pc,
            mode: self.mode,
            bus: self.bus@,
            csrs: self.csr.csrs@,
            enable_paging: self.enable_paging,
            page_table: self.page_table,
        }
    }
}

impl Cpu {
    pub open spec fn wf(&self) -> bool {
        self@.wf()
    }

    /// A hart at the start of memory in machine mode, with paging off, the stack pointer
    /// at the end of memory, `code` loaded at the start of memory and `disk_image` as the
    /// disk.
    pub fn new(code: Vec<u8>, disk_image: Vec<u8>) -> (c: Cpu)
        requires
            code@.len() <= DRAM_SIZE,
        ensures
            c.wf(),
            c.pc == DRAM_BASE,
            c.mode == Mode::Machine,
            !c.enable_paging,
            c.page_table == 0,
            c.regs@[2] == DRAM_END,
            forall|i: int| 0 <= i < 32 && i != 2 ==> c.regs@[i] == 0,
            forall|i: int| 0 <= i < NUM_CSRS ==> c.csr.csrs@[i] == 0,
            c.bus@ == BusModel::initial(code@, disk_image@),
    {
        let mut regs: [u64; 32] = [0u64; 32];
        regs[2] = DRAM_END;
        let csr = Csr::new();
        let c = Cpu {
            regs,
            pc: DRAM_BASE,
            mode: Mode::Machine,
            bus: Bus::new(code, disk_image),
            csr,
            enable_paging: false,
            page_table: 0,
        };
        assert(0u64 & MAX_PPN == 0 && 0u64 >> 60u64 == 0) by (bit_vector);
        c
    }

    /// Read CSR `addr`.
    pub fn load_csr(&self, addr: usize) -> (r: u64)
        requires
            self.wf(),
            addr < NUM_CSRS,
        ensures
            r == csr_read(self@.csrs, addr),
    {
        self.csr.load(addr)
    }

    /// The CSRs that a register dump shows, in this order: mstatus, mtvec, mepc, mcause,
    /// sstatus, stvec, sepc, scause.
    pub fn dump_csrs(&self) -> (r: Vec<u64>)
        requires
            self.wf(),
        ensures
            r@ == seq![
                csr_read(self@.csrs, MSTATUS),
                csr_read(self@.csrs, MTVEC),
                csr_read(self@.csrs, MEPC),
                csr_read(self@.csrs, MCAUSE),
                csr_read(self@.csrs, SSTATUS),
                csr_read(self@.csrs, STVEC),
                csr_read(self@.csrs, SEPC),
                csr_read(self@.csrs, SCAUSE),
            ],
    {
        let mut r: Vec<u64> = Vec::new();
        r.push(self.csr.load(MSTATUS));
        r.push(self.csr.load(MTVEC));
        r.push(self.csr.load(MEPC));
        r.push(self.csr.load(MCAUSE));
        r.push(self.csr.load(SSTATUS));
        r.push(self.csr.load(STVEC));
        r.push(self.csr.load(SEPC));
        r.push(self.csr.load(SCAUSE));
        assert(r@ =~= seq![
            csr_read(self@.csrs, MSTATUS),
            csr_read(self@.csrs, MTVEC),
            csr_read(self@.csrs, MEPC),
            csr_read(self@.csrs, MCAUSE),
            csr_read(self@.csrs, SSTATUS),
            csr_read(self@.csrs, STVEC),
            csr_read(self@.csrs, SEPC),
            csr_read(self@.csrs, SCAUSE),
        ]);
        r
    }

    /// Write CSR `addr`; a write to satp switches paging as the new value says.
    pub fn store_csr(&mut self, addr: usize, value: u64)
        requires
            old(self).wf(),
            addr < NUM_CSRS,
        ensures
            final(self).wf(),
            final(self)@ == old(self)@.write_csr(addr, value),
    {
        self.csr.store(addr, value);
        self.update_paging(addr);
    }

    /// Refresh the cached root page table and paging flag after a write to CSR `addr`.
    fn update_paging(&mut self, addr: usize)
        requires
            old(self).csr.wf(),
            old(self).bus.wf(),
            old(self).regs@[0] == 0,
            addr < NUM_CSRS,
            addr != SATP ==> old(self).page_table == satp_page_table(old(self).csr.csrs@[SATP as int]),
            addr != SATP ==> old(self).enable_paging == satp_paging(old(self).csr.csrs@[SATP as int]),
        ensures
            final(self).wf(),
            final(self)@ == old(self)@.refresh_paging(addr),
    {
        if addr != SATP {
            return;
        }
        let satp = self.csr.load(SATP);
        assert(satp & MAX_PPN <= MAX_PPN) by (bit_vector);
        self.page_table = (satp & MAX_PPN) * PAGE_SIZE;
        self.enable_paging = satp >> 60u64 == 8;
    }

    /// Translate virtual address `addr` for an access of kind `access_type`.
    pub fn translate(&mut self, addr: u64, access_type: AccessType) -> (r: Result<u64, Exception>)
        requires
            old(self).wf(),
        ensures
            final(self)@ == old(self)@,
            r == old(self)@.translate(addr, access_type),
    {
        if !self.enable_paging {
            return Ok(addr);
        }
        let ghost s0 = self@;
        let mut a = self.page_table;
        let mut level: u64 = 2;
        let vpn0 = addr >> 12u64 & 0x1ff;
        let vpn1 = addr >> 21u64 & 0x1ff;
        let vpn2 = addr >> 30u64 & 0x1ff;
        proof {
            lemma_and_le(self.csr.csrs@[SATP as int], MAX_PPN);
        }
        loop
            invariant
                self@ == s0,
                s0 == old(self)@,
                s0.wf(),
                s0.enable_paging,
                level <= 2,
                a <= MAX_PPN * PAGE_SIZE,
                vpn0 == vpn(addr, 0),
                vpn1 == vpn(addr, 1),
                vpn2 == vpn(addr, 2),
                s0.translate(addr, access_type) == walk(s0.bus, a, addr, access_type, level as nat),
            decreases level,
        {
            let v = if level == 2 {
                vpn2
            } else if level == 1 {
                vpn1
            } else {
                vpn0
            };
            assert(v <= 0x1ff) by {
                assert(addr >> 12u64 & 0x1ff <= 0x1ff && addr >> 21u64 & 0x1ff <= 0x1ff && addr >> 30u64
                    & 0x1ff <= 0x1ff) by (bit_vector);
            }
            proof {
                lemma_wide_load_keeps_bus(s0.bus, (a + v * 8) as u64, 64);
            }
            let pte = match self.bus.load(a + v * 8, 64) {
                Ok(pte) => pte,
                Err(_) => return Err(page_fault(addr, access_type)),
            };
            if pte & 1 == 0 || ((pte >> 1u64) & 1 == 0 && (pte >> 2u64) & 1 == 1) {
                return Err(page_fault(addr, access_type));
            }
            if (pte >> 1u64) & 1 == 1 || (pte >> 3u64) & 1 == 1 {
                let offset = addr & 0xfff;
                let ppn2 = (pte >> 28u64) & 0x03ff_ffff;
                if level == 0 {
                    return Ok((((pte >> 10u64) & MAX_PPN) << 12u64) | offset);
                } else if level == 1 {
                    return Ok((ppn2 << 30u64) | (((pte >> 19u64) & 0x1ff) << 21u64) | (vpn0 << 12u64)
                        | offset);
                } else {
                    return Ok((ppn2 << 30u64) | (vpn1 << 21u64) | (vpn0 << 12u64) | offset);
                }
            }
            if level == 0 {
                return Err(page_fault(addr, access_type));
            }
            level = level - 1;
            assert((pte >> 10u64) & MAX_PPN <= MAX_PPN) by (bit_vector);
            a = ((pte >> 10u64) & MAX_PPN) * PAGE_SIZE;
        }
    }

    /// Load `size` bits from virtual address `addr`.
    pub fn load(&mut self, addr: u64, size: u64) -> (r: Result<u64, Exception>)
        requires
            old(self).wf(),
        ensures
            final(self).wf(),
            (final(self)@, r) == old(self)@.mem_load(addr, size),
    {
        let p_addr = match self.translate(addr, AccessType::Load) {
            Ok(p) => p,
            Err(e) => return Err(e),
        };
        self.bus.load(p_addr, size)
    }

    /// Store the `size` low bits of `value` at virtual address `addr`.
    pub fn store(&mut self, addr: u64, size: u64, value: u64) -> (r: Result<(), Exception>)
        requires
            old(self).wf(),
        ensures
            final(self).wf(),
            (final(self)@, r) == old(self)@.mem_store(addr, size, value),
    {
        let p_addr = match self.translate(addr, AccessType::Store) {
            Ok(p) => p,
            Err(e) => return Err(e),
        };
        self.bus.store(p_addr, size, value)
    }

    /// The instruction at the program counter.
    pub fn fetch(&mut self) -> (r: Result<u64, Exception>)
        requires
            old(self).wf(),
        ensures
            final(self)@ == old(self)@,
            r == old(self)@.fetch(),
    {
        let p_pc = match self.translate(self.pc, AccessType::Instruction) {
            Ok(p) => p,
            Err(e) => return Err(e),
        };
        proof {
            lemma_wide_load_keeps_bus(self@.bus, p_pc, 32);
        }
        match self.bus.load(p_pc, 32) {
            Ok(inst) => Ok(inst),
            Err(_) => Err(Exception::InstructionAccessFault(self.pc)),
        }
    }

    /// Enter a trap: see `CpuModel::enter_trap`.
    fn enter_trap(&mut self, to_s: bool, cause: u64, tval: u64, new_pc: u64)
        requires
            old(self).wf(),
        ensures
            final(self).wf(),
            final(self)@ == old(self)@.enter_trap(to_s, cause, tval, new_pc),
    {
        let pc = self.pc;
        let mode = self.mode;
        let (status_reg, tvec_reg, cause_reg, tval_reg, epc_reg) = if to_s {
            (SSTATUS, STVEC, SCAUSE, STVAL, SEPC)
        } else {
            (MSTATUS, MTVEC, MCAUSE, MTVAL, MEPC)
        };
        let (mask_pie, pie_i, mask_ie, ie_i, mask_pp, pp_i) = if to_s {
            (MASK_SPIE, 5u64, MASK_SIE, 1u64, MASK_SPP, 8u64)
        } else {
            (MASK_MPIE, 7u64, MASK_MIE, 3u64, MASK_MPP, 11u64)
        };
        self.csr.store(epc_reg, pc);
        self.csr.store(cause_reg, cause);
        self.csr.store(tval_reg, tval);
        let mut status = self.csr.load(status_reg);
        let ie = (status & mask_ie) >> ie_i;
        status = (status & !mask_pie) | (ie << pie_i);
        status = status & !mask_ie;
        status = (status & !mask_pp) | (mode.bits() << pp_i);
        self.csr.store(status_reg, status);
        self.mode = if to_s {
            Mode::Supervisor
        } else {
            Mode::Machine
        };
        self.pc = new_pc;
    }

    /// Deliver exception `e`, raised by the instruction at the program counter.
    pub fn handle_exception(&mut self, e: Exception)
        requires
            old(self).wf(),
        ensures
            final(self).wf(),
            final(self)@ == old(self)@.take_exception(e),
    {
        let cause = e.code();
        let to_s = self.mode != Mode::Machine && self.csr.is_medelegated(cause);
        let tvec = if to_s {
            self.csr.load(STVEC)
        } else {
            self.csr.load(MTVEC)
        };
        self.enter_trap(to_s, cause, e.value(), tvec & !3u64);
    }

    /// Deliver interrupt `interrupt`, taken before the instruction at the program counter.
    pub fn handle_interrupt(&mut self, interrupt: Interrupt)
        requires
            old(self).wf(),
        ensures
            final(self).wf(),
            final(self)@ == old(self)@.take_interrupt(interrupt),
    {
        let index = interrupt.index();
        let to_s = self.mode != Mode::Machine && self.csr.is_midelegated(index);
        let tvec = if to_s {
            self.csr.load(STVEC)
        } else {
            self.csr.load(MTVEC)
        };
        let base = tvec & !3u64;
        let new_pc = if tvec & 3 == 1 {
            base.wrapping_add(4 * index)
        } else {
            base
        };
        self.enter_trap(to_s, interrupt.code(), 0, new_pc);
    }

    /// The address of the next instruction in sequence.
    pub fn update_pc(&self) -> (r: Result<u64, Exception>)
        ensures
            r == Ok::<u64, Exception>(self.pc.wrapping_add(4)),
    {
        Ok(self.pc.wrapping_add(4))
    }
}


/// Trap delivery of an exception: xEPC holds the trapping instruction's address, xCAUSE
/// the exception code and xTVAL its value; the program counter is the trap vector's base;
/// xPIE holds the old xIE, xIE is clear, xPP holds the old mode; the hart is in the target
/// mode, supervisor mode exactly when the exception is delegated.
pub proof fn lemma_exception_delivery(m: CpuModel, e: Exception)
    requires
        m.wf(),
    ensures
        ({
            let to_s = m.exception_delegated(e.spec_code());
            let n = m.take_exception(e);
            let old_status = csr_read(m.csrs, if to_s { SSTATUS } else { MSTATUS });
            let status = csr_read(n.csrs, if to_s { SSTATUS } else { MSTATUS });
            &&& n.wf()
            &&& n.mode == (if to_s { Mode::Supervisor } else { Mode::Machine })
            &&& n.pc == csr_read(m.csrs, if to_s { STVEC } else { MTVEC }) & !3u64
            &&& csr_read(n.csrs, if to_s { SEPC } else { MEPC }) == m.pc
            &&& csr_read(n.csrs, if to_s { SCAUSE } else { MCAUSE }) == e.spec_code()
            &&& csr_read(n.csrs, if to_s { STVAL } else { MTVAL }) == e.spec_value()
            &&& to_s ==> (status >> 5u64) & 1 == (old_status >> 1u64) & 1
            &&& to_s ==> (status >> 1u64) & 1 == 0
            &&& to_s ==> (status >> 8u64) & 1 == m.mode.spec_bits()
            &&& !to_s ==> (status >> 7u64) & 1 == (old_status >> 3u64) & 1
            &&& !to_s ==> (status >> 3u64) & 1 == 0
            &&& !to_s ==> (status >> 11u64) & 3 == m.mode.spec_bits()
        }),
{
    let to_s = m.exception_delegated(e.spec_code());
    let p = m.mode.spec_bits();
    let epc = if to_s { SEPC } else { MEPC };
    let cause_reg = if to_s { SCAUSE } else { MCAUSE };
    let tval_reg = if to_s { STVAL } else { MTVAL };
    let r = csr_write(
        csr_write(csr_write(m.csrs, epc, m.pc), cause_reg, e.spec_code()),
        tval_reg,
        e.spec_value(),
    );
    let x = r[MSTATUS as int];
    assert(x == m.csrs[MSTATUS as int]);
    let k = crate::param::SSTATUS_MASK;
    assert(crate::param::SSTATUS_MASK == 0x8000_0003_000d_e162u64) by (bit_vector);
    if to_s {
        assert(p <= 1);
        let ns = status_on_s_trap(x & k, p);
        let read = ((x & !k) | (ns & k)) & k;
        assert((read >> 5u64) & 1 == ((x & k) >> 1u64) & 1 && (read >> 1u64) & 1 == 0 && (read
            >> 8u64) & 1 == p) by (bit_vector)
            requires
                p <= 1,
                k == 0x8000_0003_000d_e162u64,
                ns == status_on_s_trap(x & k, p),
                read == ((x & !k) | (ns & k)) & k,
        ;
    } else {
        assert(p <= 3);
        let ns = status_on_m_trap(x, p);
        assert((ns >> 7u64) & 1 == (x >> 3u64) & 1 && (ns >> 3u64) & 1 == 0 && (ns >> 11u64) & 3
            == p) by (bit_vector)
            requires
                p <= 3,
                ns == status_on_m_trap(x, p),
        ;
    }
}

/// With paging off, every virtual address is its own physical address.
pub proof fn lemma_translate_without_paging(m: CpuModel, va: u64, access: AccessType)
    requires
        !m.enable_paging,
    ensures
        m.translate(va, access) == Ok::<u64, Exception>(va),
{
}

/// A 4 KiB mapping: when the root entry and the second-level entry are valid pointers and
/// the last-level entry is a valid leaf, the physical address is the leaf's page number
/// shifted by 12, with the page offset of `va`.
pub proof fn lemma_translate_4k_leaf(
    m: CpuModel,
    va: u64,
    access: AccessType,
    pte2: u64,
    pte1: u64,
    pte0: u64,
)
    requires
        m.wf(),
        m.enable_paging,
        m.bus.load((m.page_table + vpn(va, 2) * 8) as u64, 64).1 == Ok::<u64, Exception>(pte2),
        !pte_invalid(pte2) && !pte_leaf(pte2),
        m.bus.load(((pte_ppn(pte2) * PAGE_SIZE) as u64 + vpn(va, 1) * 8) as u64, 64).1 == Ok::<
            u64,
            Exception,
        >(pte1),
        !pte_invalid(pte1) && !pte_leaf(pte1),
        m.bus.load(((pte_ppn(pte1) * PAGE_SIZE) as u64 + vpn(va, 0) * 8) as u64, 64).1 == Ok::<
            u64,
            Exception,
        >(pte0),
        !pte_invalid(pte0) && pte_leaf(pte0),
    ensures
        m.translate(va, access) == Ok::<u64, Exception>((pte_ppn(pte0) << 12u64) | (va & 0xfff)),
{
    reveal_with_fuel(walk, 3);
}

} // verus!
