//! The control and status register file: 4096 registers, with sie, sip and sstatus
//! read and written as masked views of mie, mip and mstatus.
use vstd::prelude::*;
use crate::param::{MIDELEG, MEDELEG, MIE, MIP, MSTATUS, NUM_CSRS, SIE, SIP, SSTATUS, SSTATUS_MASK};

verus! {

/// The value that a read of CSR `addr` gives, over the register bank `r`.
pub open spec fn csr_read(r: Seq<u64>, addr: usize) -> u64 {
    if addr == SIE {
        r[MIE as int] & r[MIDELEG as int]
    } else if addr == SIP {
        r[MIP as int] & r[MIDELEG as int]
    } else if addr == SSTATUS {
        r[MSTATUS as int] & SSTATUS_MASK
    } else {
        r[addr as int]
    }
}

/// The register bank `r` after a write of `v` to CSR `addr`.
pub open spec fn csr_write(r: Seq<u64>, addr: usize, v: u64) -> Seq<u64> {
    if addr == SIE {
        r.update(MIE as int, (r[MIE as int] & !r[MIDELEG as int]) | (v & r[MIDELEG as int]))
    } else if addr == SIP {
        r.update(MIP as int, (r[MIP as int] & !r[MIDELEG as int]) | (v & r[MIDELEG as int]))
    } else if addr == SSTATUS {
        r.update(MSTATUS as int, (r[MSTATUS as int] & !SSTATUS_MASK) | (v & SSTATUS_MASK))
    } else {
        r.update(addr as int, v)
    }
}

/// Whether bit `bit` of `v` is set.
pub open spec fn bit_set(v: u64, bit: u64) -> bool {
    (v >> bit) & 1 == 1
}

/// The control and status registers of the hart.
pub struct Csr {
    pub csrs: Vec<u64>,
}

impl Csr {
    pub open spec fn wf(&self) -> bool {
        self.csrs@.len() == NUM_CSRS
    }

    /// What a read of CSR `addr` gives.
    pub open spec fn read(&self, addr: usize) -> u64 {
        csr_read(self.csrs@, addr)
    }

    /// A register file with every register zero.
    pub fn new() -> (c: Csr)
        ensures
            c.wf(),
            forall|i: int| 0 <= i < NUM_CSRS ==> c.csrs@[i] == 0,
    {
        Csr { csrs: vec![0u64; NUM_CSRS] }
    }

    /// Read CSR `addr`.
    pub fn load(&self, addr: usize) -> (r: u64)
        requires
            self.wf(),
            addr < NUM_CSRS,
        ensures
            r == self.read(addr),
    {
        if addr == SIE {
            self.csrs[MIE] & self.csrs[MIDELEG]
        } else if addr == SIP {
            self.csrs[MIP] & self.csrs[MIDELEG]
        } else if addr == SSTATUS {
            self.csrs[MSTATUS] & SSTATUS_MASK
        } else {
            self.csrs[addr]
        }
    }

    /// Write `value` to CSR `addr`.
    pub fn store(&mut self, addr: usize, value: u64)
        requires
            old(self).wf(),
            addr < NUM_CSRS,
        ensures
            final(self).wf(),
            final(self).csrs@ == csr_write(old(self).csrs@, addr, value),
    {
        if addr == SIE {
            let v = (self.csrs[MIE] & !self.csrs[MIDELEG]) | (value & self.csrs[MIDELEG]);
            self.csrs.set(MIE, v);
        } else if addr == SIP {
            let v = (self.csrs[MIP] & !self.csrs[MIDELEG]) | (value & self.csrs[MIDELEG]);
            self.csrs.set(MIP, v);
        } else if addr == SSTATUS {
            let v = (self.csrs[MSTATUS] & !SSTATUS_MASK) | (value & SSTATUS_MASK);
            self.csrs.set(MSTATUS, v);
        } else {
            self.csrs.set(addr, value);
        }
    }

    /// Whether exceptions with code `cause` are delegated to supervisor mode.
    pub fn is_medelegated(&self, cause: u64) -> (r: bool)
        requires
            self.wf(),
            cause < 64,
        ensures
            r == bit_set(self.csrs@[MEDELEG as int], cause),
    {
        (self.csrs[MEDELEG] >> cause) & 1 == 1
    }

    /// Whether interrupts with number `cause` are delegated to supervisor mode.
    pub fn is_midelegated(&self, cause: u64) -> (r: bool)
        requires
            self.wf(),
            cause < 64,
        ensures
            r == bit_set(self.csrs@[MIDELEG as int], cause),
    {
        (self.csrs[MIDELEG] >> cause) & 1 == 1
    }
}

/// Writing sstatus leaves every field of mstatus outside the supervisor's view as it was,
/// and reading sstatus never shows such a field.
pub proof fn lemma_sstatus_write_keeps_machine_fields(r: Seq<u64>, v: u64)
    requires
        r.len() == NUM_CSRS,
    ensures
        csr_read(csr_write(r, SSTATUS, v), MSTATUS) & !SSTATUS_MASK == csr_read(r, MSTATUS)
            & !SSTATUS_MASK,
        csr_read(csr_write(r, SSTATUS, v), SSTATUS) == v & SSTATUS_MASK,
        csr_read(r, SSTATUS) & !SSTATUS_MASK == 0,
{
    let m = r[MSTATUS as int];
    let k = SSTATUS_MASK;
    assert(((m & !k) | (v & k)) & !k == m & !k) by (bit_vector);
    assert(((m & !k) | (v & k)) & k == v & k) by (bit_vector);
    assert((m & k) & !k == 0) by (bit_vector);
}

/// Writing `v` to sie sets mie to `(mie & !mideleg) | (v & mideleg)`, and writing `v` to
/// sip sets mip the same way; no other register changes.
pub proof fn lemma_sie_sip_write(r: Seq<u64>, v: u64)
    requires
        r.len() == NUM_CSRS,
    ensures
        csr_write(r, SIE, v)[MIE as int] == (r[MIE as int] & !r[MIDELEG as int]) | (v
            & r[MIDELEG as int]),
        forall|i: int| 0 <= i < NUM_CSRS && i != MIE ==> csr_write(r, SIE, v)[i] == r[i],
        csr_write(r, SIP, v)[MIP as int] == (r[MIP as int] & !r[MIDELEG as int]) | (v
            & r[MIDELEG as int]),
        forall|i: int| 0 <= i < NUM_CSRS && i != MIP ==> csr_write(r, SIP, v)[i] == r[i],
{
}

} // verus!
