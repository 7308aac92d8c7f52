//! Register names: the ABI names, `x0` to `x31`, `pc`, `fp`, and the names of the
//! CSRs that a debugger shows.
use vstd::prelude::*;
use vstd::string::StringSliceAdditionalSpecFns;
use crate::cpu::{Cpu, CpuModel};
use crate::csr::csr_read;
use crate::param::{MCAUSE, MCOUNTEREN, MEDELEG, MEPC, MHARTID, MIP, MSCRATCH, MSTATUS, MTVAL, MTVEC,
    SATP, SCAUSE, SEPC, SIP, SSCRATCH, SSTATUS, STVAL, STVEC};

verus! {

/// What a register name refers to.
#[derive(Clone, Copy, Debug, PartialEq, Eq, Structural)]
pub enum RegisterRef {
    Gpr(u64),
    Pc,
    Csr(usize),
}

/// The register that `name` (its bytes) refers to, if it is a known name.
pub open spec fn register_ref(name: Seq<u8>) -> Option<RegisterRef> {
    if name == "zero".spec_bytes() {
        Some(RegisterRef::Gpr(0))
    } else if name == "ra".spec_bytes() {
        Some(RegisterRef::Gpr(1))
    } else if name == "sp".spec_bytes() {
        Some(RegisterRef::Gpr(2))
    } else if name == "gp".spec_bytes() {
        Some(RegisterRef::Gpr(3))
    } else if name == "tp".spec_bytes() {
        Some(RegisterRef::Gpr(4))
    } else if name == "t0".spec_bytes() {
        Some(RegisterRef::Gpr(5))
    } else if name == "t1".spec_bytes() {
        Some(RegisterRef::Gpr(6))
    } else if name == "t2".spec_bytes() {
        Some(RegisterRef::Gpr(7))
    } else if name == "s0".spec_bytes() {
        Some(RegisterRef::Gpr(8))
    } else if name == "s1".spec_bytes() {
        Some(RegisterRef::Gpr(9))
    } else if name == "a0".spec_bytes() {
        Some(RegisterRef::Gpr(10))
    } else if name == "a1".spec_bytes() {
        Some(RegisterRef::Gpr(11))
    } else if name == "a2".spec_bytes() {
        Some(RegisterRef::Gpr(12))
    } else if name == "a3".spec_bytes() {
        Some(RegisterRef::Gpr(13))
    } else if name == "a4".spec_bytes() {
        Some(RegisterRef::Gpr(14))
    } else if name == "a5".spec_bytes() {
        Some(RegisterRef::Gpr(15))
    } else if name == "a6".spec_bytes() {
        Some(RegisterRef::Gpr(16))
    } else if name == "a7".spec_bytes() {
        Some(RegisterRef::Gpr(17))
    } else if name == "s2".spec_bytes() {
        Some(RegisterRef::Gpr(18))
    } else if name == "s3".spec_bytes() {
        Some(RegisterRef::Gpr(19))
    } else if name == "s4".spec_bytes() {
        Some(RegisterRef::Gpr(20))
    } else if name == "s5".spec_bytes() {
        Some(RegisterRef::Gpr(21))
    } else if name == "s6".spec_bytes() {
        Some(RegisterRef::Gpr(22))
    } else if name == "s7".spec_bytes() {
        Some(RegisterRef::Gpr(23))
    } else if name == "s8".spec_bytes() {
        Some(RegisterRef::Gpr(24))
    } else if name == "s9".spec_bytes() {
        Some(RegisterRef::Gpr(25))
    } else if name == "s10".spec_bytes() {
        Some(RegisterRef::Gpr(26))
    } else if name == "s11".spec_bytes() {
        Some(RegisterRef::Gpr(27))
    } else if name == "t3".spec_bytes() {
        Some(RegisterRef::Gpr(28))
    } else if name == "t4".spec_bytes() {
        Some(RegisterRef::Gpr(29))
    } else if name == "t5".spec_bytes() {
        Some(RegisterRef::Gpr(30))
    } else if name == "t6".spec_bytes() {
        Some(RegisterRef::Gpr(31))
    } else if name == "pc".spec_bytes() {
        Some(RegisterRef::Pc)
    } else if name == "fp".spec_bytes() {
        Some(RegisterRef::Gpr(8))
    } else if name == "x0".spec_bytes() {
        Some(RegisterRef::Gpr(0))
    } else if name == "x1".spec_bytes() {
        Some(RegisterRef::Gpr(1))
    } else if name == "x2".spec_bytes() {
        Some(RegisterRef::Gpr(2))
    } else if name == "x3".spec_bytes() {
        Some(RegisterRef::Gpr(3))
    } else if name == "x4".spec_bytes() {
        Some(RegisterRef::Gpr(4))
    } else if name == "x5".spec_bytes() {
        Some(RegisterRef::Gpr(5))
    } else if name == "x6".spec_bytes() {
        Some(RegisterRef::Gpr(6))
    } else if name == "x7".spec_bytes() {
        Some(RegisterRef::Gpr(7))
    } else if name == "x8".spec_bytes() {
        Some(RegisterRef::Gpr(8))
    } else if name == "x9".spec_bytes() {
        Some(RegisterRef::Gpr(9))
    } else if name == "x10".spec_bytes() {
        Some(RegisterRef::Gpr(10))
    } else if name == "x11".spec_bytes() {
        Some(RegisterRef::Gpr(11))
    } else if name == "x12".spec_bytes() {
        Some(RegisterRef::Gpr(12))
    } else if name == "x13".spec_bytes() {
        Some(RegisterRef::Gpr(13))
    } else if name == "x14".spec_bytes() {
        Some(RegisterRef::Gpr(14))
    } else if name == "x15".spec_bytes() {
        Some(RegisterRef::Gpr(15))
    } else if name == "x16".spec_bytes() {
        Some(RegisterRef::Gpr(16))
    } else if name == "x17".spec_bytes() {
        Some(RegisterRef::Gpr(17))
    } else if name == "x18".spec_bytes() {
        Some(RegisterRef::Gpr(18))
    } else if name == "x19".spec_bytes() {
        Some(RegisterRef::Gpr(19))
    } else if name == "x20".spec_bytes() {
        Some(RegisterRef::Gpr(20))
    } else if name == "x21".spec_bytes() {
        Some(RegisterRef::Gpr(21))
    } else if name == "x22".spec_bytes() {
        Some(RegisterRef::Gpr(22))
    } else if name == "x23".spec_bytes() {
        Some(RegisterRef::Gpr(23))
    } else if name == "x24".spec_bytes() {
        Some(RegisterRef::Gpr(24))
    } else if name == "x25".spec_bytes() {
        Some(RegisterRef::Gpr(25))
    } else if name == "x26".spec_bytes() {
        Some(RegisterRef::Gpr(26))
    } else if name == "x27".spec_bytes() {
        Some(RegisterRef::Gpr(27))
    } else if name == "x28".spec_bytes() {
        Some(RegisterRef::Gpr(28))
    } else if name == "x29".spec_bytes() {
        Some(RegisterRef::Gpr(29))
    } else if name == "x30".spec_bytes() {
        Some(RegisterRef::Gpr(30))
    } else if name == "x31".spec_bytes() {
        Some(RegisterRef::Gpr(31))
    } else if name == "mhartid".spec_bytes() {
        Some(RegisterRef::Csr(MHARTID))
    } else if name == "mstatus".spec_bytes() {
        Some(RegisterRef::Csr(MSTATUS))
    } else if name == "mtvec".spec_bytes() {
        Some(RegisterRef::Csr(MTVEC))
    } else if name == "mepc".spec_bytes() {
        Some(RegisterRef::Csr(MEPC))
    } else if name == "mcause".spec_bytes() {
        Some(RegisterRef::Csr(MCAUSE))
    } else if name == "mtval".spec_bytes() {
        Some(RegisterRef::Csr(MTVAL))
    } else if name == "medeleg".spec_bytes() {
        Some(RegisterRef::Csr(MEDELEG))
    } else if name == "mscratch".spec_bytes() {
        Some(RegisterRef::Csr(MSCRATCH))
    } else if name == "MIP".spec_bytes() {
        Some(RegisterRef::Csr(MIP))
    } else if name == "mcounteren".spec_bytes() {
        Some(RegisterRef::Csr(MCOUNTEREN))
    } else if name == "sstatus".spec_bytes() {
        Some(RegisterRef::Csr(SSTATUS))
    } else if name == "stvec".spec_bytes() {
        Some(RegisterRef::Csr(STVEC))
    } else if name == "sepc".spec_bytes() {
        Some(RegisterRef::Csr(SEPC))
    } else if name == "scause".spec_bytes() {
        Some(RegisterRef::Csr(SCAUSE))
    } else if name == "stval".spec_bytes() {
        Some(RegisterRef::Csr(STVAL))
    } else if name == "sscratch".spec_bytes() {
        Some(RegisterRef::Csr(SSCRATCH))
    } else if name == "SIP".spec_bytes() {
        Some(RegisterRef::Csr(SIP))
    } else if name == "SATP".spec_bytes() {
        Some(RegisterRef::Csr(SATP))
    } else {
        None
    }
}

impl CpuModel {
    /// The value of the register that `r` refers to.
    pub open spec fn register_value(self, r: RegisterRef) -> u64 {
        match r {
            RegisterRef::Gpr(i) => self.regs[i as int],
            RegisterRef::Pc => self.pc,
            RegisterRef::Csr(a) => csr_read(self.csrs, a),
        }
    }
}

fn eq_bytes(a: &[u8], b: &[u8]) -> (r: bool)
    ensures
        r == (a@ == b@),
{
    if a.len() != b.len() {
        return false;
    }
    let mut i: usize = 0;
    while i < a.len()
        invariant
            a@.len() == b@.len(),
            i <= a@.len(),
            forall|j: int| 0 <= j < i ==> a@[j] == b@[j],
        decreases a@.len() - i,
    {
        if a[i] != b[i] {
            return false;
        }
        i = i + 1;
    }
    assert(a@ =~= b@);
    true
}

/// Look a register name up.
pub fn lookup_register(name: &[u8]) -> (r: Option<RegisterRef>)
    ensures
        r == register_ref(name@),
{
    if eq_bytes(name, "zero".as_bytes()) {
        Some(RegisterRef::Gpr(0))
    } else if eq_bytes(name, "ra".as_bytes()) {
        Some(RegisterRef::Gpr(1))
    } else if eq_bytes(name, "sp".as_bytes()) {
        Some(RegisterRef::Gpr(2))
    } else if eq_bytes(name, "gp".as_bytes()) {
        Some(RegisterRef::Gpr(3))
    } else if eq_bytes(name, "tp".as_bytes()) {
        Some(RegisterRef::Gpr(4))
    } else if eq_bytes(name, "t0".as_bytes()) {
        Some(RegisterRef::Gpr(5))
    } else if eq_bytes(name, "t1".as_bytes()) {
        Some(RegisterRef::Gpr(6))
    } else if eq_bytes(name, "t2".as_bytes()) {
        Some(RegisterRef::Gpr(7))
    } else if eq_bytes(name, "s0".as_bytes()) {
        Some(RegisterRef::Gpr(8))
    } else if eq_bytes(name, "s1".as_bytes()) {
        Some(RegisterRef::Gpr(9))
    } else if eq_bytes(name, "a0".as_bytes()) {
        Some(RegisterRef::Gpr(10))
    } else if eq_bytes(name, "a1".as_bytes()) {
        Some(RegisterRef::Gpr(11))
    } else if eq_bytes(name, "a2".as_bytes()) {
        Some(RegisterRef::Gpr(12))
    } else if eq_bytes(name, "a3".as_bytes()) {
        Some(RegisterRef::Gpr(13))
    } else if eq_bytes(name, "a4".as_bytes()) {
        Some(RegisterRef::Gpr(14))
    } else if eq_bytes(name, "a5".as_bytes()) {
        Some(RegisterRef::Gpr(15))
    } else if eq_bytes(name, "a6".as_bytes()) {
        Some(RegisterRef::Gpr(16))
    } else if eq_bytes(name, "a7".as_bytes()) {
        Some(RegisterRef::Gpr(17))
    } else if eq_bytes(name, "s2".as_bytes()) {
        Some(RegisterRef::Gpr(18))
    } else if eq_bytes(name, "s3".as_bytes()) {
        Some(RegisterRef::Gpr(19))
    } else if eq_bytes(name, "s4".as_bytes()) {
        Some(RegisterRef::Gpr(20))
    } else if eq_bytes(name, "s5".as_bytes()) {
        Some(RegisterRef::Gpr(21))
    } else if eq_bytes(name, "s6".as_bytes()) {
        Some(RegisterRef::Gpr(22))
    } else if eq_bytes(name, "s7".as_bytes()) {
        Some(RegisterRef::Gpr(23))
    } else if eq_bytes(name, "s8".as_bytes()) {
        Some(RegisterRef::Gpr(24))
    } else if eq_bytes(name, "s9".as_bytes()) {
        Some(RegisterRef::Gpr(25))
    } else if eq_bytes(name, "s10".as_bytes()) {
        Some(RegisterRef::Gpr(26))
    } else if eq_bytes(name, "s11".as_bytes()) {
        Some(RegisterRef::Gpr(27))
    } else if eq_bytes(name, "t3".as_bytes()) {
        Some(RegisterRef::Gpr(28))
    } else if eq_bytes(name, "t4".as_bytes()) {
        Some(RegisterRef::Gpr(29))
    } else if eq_bytes(name, "t5".as_bytes()) {
        Some(RegisterRef::Gpr(30))
    } else if eq_bytes(name, "t6".as_bytes()) {
        Some(RegisterRef::Gpr(31))
    } else if eq_bytes(name, "pc".as_bytes()) {
        Some(RegisterRef::Pc)
    } else if eq_bytes(name, "fp".as_bytes()) {
        Some(RegisterRef::Gpr(8))
    } else if eq_bytes(name, "x0".as_bytes()) {
        Some(RegisterRef::Gpr(0))
    } else if eq_bytes(name, "x1".as_bytes()) {
        Some(RegisterRef::Gpr(1))
    } else if eq_bytes(name, "x2".as_bytes()) {
        Some(RegisterRef::Gpr(2))
    } else if eq_bytes(name, "x3".as_bytes()) {
        Some(RegisterRef::Gpr(3))
    } else if eq_bytes(name, "x4".as_bytes()) {
        Some(RegisterRef::Gpr(4))
    } else if eq_bytes(name, "x5".as_bytes()) {
        Some(RegisterRef::Gpr(5))
    } else if eq_bytes(name, "x6".as_bytes()) {
        Some(RegisterRef::Gpr(6))
    } else if eq_bytes(name, "x7".as_bytes()) {
        Some(RegisterRef::Gpr(7))
    } else if eq_bytes(name, "x8".as_bytes()) {
        Some(RegisterRef::Gpr(8))
    } else if eq_bytes(name, "x9".as_bytes()) {
        Some(RegisterRef::Gpr(9))
    } else if eq_bytes(name, "x10".as_bytes()) {
        Some(RegisterRef::Gpr(10))
    } else if eq_bytes(name, "x11".as_bytes()) {
        Some(RegisterRef::Gpr(11))
    } else if eq_bytes(name, "x12".as_bytes()) {
        Some(RegisterRef::Gpr(12))
    } else if eq_bytes(name, "x13".as_bytes()) {
        Some(RegisterRef::Gpr(13))
    } else if eq_bytes(name, "x14".as_bytes()) {
        Some(RegisterRef::Gpr(14))
    } else if eq_bytes(name, "x15".as_bytes()) {
        Some(RegisterRef::Gpr(15))
    } else if eq_bytes(name, "x16".as_bytes()) {
        Some(RegisterRef::Gpr(16))
    } else if eq_bytes(name, "x17".as_bytes()) {
        Some(RegisterRef::Gpr(17))
    } else if eq_bytes(name, "x18".as_bytes()) {
        Some(RegisterRef::Gpr(18))
    } else if eq_bytes(name, "x19".as_bytes()) {
        Some(RegisterRef::Gpr(19))
    } else if eq_bytes(name, "x20".as_bytes()) {
        Some(RegisterRef::Gpr(20))
    } else if eq_bytes(name, "x21".as_bytes()) {
        Some(RegisterRef::Gpr(21))
    } else if eq_bytes(name, "x22".as_bytes()) {
        Some(RegisterRef::Gpr(22))
    } else if eq_bytes(name, "x23".as_bytes()) {
        Some(RegisterRef::Gpr(23))
    } else if eq_bytes(name, "x24".as_bytes()) {
        Some(RegisterRef::Gpr(24))
    } else if eq_bytes(name, "x25".as_bytes()) {
        Some(RegisterRef::Gpr(25))
    } else if eq_bytes(name, "x26".as_bytes()) {
        Some(RegisterRef::Gpr(26))
    } else if eq_bytes(name, "x27".as_bytes()) {
        Some(RegisterRef::Gpr(27))
    } else if eq_bytes(name, "x28".as_bytes()) {
        Some(RegisterRef::Gpr(28))
    } else if eq_bytes(name, "x29".as_bytes()) {
        Some(RegisterRef::Gpr(29))
    } else if eq_bytes(name, "x30".as_bytes()) {
        Some(RegisterRef::Gpr(30))
    } else if eq_bytes(name, "x31".as_bytes()) {
        Some(RegisterRef::Gpr(31))
    } else if eq_bytes(name, "mhartid".as_bytes()) {
        Some(RegisterRef::Csr(MHARTID))
    } else if eq_bytes(name, "mstatus".as_bytes()) {
        Some(RegisterRef::Csr(MSTATUS))
    } else if eq_bytes(name, "mtvec".as_bytes()) {
        Some(RegisterRef::Csr(MTVEC))
    } else if eq_bytes(name, "mepc".as_bytes()) {
        Some(RegisterRef::Csr(MEPC))
    } else if eq_bytes(name, "mcause".as_bytes()) {
        Some(RegisterRef::Csr(MCAUSE))
    } else if eq_bytes(name, "mtval".as_bytes()) {
        Some(RegisterRef::Csr(MTVAL))
    } else if eq_bytes(name, "medeleg".as_bytes()) {
        Some(RegisterRef::Csr(MEDELEG))
    } else if eq_bytes(name, "mscratch".as_bytes()) {
        Some(RegisterRef::Csr(MSCRATCH))
    } else if eq_bytes(name, "MIP".as_bytes()) {
        Some(RegisterRef::Csr(MIP))
    } else if eq_bytes(name, "mcounteren".as_bytes()) {
        Some(RegisterRef::Csr(MCOUNTEREN))
    } else if eq_bytes(name, "sstatus".as_bytes()) {
        Some(RegisterRef::Csr(SSTATUS))
    } else if eq_bytes(name, "stvec".as_bytes()) {
        Some(RegisterRef::Csr(STVEC))
    } else if eq_bytes(name, "sepc".as_bytes()) {
        Some(RegisterRef::Csr(SEPC))
    } else if eq_bytes(name, "scause".as_bytes()) {
        Some(RegisterRef::Csr(SCAUSE))
    } else if eq_bytes(name, "stval".as_bytes()) {
        Some(RegisterRef::Csr(STVAL))
    } else if eq_bytes(name, "sscratch".as_bytes()) {
        Some(RegisterRef::Csr(SSCRATCH))
    } else if eq_bytes(name, "SIP".as_bytes()) {
        Some(RegisterRef::Csr(SIP))
    } else if eq_bytes(name, "SATP".as_bytes()) {
        Some(RegisterRef::Csr(SATP))
    } else {
        None
    }
}

impl Cpu {
    /// The value of the register called `name`.
    pub fn reg(&self, name: &str) -> (r: u64)
        requires
            self.wf(),
            register_ref(name.spec_bytes()) is Some,
        ensures
            r == self@.register_value(register_ref(name.spec_bytes())->Some_0),
    {
        match lookup_register(name.as_bytes()) {
            Some(RegisterRef::Gpr(i)) => self.regs[i as usize],
            Some(RegisterRef::Pc) => self.pc,
            Some(RegisterRef::Csr(a)) => self.csr.load(a),
            None => 0,
        }
    }
}

} // verus!
