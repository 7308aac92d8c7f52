//! Instruction decode and execution for RV64I, the M instructions mul, divu and remuw,
//! the A instructions amoadd and amoswap, Zicsr, and the privileged instructions.
use vstd::prelude::*;
use crate::cpu::{lemma_and_le, Cpu, CpuModel, Mode};
use crate::csr::{csr_read, csr_write};
use crate::dram::sign_extend;
use crate::exception::Exception;
use crate::param::{MASK_MIE, MASK_MPIE, MASK_MPP, MASK_MPRV, MASK_SIE, MASK_SPIE, MASK_SPP, MEPC,
    MSTATUS, SEPC, SSTATUS};

verus! {

pub open spec fn opcode(inst: u64) -> u64 {
    inst & 0x7f
}

pub open spec fn rd(inst: u64) -> u64 {
    (inst >> 7u64) & 0x1f
}

pub open spec fn rs1(inst: u64) -> u64 {
    (inst >> 15u64) & 0x1f
}

pub open spec fn rs2(inst: u64) -> u64 {
    (inst >> 20u64) & 0x1f
}

pub open spec fn funct3(inst: u64) -> u64 {
    (inst >> 12u64) & 0x7
}

pub open spec fn funct7(inst: u64) -> u64 {
    (inst >> 25u64) & 0x7f
}

/// The CSR address of a Zicsr instruction.
pub open spec fn csr_addr(inst: u64) -> u64 {
    (inst >> 20u64) & 0xfff
}

/// The I-type immediate, sign-extended: inst[31:20].
pub open spec fn imm_i(inst: u64) -> u64 {
    ((inst as i32 as i64) >> 20u64) as u64
}

/// The S-type immediate, sign-extended: inst[31:25] and inst[11:7].
pub open spec fn imm_s(inst: u64) -> u64 {
    ((((inst & 0xfe00_0000) as i32 as i64) >> 20u64) as u64) | ((inst >> 7u64) & 0x1f)
}

/// The B-type immediate, sign-extended: imm[12|10:5|4:1|11] = inst[31|30:25|11:8|7].
pub open spec fn imm_b(inst: u64) -> u64 {
    ((((inst & 0x8000_0000) as i32 as i64) >> 19u64) as u64) | ((inst & 0x80) << 4u64) | ((inst
        >> 20u64) & 0x7e0) | ((inst >> 7u64) & 0x1e)
}

/// The U-type immediate, sign-extended: inst[31:12] in place.
pub open spec fn imm_u(inst: u64) -> u64 {
    (inst & 0xffff_f000) as i32 as i64 as u64
}

/// The J-type immediate, sign-extended: imm[20|10:1|11|19:12] = inst[31|30:21|20|19:12].
pub open spec fn imm_j(inst: u64) -> u64 {
    ((((inst & 0x8000_0000) as i32 as i64) >> 11u64) as u64) | (inst & 0xff000) | ((inst >> 9u64)
        & 0x800) | ((inst >> 20u64) & 0x7fe)
}

/// The result of an OP-IMM instruction (addi, slli, slti, sltiu, xori, srli, srai, ori,
/// andi), or `None` for an illegal encoding.
pub open spec fn alu_imm(f3: u64, f7: u64, a: u64, imm: u64) -> Option<u64> {
    let shamt = (imm & 0x3f) as u32;
    if f3 == 0 {
        Some(a.wrapping_add(imm))
    } else if f3 == 1 {
        Some(a.wrapping_shl(shamt))
    } else if f3 == 2 {
        Some(if (a as i64) < (imm as i64) { 1 } else { 0 })
    } else if f3 == 3 {
        Some(if a < imm { 1 } else { 0 })
    } else if f3 == 4 {
        Some(a ^ imm)
    } else if f3 == 5 {
        if f7 >> 1u64 == 0 {
            Some(a.wrapping_shr(shamt))
        } else if f7 >> 1u64 == 0x10 {
            Some((a as i64).wrapping_shr(shamt) as u64)
        } else {
            None
        }
    } else if f3 == 6 {
        Some(a | imm)
    } else {
        Some(a & imm)
    }
}

/// The result of an OP-IMM-32 instruction (addiw, slliw, srliw, sraiw), or `None`.
pub open spec fn alu_imm32(f3: u64, f7: u64, a: u64, imm: u64) -> Option<u64> {
    let shamt = (imm & 0x1f) as u32;
    if f3 == 0 {
        Some(a.wrapping_add(imm) as i32 as i64 as u64)
    } else if f3 == 1 {
        Some(a.wrapping_shl(shamt) as i32 as i64 as u64)
    } else if f3 == 5 && f7 == 0 {
        Some((a as u32).wrapping_shr(shamt) as i32 as i64 as u64)
    } else if f3 == 5 && f7 == 0x20 {
        Some((a as i32).wrapping_shr(shamt) as i64 as u64)
    } else {
        None
    }
}

/// The result of an OP instruction (add, mul, sub, sll, slt, sltu, xor, srl, sra, or,
/// and), or `None`.
pub open spec fn alu(f3: u64, f7: u64, a: u64, b: u64) -> Option<u64> {
    let shamt = (b & 0x3f) as u32;
    if f3 == 0 && f7 == 0 {
        Some(a.wrapping_add(b))
    } else if f3 == 0 && f7 == 1 {
        Some(a.wrapping_mul(b))
    } else if f3 == 0 && f7 == 0x20 {
        Some(a.wrapping_sub(b))
    } else if f3 == 1 && f7 == 0 {
        Some(a.wrapping_shl(shamt))
    } else if f3 == 2 && f7 == 0 {
        Some(if (a as i64) < (b as i64) { 1 } else { 0 })
    } else if f3 == 3 && f7 == 0 {
        Some(if a < b { 1 } else { 0 })
    } else if f3 == 4 && f7 == 0 {
        Some(a ^ b)
    } else if f3 == 5 && f7 == 0 {
        Some(a.wrapping_shr(shamt))
    } else if f3 == 5 && f7 == 0x20 {
        Some((a as i64).wrapping_shr(shamt) as u64)
    } else if f3 == 6 && f7 == 0 {
        Some(a | b)
    } else if f3 == 7 && f7 == 0 {
        Some(a & b)
    } else {
        None
    }
}

/// The result of an OP-32 instruction (addw, subw, sllw, srlw, divu, sraw, remuw), or
/// `None`. Division by zero gives all ones; remainder by zero gives the dividend.
pub open spec fn alu32(f3: u64, f7: u64, a: u64, b: u64) -> Option<u64> {
    let shamt = (b & 0x1f) as u32;
    if f3 == 0 && f7 == 0 {
        Some(a.wrapping_add(b) as i32 as i64 as u64)
    } else if f3 == 0 && f7 == 0x20 {
        Some(a.wrapping_sub(b) as i32 as i64 as u64)
    } else if f3 == 1 && f7 == 0 {
        Some((a as u32).wrapping_shl(shamt) as i32 as i64 as u64)
    } else if f3 == 5 && f7 == 0 {
        Some((a as u32).wrapping_shr(shamt) as i32 as i64 as u64)
    } else if f3 == 5 && f7 == 1 {
        Some(if b == 0 { 0xffff_ffff_ffff_ffff } else { (a / b) as u64 })
    } else if f3 == 5 && f7 == 0x20 {
        Some((a as i32).wrapping_shr(shamt) as i64 as u64)
    } else if f3 == 7 && f7 == 1 {
        Some(
            if b as u32 == 0 {
                a as i32 as i64 as u64
            } else {
                ((a as u32) % (b as u32)) as u32 as i32 as i64 as u64
            },
        )
    } else {
        None
    }
}

/// Whether a branch (beq, bne, blt, bge, bltu, bgeu) is taken, or `None`.
pub open spec fn branch_taken(f3: u64, a: u64, b: u64) -> Option<bool> {
    if f3 == 0 {
        Some(a == b)
    } else if f3 == 1 {
        Some(a != b)
    } else if f3 == 4 {
        Some((a as i64) < (b as i64))
    } else if f3 == 5 {
        Some((a as i64) >= (b as i64))
    } else if f3 == 6 {
        Some(a < b)
    } else if f3 == 7 {
        Some(a >= b)
    } else {
        None
    }
}

/// The width in bits of a load or store with the given funct3.
pub open spec fn access_size(f3: u64) -> u64 {
    if f3 == 0 || f3 == 4 {
        8
    } else if f3 == 1 || f3 == 5 {
        16
    } else if f3 == 2 || f3 == 6 {
        32
    } else {
        64
    }
}

/// The new value of a CSR under csrrw/csrrs/csrrc (and their immediate forms).
pub open spec fn csr_op_value(f3: u64, old: u64, src: u64) -> u64 {
    if f3 & 3 == 1 {
        src
    } else if f3 & 3 == 2 {
        old | src
    } else {
        old & !src
    }
}

impl CpuModel {
    /// Register `r`.
    pub open spec fn x(self, r: u64) -> u64 {
        self.regs[r as int]
    }

    pub open spec fn illegal(self, inst: u64) -> (CpuModel, Result<u64, Exception>) {
        (self, Err(Exception::IllegalInstruction(inst)))
    }

    /// rd set to `v`, continuing with the next instruction.
    pub open spec fn write_rd(self, inst: u64, v: u64) -> (CpuModel, Result<u64, Exception>) {
        (self.set_reg(rd(inst) as int, v), Ok(self.pc.wrapping_add(4)))
    }

    /// lb, lh, lw, ld, lbu, lhu, lwu.
    pub open spec fn exec_load(self, inst: u64) -> (CpuModel, Result<u64, Exception>) {
        let f3 = funct3(inst);
        let size = access_size(f3);
        let addr = self.x(rs1(inst)).wrapping_add(imm_i(inst));
        if f3 == 7 {
            self.illegal(inst)
        } else {
            let (s, r) = self.mem_load(addr, size);
            match r {
                Err(e) => (s, Err(e)),
                Ok(v) => s.write_rd(inst, if f3 < 4 { sign_extend(v, size) } else { v }),
            }
        }
    }

    /// sb, sh, sw, sd.
    pub open spec fn exec_store(self, inst: u64) -> (CpuModel, Result<u64, Exception>) {
        let f3 = funct3(inst);
        let addr = self.x(rs1(inst)).wrapping_add(imm_s(inst));
        if f3 > 3 {
            self.illegal(inst)
        } else {
            let (s, r) = self.mem_store(addr, access_size(f3), self.x(rs2(inst)));
            match r {
                Err(e) => (s, Err(e)),
                Ok(_) => (s, Ok(self.pc.wrapping_add(4))),
            }
        }
    }

    /// amoadd.w, amoadd.d, amoswap.w, amoswap.d: rd takes the old memory value.
    pub open spec fn exec_amo(self, inst: u64) -> (CpuModel, Result<u64, Exception>) {
        let f3 = funct3(inst);
        let f5 = funct7(inst) >> 2u64;
        let addr = self.x(rs1(inst));
        let b = self.x(rs2(inst));
        if !((f3 == 2 || f3 == 3) && (f5 == 0 || f5 == 1)) {
            self.illegal(inst)
        } else {
            let size = if f3 == 2 { 32u64 } else { 64u64 };
            let (s1, r1) = self.mem_load(addr, size);
            match r1 {
                Err(e) => (s1, Err(e)),
                Ok(t) => {
                    let (s2, r2) = s1.mem_store(addr, size, if f5 == 0 { t.wrapping_add(b) } else { b });
                    match r2 {
                        Err(e) => (s2, Err(e)),
                        Ok(_) => s2.write_rd(inst, t),
                    }
                }
            }
        }
    }

    /// sret: back to the mode in SPP at sepc; SIE takes SPIE, SPIE is set, SPP cleared.
    pub open spec fn exec_sret(self) -> (CpuModel, Result<u64, Exception>) {
        let st = csr_read(self.csrs, SSTATUS);
        let spie = (st & MASK_SPIE) >> 5u64;
        let st1 = ((st & !MASK_SIE) | (spie << 1u64)) | MASK_SPIE;
        let st2 = st1 & !MASK_SPP;
        (
            CpuModel {
                csrs: csr_write(self.csrs, SSTATUS, st2),
                mode: Mode::spec_from_bits((st & MASK_SPP) >> 8u64),
                ..self
            },
            Ok(csr_read(self.csrs, SEPC)),
        )
    }

    /// mret: back to the mode in MPP at mepc; MIE takes MPIE, MPIE is set, MPP cleared,
    /// and MPRV cleared when the new mode is not machine mode.
    pub open spec fn exec_mret(self) -> (CpuModel, Result<u64, Exception>) {
        let st = csr_read(self.csrs, MSTATUS);
        let mode = Mode::spec_from_bits((st & MASK_MPP) >> 11u64);
        let mpie = (st & MASK_MPIE) >> 7u64;
        let st1 = ((st & !MASK_MIE) | (mpie << 3u64)) | MASK_MPIE;
        let st2 = st1 & !MASK_MPP;
        let st3 = if mode != Mode::Machine { st2 & !MASK_MPRV } else { st2 };
        (
            CpuModel { csrs: csr_write(self.csrs, MSTATUS, st3), mode, ..self },
            Ok(csr_read(self.csrs, MEPC)),
        )
    }

    /// ecall, ebreak, sret, mret, sfence.vma, and the Zicsr instructions.
    pub open spec fn exec_system(self, inst: u64) -> (CpuModel, Result<u64, Exception>) {
        let f3 = funct3(inst);
        let f7 = funct7(inst);
        let r2 = rs2(inst);
        if f3 == 0 {
            if r2 == 0 && f7 == 0 {
                (
                    self,
                    Err(
                        match self.mode {
                            Mode::User => Exception::EnvironmentCallFromUMode(self.pc),
                            Mode::Supervisor => Exception::EnvironmentCallFromSMode(self.pc),
                            Mode::Machine => Exception::EnvironmentCallFromMMode(self.pc),
                        },
                    ),
                )
            } else if r2 == 1 && f7 == 0 {
                (self, Err(Exception::Breakpoint(self.pc)))
            } else if r2 == 2 && f7 == 0x8 {
                self.exec_sret()
            } else if r2 == 2 && f7 == 0x18 {
                self.exec_mret()
            } else if f7 == 0x9 {
                (self, Ok(self.pc.wrapping_add(4)))
            } else {
                self.illegal(inst)
            }
        } else if f3 == 4 {
            self.illegal(inst)
        } else {
            let addr = csr_addr(inst) as usize;
            let src = if f3 >= 5 { rs1(inst) } else { self.x(rs1(inst)) };
            let t = csr_read(self.csrs, addr);
            self.write_csr(addr, csr_op_value(f3, t, src)).write_rd(inst, t)
        }
    }

    /// The effect of executing `inst`: the new state, and the address of the next
    /// instruction or the exception raised.
    pub open spec fn execute(self, inst: u64) -> (CpuModel, Result<u64, Exception>) {
        let op = opcode(inst);
        let f3 = funct3(inst);
        let f7 = funct7(inst);
        let a = self.x(rs1(inst));
        let b = self.x(rs2(inst));
        let next = self.pc.wrapping_add(4);
        if op == 0x03 {
            self.exec_load(inst)
        } else if op == 0x0f {
            if f3 == 0 {
                (self, Ok(next))
            } else {
                self.illegal(inst)
            }
        } else if op == 0x13 {
            match alu_imm(f3, f7, a, imm_i(inst)) {
                Some(v) => self.write_rd(inst, v),
                None => self.illegal(inst),
            }
        } else if op == 0x17 {
            self.write_rd(inst, self.pc.wrapping_add(imm_u(inst)))
        } else if op == 0x1b {
            match alu_imm32(f3, f7, a, imm_i(inst)) {
                Some(v) => self.write_rd(inst, v),
                None => self.illegal(inst),
            }
        } else if op == 0x23 {
            self.exec_store(inst)
        } else if op == 0x2f {
            self.exec_amo(inst)
        } else if op == 0x33 {
            match alu(f3, f7, a, b) {
                Some(v) => self.write_rd(inst, v),
                None => self.illegal(inst),
            }
        } else if op == 0x37 {
            self.write_rd(inst, imm_u(inst))
        } else if op == 0x3b {
            match alu32(f3, f7, a, b) {
                Some(v) => self.write_rd(inst, v),
                None => self.illegal(inst),
            }
        } else if op == 0x63 {
            match branch_taken(f3, a, b) {
                Some(taken) => (self, Ok(if taken { self.pc.wrapping_add(imm_b(inst)) } else { next })),
                None => self.illegal(inst),
            }
        } else if op == 0x67 {
            (self.set_reg(rd(inst) as int, next), Ok(a.wrapping_add(imm_i(inst)) & !1u64))
        } else if op == 0x6f {
            (self.set_reg(rd(inst) as int, next), Ok(self.pc.wrapping_add(imm_j(inst))))
        } else if op == 0x73 {
            self.exec_system(inst)
        } else {
            self.illegal(inst)
        }
    }
}

fn field_rd(inst: u64) -> (r: usize)
    ensures
        r == rd(inst),
        r < 32,
{
    proof {
        lemma_and_le(inst >> 7u64, 0x1f);
    }
    ((inst >> 7u64) & 0x1f) as usize
}

fn field_rs1(inst: u64) -> (r: usize)
    ensures
        r == rs1(inst),
        r < 32,
{
    proof {
        lemma_and_le(inst >> 15u64, 0x1f);
    }
    ((inst >> 15u64) & 0x1f) as usize
}

fn field_rs2(inst: u64) -> (r: usize)
    ensures
        r == rs2(inst),
        r < 32,
{
    proof {
        lemma_and_le(inst >> 20u64, 0x1f);
    }
    ((inst >> 20u64) & 0x1f) as usize
}

fn compute_alu_imm(f3: u64, f7: u64, a: u64, imm: u64) -> (r: Option<u64>)
    ensures
        r == alu_imm(f3, f7, a, imm),
{
    let shamt = (imm & 0x3f) as u32;
    if f3 == 0 {
        Some(a.wrapping_add(imm))
    } else if f3 == 1 {
        Some(a.wrapping_shl(shamt))
    } else if f3 == 2 {
        Some(
            if (a as i64) < (imm as i64) {
                1
            } else {
                0
            },
        )
    } else if f3 == 3 {
        Some(
            if a < imm {
                1
            } else {
                0
            },
        )
    } else if f3 == 4 {
        Some(a ^ imm)
    } else if f3 == 5 {
        if f7 >> 1u64 == 0 {
            Some(a.wrapping_shr(shamt))
        } else if f7 >> 1u64 == 0x10 {
            Some((a as i64).wrapping_shr(shamt) as u64)
        } else {
            None
        }
    } else if f3 == 6 {
        Some(a | imm)
    } else {
        Some(a & imm)
    }
}

fn compute_alu_imm32(f3: u64, f7: u64, a: u64, imm: u64) -> (r: Option<u64>)
    ensures
        r == alu_imm32(f3, f7, a, imm),
{
    let shamt = (imm & 0x1f) as u32;
    if f3 == 0 {
        Some(a.wrapping_add(imm) as i32 as i64 as u64)
    } else if f3 == 1 {
        Some(a.wrapping_shl(shamt) as i32 as i64 as u64)
    } else if f3 == 5 && f7 == 0 {
        Some((a as u32).wrapping_shr(shamt) as i32 as i64 as u64)
    } else if f3 == 5 && f7 == 0x20 {
        Some((a as i32).wrapping_shr(shamt) as i64 as u64)
    } else {
        None
    }
}

fn compute_alu(f3: u64, f7: u64, a: u64, b: u64) -> (r: Option<u64>)
    ensures
        r == alu(f3, f7, a, b),
{
    let shamt = (b & 0x3f) as u32;
    if f3 == 0 && f7 == 0 {
        Some(a.wrapping_add(b))
    } else if f3 == 0 && f7 == 1 {
        Some(a.wrapping_mul(b))
    } else if f3 == 0 && f7 == 0x20 {
        Some(a.wrapping_sub(b))
    } else if f3 == 1 && f7 == 0 {
        Some(a.wrapping_shl(shamt))
    } else if f3 == 2 && f7 == 0 {
        Some(
            if (a as i64) < (b as i64) {
                1
            } else {
                0
            },
        )
    } else if f3 == 3 && f7 == 0 {
        Some(
            if a < b {
                1
            } else {
                0
            },
        )
    } else if f3 == 4 && f7 == 0 {
        Some(a ^ b)
    } else if f3 == 5 && f7 == 0 {
        Some(a.wrapping_shr(shamt))
    } else if f3 == 5 && f7 == 0x20 {
        Some((a as i64).wrapping_shr(shamt) as u64)
    } else if f3 == 6 && f7 == 0 {
        Some(a | b)
    } else if f3 == 7 && f7 == 0 {
        Some(a & b)
    } else {
        None
    }
}

fn compute_alu32(f3: u64, f7: u64, a: u64, b: u64) -> (r: Option<u64>)
    ensures
        r == alu32(f3, f7, a, b),
{
    let shamt = (b & 0x1f) as u32;
    if f3 == 0 && f7 == 0 {
        Some(a.wrapping_add(b) as i32 as i64 as u64)
    } else if f3 == 0 && f7 == 0x20 {
        Some(a.wrapping_sub(b) as i32 as i64 as u64)
    } else if f3 == 1 && f7 == 0 {
        Some((a as u32).wrapping_shl(shamt) as i32 as i64 as u64)
    } else if f3 == 5 && f7 == 0 {
        Some((a as u32).wrapping_shr(shamt) as i32 as i64 as u64)
    } else if f3 == 5 && f7 == 1 {
        Some(
            if b == 0 {
                0xffff_ffff_ffff_ffff
            } else {
                a / b
            },
        )
    } else if f3 == 5 && f7 == 0x20 {
        Some((a as i32).wrapping_shr(shamt) as i64 as u64)
    } else if f3 == 7 && f7 == 1 {
        let divisor = b as u32;
        Some(
            if divisor == 0 {
                a as i32 as i64 as u64
            } else {
                ((a as u32) % divisor) as i32 as i64 as u64
            },
        )
    } else {
        None
    }
}

fn compute_branch_taken(f3: u64, a: u64, b: u64) -> (r: Option<bool>)
    ensures
        r == branch_taken(f3, a, b),
{
    if f3 == 0 {
        Some(a == b)
    } else if f3 == 1 {
        Some(a != b)
    } else if f3 == 4 {
        Some((a as i64) < (b as i64))
    } else if f3 == 5 {
        Some((a as i64) >= (b as i64))
    } else if f3 == 6 {
        Some(a < b)
    } else if f3 == 7 {
        Some(a >= b)
    } else {
        None
    }
}

fn compute_access_size(f3: u64) -> (r: u64)
    ensures
        r == access_size(f3),
{
    if f3 == 0 || f3 == 4 {
        8
    } else if f3 == 1 || f3 == 5 {
        16
    } else if f3 == 2 || f3 == 6 {
        32
    } else {
        64
    }
}

impl Cpu {
    /// Set register `rd`; a write to x0 is dropped.
    fn set_reg(&mut self, rd: usize, v: u64)
        requires
            old(self).wf(),
            rd < 32,
        ensures
            final(self).wf(),
            final(self)@ == old(self)@.set_reg(rd as int, v),
    {
        if rd != 0 {
            self.regs[rd] = v;
        }
        assert(rd != 0 ==> self@.regs =~= old(self)@.regs.update(rd as int, v));
    }

    /// Set rd and continue with the next instruction.
    fn write_rd(&mut self, inst: u64, v: u64) -> (r: Result<u64, Exception>)
        requires
            old(self).wf(),
        ensures
            final(self).wf(),
            (final(self)@, r) == old(self)@.write_rd(inst, v),
    {
        self.set_reg(field_rd(inst), v);
        Ok(self.pc.wrapping_add(4))
    }

    fn exec_load(&mut self, inst: u64) -> (r: Result<u64, Exception>)
        requires
            old(self).wf(),
        ensures
            final(self).wf(),
            (final(self)@, r) == old(self)@.exec_load(inst),
    {
        let f3 = (inst >> 12u64) & 0x7;
        if f3 == 7 {
            return Err(Exception::IllegalInstruction(inst));
        }
        let size = compute_access_size(f3);
        let addr = self.regs[field_rs1(inst)].wrapping_add(((inst as i32 as i64) >> 20u64) as u64);
        let v = match self.load(addr, size) {
            Ok(v) => v,
            Err(e) => return Err(e),
        };
        let value = if f3 == 0 {
            v as i8 as i64 as u64
        } else if f3 == 1 {
            v as i16 as i64 as u64
        } else if f3 == 2 {
            v as i32 as i64 as u64
        } else {
            v
        };
        self.write_rd(inst, value)
    }

    fn exec_store(&mut self, inst: u64) -> (r: Result<u64, Exception>)
        requires
            old(self).wf(),
        ensures
            final(self).wf(),
            (final(self)@, r) == old(self)@.exec_store(inst),
    {
        let f3 = (inst >> 12u64) & 0x7;
        if f3 > 3 {
            return Err(Exception::IllegalInstruction(inst));
        }
        let imm = ((((inst & 0xfe00_0000) as i32 as i64) >> 20u64) as u64) | ((inst >> 7u64) & 0x1f);
        let addr = self.regs[field_rs1(inst)].wrapping_add(imm);
        let value = self.regs[field_rs2(inst)];
        let size = compute_access_size(f3);
        match self.store(addr, size, value) {
            Ok(()) => Ok(self.pc.wrapping_add(4)),
            Err(e) => Err(e),
        }
    }

    fn exec_amo(&mut self, inst: u64) -> (r: Result<u64, Exception>)
        requires
            old(self).wf(),
        ensures
            final(self).wf(),
            (final(self)@, r) == old(self)@.exec_amo(inst),
    {
        let f3 = (inst >> 12u64) & 0x7;
        let f5 = ((inst >> 25u64) & 0x7f) >> 2u64;
        if !((f3 == 2 || f3 == 3) && (f5 == 0 || f5 == 1)) {
            return Err(Exception::IllegalInstruction(inst));
        }
        let addr = self.regs[field_rs1(inst)];
        let b = self.regs[field_rs2(inst)];
        let size: u64 = if f3 == 2 {
            32
        } else {
            64
        };
        let t = match self.load(addr, size) {
            Ok(t) => t,
            Err(e) => return Err(e),
        };
        let value = if f5 == 0 {
            t.wrapping_add(b)
        } else {
            b
        };
        match self.store(addr, size, value) {
            Ok(()) => {},
            Err(e) => return Err(e),
        }
        self.write_rd(inst, t)
    }

    fn exec_sret(&mut self) -> (r: Result<u64, Exception>)
        requires
            old(self).wf(),
        ensures
            final(self).wf(),
            (final(self)@, r) == old(self)@.exec_sret(),
    {
        let mut sstatus = self.csr.load(SSTATUS);
        let mode = Mode::from_bits((sstatus & MASK_SPP) >> 8u64);
        let spie = (sstatus & MASK_SPIE) >> 5u64;
        sstatus = ((sstatus & !MASK_SIE) | (spie << 1u64)) | MASK_SPIE;
        sstatus = sstatus & !MASK_SPP;
        let new_pc = self.csr.load(SEPC);
        self.csr.store(SSTATUS, sstatus);
        self.mode = mode;
        Ok(new_pc)
    }

    fn exec_mret(&mut self) -> (r: Result<u64, Exception>)
        requires
            old(self).wf(),
        ensures
            final(self).wf(),
            (final(self)@, r) == old(self)@.exec_mret(),
    {
        let mut mstatus = self.csr.load(MSTATUS);
        let mode = Mode::from_bits((mstatus & MASK_MPP) >> 11u64);
        let mpie = (mstatus & MASK_MPIE) >> 7u64;
        mstatus = ((mstatus & !MASK_MIE) | (mpie << 3u64)) | MASK_MPIE;
        mstatus = mstatus & !MASK_MPP;
        if mode != Mode::Machine {
            mstatus = mstatus & !MASK_MPRV;
        }
        let new_pc = self.csr.load(MEPC);
        self.csr.store(MSTATUS, mstatus);
        self.mode = mode;
        Ok(new_pc)
    }

    fn exec_system(&mut self, inst: u64) -> (r: Result<u64, Exception>)
        requires
            old(self).wf(),
        ensures
            final(self).wf(),
            (final(self)@, r) == old(self)@.exec_system(inst),
    {
        let f3 = (inst >> 12u64) & 0x7;
        let f7 = (inst >> 25u64) & 0x7f;
        let r2 = (inst >> 20u64) & 0x1f;
        if f3 == 0 {
            if r2 == 0 && f7 == 0 {
                match self.mode {
                    Mode::User => Err(Exception::EnvironmentCallFromUMode(self.pc)),
                    Mode::Supervisor => Err(Exception::EnvironmentCallFromSMode(self.pc)),
                    Mode::Machine => Err(Exception::EnvironmentCallFromMMode(self.pc)),
                }
            } else if r2 == 1 && f7 == 0 {
                Err(Exception::Breakpoint(self.pc))
            } else if r2 == 2 && f7 == 0x8 {
                self.exec_sret()
            } else if r2 == 2 && f7 == 0x18 {
                self.exec_mret()
            } else if f7 == 0x9 {
                Ok(self.pc.wrapping_add(4))
            } else {
                Err(Exception::IllegalInstruction(inst))
            }
        } else if f3 == 4 {
            Err(Exception::IllegalInstruction(inst))
        } else {
            proof {
                lemma_and_le(inst >> 20u64, 0xfff);
            }
            let addr = ((inst >> 20u64) & 0xfff) as usize;
            let r1 = field_rs1(inst);
            let src = if f3 >= 5 {
                r1 as u64
            } else {
                self.regs[r1]
            };
            let t = self.csr.load(addr);
            let v = if f3 & 3 == 1 {
                src
            } else if f3 & 3 == 2 {
                t | src
            } else {
                t & !src
            };
            self.store_csr(addr, v);
            self.write_rd(inst, t)
        }
    }

    /// Execute `inst`, the instruction at the program counter. Returns the address of the
    /// next instruction, or the exception raised; the caller commits the new program
    /// counter or delivers the exception.
    pub fn execute(&mut self, inst: u64) -> (r: Result<u64, Exception>)
        requires
            old(self).wf(),
        ensures
            final(self).wf(),
            final(self).regs@[0] == 0,
            (final(self)@, r) == old(self)@.execute(inst),
    {
        let op = inst & 0x7f;
        let f3 = (inst >> 12u64) & 0x7;
        let f7 = (inst >> 25u64) & 0x7f;
        let rd = field_rd(inst);
        let a = self.regs[field_rs1(inst)];
        let b = self.regs[field_rs2(inst)];
        let next = self.pc.wrapping_add(4);
        let imm_i = ((inst as i32 as i64) >> 20u64) as u64;
        if op == 0x03 {
            self.exec_load(inst)
        } else if op == 0x0f {
            if f3 == 0 {
                Ok(next)
            } else {
                Err(Exception::IllegalInstruction(inst))
            }
        } else if op == 0x13 {
            match compute_alu_imm(f3, f7, a, imm_i) {
                Some(v) => self.write_rd(inst, v),
                None => Err(Exception::IllegalInstruction(inst)),
            }
        } else if op == 0x17 {
            let imm = (inst & 0xffff_f000) as i32 as i64 as u64;
            self.write_rd(inst, self.pc.wrapping_add(imm))
        } else if op == 0x1b {
            match compute_alu_imm32(f3, f7, a, imm_i) {
                Some(v) => self.write_rd(inst, v),
                None => Err(Exception::IllegalInstruction(inst)),
            }
        } else if op == 0x23 {
            self.exec_store(inst)
        } else if op == 0x2f {
            self.exec_amo(inst)
        } else if op == 0x33 {
            match compute_alu(f3, f7, a, b) {
                Some(v) => self.write_rd(inst, v),
                None => Err(Exception::IllegalInstruction(inst)),
            }
        } else if op == 0x37 {
            self.write_rd(inst, (inst & 0xffff_f000) as i32 as i64 as u64)
        } else if op == 0x3b {
            match compute_alu32(f3, f7, a, b) {
                Some(v) => self.write_rd(inst, v),
                None => Err(Exception::IllegalInstruction(inst)),
            }
        } else if op == 0x63 {
            let imm = ((((inst & 0x8000_0000) as i32 as i64) >> 19u64) as u64) | ((inst & 0x80) << 4u64)
                | ((inst >> 20u64) & 0x7e0) | ((inst >> 7u64) & 0x1e);
            match compute_branch_taken(f3, a, b) {
                Some(true) => Ok(self.pc.wrapping_add(imm)),
                Some(false) => Ok(next),
                None => Err(Exception::IllegalInstruction(inst)),
            }
        } else if op == 0x67 {
            let target = a.wrapping_add(imm_i) & !1u64;
            self.set_reg(rd, next);
            Ok(target)
        } else if op == 0x6f {
            let imm = ((((inst & 0x8000_0000) as i32 as i64) >> 11u64) as u64) | (inst & 0xff000) | ((inst
                >> 9u64) & 0x800) | ((inst >> 20u64) & 0x7fe);
            let target = self.pc.wrapping_add(imm);
            self.set_reg(rd, next);
            Ok(target)
        } else if op == 0x73 {
            self.exec_system(inst)
        } else {
            Err(Exception::IllegalInstruction(inst))
        }
    }
}


/// The all-zero word is an illegal instruction whose trap value is zero, and executing it
/// changes nothing.
pub proof fn lemma_zero_word_is_illegal(m: CpuModel)
    ensures
        m.execute(0) == (m, Err::<u64, Exception>(Exception::IllegalInstruction(0))),
{
    assert(0u64 & 0x7f == 0) by (bit_vector);
}

/// divu by a zero register writes all ones to rd.
pub proof fn lemma_divu_by_zero(m: CpuModel, inst: u64)
    requires
        opcode(inst) == 0x3b,
        funct3(inst) == 5,
        funct7(inst) == 1,
        m.x(rs2(inst)) == 0,
    ensures
        m.execute(inst) == m.write_rd(inst, 0xffff_ffff_ffff_ffff),
{
}

/// remuw by a zero register writes rs1, sign-extended from its low 32 bits, to rd.
pub proof fn lemma_remuw_by_zero(m: CpuModel, inst: u64)
    requires
        opcode(inst) == 0x3b,
        funct3(inst) == 7,
        funct7(inst) == 1,
        m.x(rs2(inst)) == 0,
    ensures
        m.execute(inst) == m.write_rd(inst, m.x(rs1(inst)) as i32 as i64 as u64),
{
    assert(0u64 as u32 == 0) by (bit_vector);
}

/// The 13-bit branch offset as the encoding scatters it: imm[12|10:5|4:1|11] =
/// inst[31|30:25|11:8|7].
pub open spec fn branch_offset_bits(inst: u64) -> u64 {
    (((inst >> 31u64) & 1) << 12u64) | (((inst >> 7u64) & 1) << 11u64) | (((inst >> 25u64) & 0x3f)
        << 5u64) | (((inst >> 8u64) & 0xf) << 1u64)
}

/// Branch immediates are the 13-bit offset sign-extended to 64 bits; in particular the
/// encoding of -4 gives the address four bytes back.
pub proof fn lemma_branch_offset_sign_extends(inst: u64)
    requires
        inst < 0x1_0000_0000,
    ensures
        imm_b(inst) == (if (inst >> 31u64) & 1 == 1 {
            branch_offset_bits(inst) | 0xffff_ffff_ffff_e000
        } else {
            branch_offset_bits(inst)
        }),
        branch_offset_bits(inst) == 0x1ffc ==> imm_b(inst) == 0xffff_ffff_ffff_fffc,
        branch_offset_bits(inst) == 0x1ffc ==> forall|pc: u64|
            pc >= 4 ==> #[trigger] pc.wrapping_add(imm_b(inst)) == pc - 4,
{
    assert(imm_b(inst) == (if (inst >> 31u64) & 1 == 1 {
        branch_offset_bits(inst) | 0xffff_ffff_ffff_e000
    } else {
        branch_offset_bits(inst)
    })) by (bit_vector)
        requires
            inst < 0x1_0000_0000,
    ;
    if branch_offset_bits(inst) == 0x1ffc {
        assert((inst >> 31u64) & 1 == 1) by (bit_vector)
            requires
                branch_offset_bits(inst) == 0x1ffc,
        ;
        assert(0x1ffcu64 | 0xffff_ffff_ffff_e000u64 == 0xffff_ffff_ffff_fffcu64) by (bit_vector);
    }
}

/// jalr clears the least significant bit of its target.
pub proof fn lemma_jalr_target_aligned(m: CpuModel, inst: u64)
    requires
        opcode(inst) == 0x67,
    ensures
        m.execute(inst).1 is Ok,
        m.execute(inst).1->Ok_0 & 1 == 0,
{
    let t = m.x(rs1(inst)).wrapping_add(imm_i(inst));
    assert((t & !1u64) & 1 == 0) by (bit_vector);
}

} // verus!
