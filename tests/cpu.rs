use rvemu::cpu::Cpu;
use rvemu::exception::Exception;
use rvemu::param::{DRAM_BASE, DRAM_END};

const ABI: [&str; 32] = [
    "zero", "ra", "sp", "gp", "tp", "t0", "t1", "t2", "s0", "s1", "a0", "a1", "a2", "a3", "a4",
    "a5", "a6", "a7", "s2", "s3", "s4", "s5", "s6", "s7", "s8", "s9", "s10", "s11", "t3", "t4",
    "t5", "t6",
];

fn x(name: &str) -> u32 {
    if let Some(i) = ABI.iter().position(|n| *n == name) {
        return i as u32;
    }
    if name == "fp" {
        return 8;
    }
    name[1..].parse::<u32>().unwrap()
}

fn enc_r(f7: u32, rs2: &str, rs1: &str, f3: u32, rd: &str, op: u32) -> u32 {
    (f7 << 25) | (x(rs2) << 20) | (x(rs1) << 15) | (f3 << 12) | (x(rd) << 7) | op
}

fn enc_i(imm: i32, rs1: &str, f3: u32, rd: &str, op: u32) -> u32 {
    (((imm as u32) & 0xfff) << 20) | (x(rs1) << 15) | (f3 << 12) | (x(rd) << 7) | op
}

fn enc_s(imm: i32, rs2: &str, rs1: &str, f3: u32) -> u32 {
    let imm = imm as u32;
    (((imm >> 5) & 0x7f) << 25) | (x(rs2) << 20) | (x(rs1) << 15) | (f3 << 12) | ((imm & 0x1f) << 7)
        | 0x23
}

fn enc_b(imm: i32, rs2: &str, rs1: &str, f3: u32) -> u32 {
    let imm = imm as u32;
    (((imm >> 12) & 1) << 31) | (((imm >> 5) & 0x3f) << 25) | (x(rs2) << 20) | (x(rs1) << 15)
        | (f3 << 12) | (((imm >> 1) & 0xf) << 8) | (((imm >> 11) & 1) << 7) | 0x63
}

fn enc_csr(f3: u32, rd: &str, csr: u32, src: u32) -> u32 {
    (csr << 20) | (src << 15) | (f3 << 12) | (x(rd) << 7) | 0x73
}

fn addi(rd: &str, rs1: &str, imm: i32) -> u32 {
    enc_i(imm, rs1, 0, rd, 0x13)
}

fn lui(rd: &str, imm: u32) -> u32 {
    (imm << 12) | (x(rd) << 7) | 0x37
}

fn auipc(rd: &str, imm: u32) -> u32 {
    (imm << 12) | (x(rd) << 7) | 0x17
}

fn jal(rd: &str, imm: i32) -> u32 {
    let imm = imm as u32;
    (((imm >> 20) & 1) << 31) | (((imm >> 1) & 0x3ff) << 21) | (((imm >> 11) & 1) << 20)
        | (((imm >> 12) & 0xff) << 12) | (x(rd) << 7) | 0x6f
}

fn jalr(rd: &str, rs1: &str, imm: i32) -> u32 {
    enc_i(imm, rs1, 0, rd, 0x67)
}

const MSTATUS: u32 = 0x300;
const MTVEC: u32 = 0x305;
const MEPC: u32 = 0x341;
const SSTATUS: u32 = 0x100;
const STVEC: u32 = 0x105;
const SEPC: u32 = 0x141;

/// Loads the program at the start of memory and runs up to `n_clock` instructions,
/// committing the next program counter after each one and stopping when a fetch fails.
fn run(code: &[u32], n_clock: usize) -> Cpu {
    let mut bytes = Vec::new();
    for w in code {
        bytes.extend_from_slice(&w.to_le_bytes());
    }
    let mut cpu = Cpu::new(bytes, vec![]);
    for _i in 0..n_clock {
        let inst = match cpu.fetch() {
            Ok(inst) => inst,
            Err(_err) => break,
        };
        match cpu.execute(inst) {
            Ok(new_pc) => cpu.pc = new_pc,
            Err(err) => println!("{:?}", err),
        };
    }
    cpu
}

#[test]
fn cpu_test_sp() {
    let cpu = run(&[addi("sp", "sp", -16), enc_s(8, "ra", "sp", 3)], 2);
    assert_eq!(cpu.regs[2], DRAM_END - 16);
}

#[test]
fn cpu_test_addi() {
    let cpu = run(&[addi("x31", "x0", 42)], 1);
    assert_eq!(cpu.reg("x31"), 42);
}

#[test]
fn cpu_test_simple() {
    let code = [
        addi("sp", "sp", -16),
        enc_s(8, "s0", "sp", 3),
        addi("s0", "sp", 16),
        addi("a5", "zero", 42),
        addi("a0", "a5", 0),
        enc_i(8, "sp", 3, "s0", 0x03),
        addi("sp", "sp", 16),
        jalr("zero", "ra", 0),
    ];
    let cpu = run(&code, 20);
    assert_eq!(cpu.reg("a0"), 42);
}

#[test]
fn cpu_test_lui() {
    let cpu = run(&[lui("a0", 42)], 1);
    assert_eq!(cpu.reg("a0"), 42 << 12);
}

#[test]
fn cpu_test_auipc() {
    let cpu = run(&[auipc("a0", 42)], 1);
    assert_eq!(cpu.reg("a0"), DRAM_BASE + (42 << 12));
}

#[test]
fn cpu_test_jal() {
    let cpu = run(&[jal("a0", 42)], 1);
    assert_eq!(cpu.reg("a0"), DRAM_BASE + 4);
    assert_eq!(cpu.reg("pc"), DRAM_BASE + 42);
}

#[test]
fn cpu_test_jalr() {
    let cpu = run(&[addi("a1", "zero", 42), jalr("a0", "a1", -8)], 2);
    assert_eq!(cpu.reg("a0"), DRAM_BASE + 8);
    assert_eq!(cpu.reg("pc"), 34);
}

#[test]
fn cpu_test_beq() {
    let cpu = run(&[enc_b(42, "x0", "x0", 0)], 3);
    assert_eq!(cpu.reg("pc"), DRAM_BASE + 42);
}

#[test]
fn cpu_test_bne() {
    let cpu = run(&[addi("x1", "x0", 10), enc_b(42, "x1", "x0", 1)], 5);
    assert_eq!(cpu.reg("pc"), DRAM_BASE + 42 + 4);
}

#[test]
fn cpu_test_blt() {
    let code = [addi("x1", "x0", 10), addi("x2", "x0", 20), enc_b(42, "x2", "x1", 4)];
    let cpu = run(&code, 10);
    assert_eq!(cpu.reg("pc"), DRAM_BASE + 42 + 8);
}

#[test]
fn cpu_test_bge() {
    let code = [addi("x1", "x0", 10), addi("x2", "x0", 20), enc_b(42, "x1", "x2", 5)];
    let cpu = run(&code, 10);
    assert_eq!(cpu.reg("pc"), DRAM_BASE + 42 + 8);
}

#[test]
fn cpu_test_bltu() {
    let code = [addi("x1", "x0", 10), addi("x2", "x0", 20), enc_b(42, "x2", "x1", 6)];
    let cpu = run(&code, 10);
    assert_eq!(cpu.reg("pc"), DRAM_BASE + 42 + 8);
}

#[test]
fn cpu_test_bgeu() {
    let code = [addi("x1", "x0", 10), addi("x2", "x0", 20), enc_b(42, "x1", "x2", 7)];
    let cpu = run(&code, 10);
    assert_eq!(cpu.reg("pc"), DRAM_BASE + 42 + 8);
}

#[test]
fn cpu_test_store_load1() {
    let code = [
        addi("s0", "zero", 256),
        addi("sp", "sp", -16),
        enc_s(8, "s0", "sp", 3),
        enc_i(8, "sp", 0, "t1", 0x03),
        enc_i(8, "sp", 1, "t2", 0x03),
    ];
    let cpu = run(&code, 10);
    assert_eq!(cpu.reg("t1"), 0);
    assert_eq!(cpu.reg("t2"), 256);
}

#[test]
fn cpu_test_slt() {
    let code = [
        addi("t0", "zero", 14),
        addi("t1", "zero", 24),
        enc_r(0, "t1", "t0", 2, "t2", 0x33),
        enc_i(42, "t0", 2, "t3", 0x13),
        enc_i(84, "t0", 3, "t4", 0x13),
    ];
    let cpu = run(&code, 7);
    assert_eq!(cpu.reg("t2"), 1);
    assert_eq!(cpu.reg("t3"), 1);
    assert_eq!(cpu.reg("t4"), 1);
}

#[test]
fn cpu_test_xor() {
    let code = [
        addi("a0", "zero", 0b10),
        enc_i(0b01, "a0", 4, "a1", 0x13),
        enc_r(0, "a1", "a1", 4, "a2", 0x33),
    ];
    let cpu = run(&code, 5);
    assert_eq!(cpu.reg("a1"), 3);
    assert_eq!(cpu.reg("a2"), 0);
}

#[test]
fn cpu_test_or() {
    let code = [
        addi("a0", "zero", 0b10),
        enc_i(0b01, "a0", 6, "a1", 0x13),
        enc_r(0, "a0", "a0", 6, "a2", 0x33),
    ];
    let cpu = run(&code, 3);
    assert_eq!(cpu.reg("a1"), 0b11);
    assert_eq!(cpu.reg("a2"), 0b10);
}

#[test]
fn cpu_test_and() {
    let code = [
        addi("a0", "zero", 0b10),
        enc_i(0b11, "a0", 7, "a1", 0x13),
        enc_r(0, "a1", "a0", 7, "a2", 0x33),
    ];
    let cpu = run(&code, 3);
    assert_eq!(cpu.reg("a1"), 0b10);
    assert_eq!(cpu.reg("a2"), 0b10);
}

#[test]
fn cpu_test_sll() {
    let code = [
        addi("a0", "zero", 1),
        addi("a1", "zero", 5),
        enc_r(0, "a1", "a0", 1, "a2", 0x33),
        enc_i(5, "a0", 1, "a3", 0x13),
        addi("s0", "zero", 64),
        enc_r(0, "s0", "a0", 1, "a4", 0x33),
    ];
    let cpu = run(&code, 10);
    assert_eq!(cpu.reg("a2"), 1 << 5);
    assert_eq!(cpu.reg("a3"), 1 << 5);
    assert_eq!(cpu.reg("a4"), 1);
}

#[test]
fn cpu_test_sra_srl() {
    let code = [
        addi("a0", "zero", -8),
        addi("a1", "zero", 1),
        enc_r(0x20, "a1", "a0", 5, "a2", 0x33),
        enc_i(0x400 | 2, "a0", 5, "a3", 0x13),
        enc_i(2, "a0", 5, "a4", 0x13),
        enc_r(0, "a1", "a0", 5, "a5", 0x33),
    ];
    let cpu = run(&code, 10);
    assert_eq!(cpu.reg("a2"), -4 as i64 as u64);
    assert_eq!(cpu.reg("a3"), -2 as i64 as u64);
    assert_eq!(cpu.reg("a4"), -8 as i64 as u64 >> 2);
    assert_eq!(cpu.reg("a5"), -8 as i64 as u64 >> 1);
}

#[test]
fn cpu_test_word_op() {
    let code = [addi("a0", "zero", 42), lui("a1", 0x7f000), enc_r(0, "a1", "a0", 0, "a2", 0x3b)];
    let cpu = run(&code, 29);
    assert_eq!(cpu.reg("a2"), 0x7f00002a);
}

#[test]
fn cpu_test_csrs1() {
    let code = [
        addi("t0", "zero", 1),
        addi("t1", "zero", 2),
        addi("t2", "zero", 3),
        enc_csr(1, "zero", MSTATUS, x("t0")),
        enc_csr(2, "zero", MTVEC, x("t1")),
        enc_csr(1, "zero", MEPC, x("t2")),
        enc_csr(3, "t2", MEPC, x("zero")),
        enc_csr(5, "zero", SSTATUS, 4),
        enc_csr(6, "zero", STVEC, 5),
        enc_csr(5, "zero", SEPC, 6),
        enc_csr(7, "zero", SEPC, 0),
    ];
    let cpu = run(&code, 20);
    assert_eq!(cpu.reg("mstatus"), 1);
    assert_eq!(cpu.reg("mtvec"), 2);
    assert_eq!(cpu.reg("mepc"), 3);
    assert_eq!(cpu.reg("sstatus"), 0);
    assert_eq!(cpu.reg("stvec"), 5);
    assert_eq!(cpu.reg("sepc"), 6);
}

/// Runs like `run`, and checks after every instruction that x0 still reads as zero.
fn run_checked(code: &[u32], n_clock: usize) -> Cpu {
    let mut bytes = Vec::new();
    for w in code {
        bytes.extend_from_slice(&w.to_le_bytes());
    }
    let mut cpu = Cpu::new(bytes, vec![]);
    for _i in 0..n_clock {
        let inst = match cpu.fetch() {
            Ok(inst) => inst,
            Err(_err) => break,
        };
        match cpu.execute(inst) {
            Ok(new_pc) => cpu.pc = new_pc,
            Err(err) => println!("{:?}", err),
        };
        assert_eq!(cpu.reg("zero"), 0);
    }
    cpu
}

#[test]
fn test_sp() {
    let cpu = run_checked(&[addi("sp", "sp", -16), enc_s(8, "ra", "sp", 3)], 2);
    assert_eq!(cpu.regs[2], DRAM_END - 16);
}

#[test]
fn test_addi() {
    let cpu = run_checked(&[addi("x31", "x0", 42)], 1);
    assert_eq!(cpu.reg("x31"), 42);
}

#[test]
fn test_simple() {
    let code = [
        addi("sp", "sp", -16),
        enc_s(8, "s0", "sp", 3),
        addi("s0", "sp", 16),
        addi("a5", "zero", 42),
        addi("a0", "a5", 0),
        enc_i(8, "sp", 3, "s0", 0x03),
        addi("sp", "sp", 16),
        jalr("zero", "ra", 0),
    ];
    let cpu = run_checked(&code, 20);
    assert_eq!(cpu.reg("a0"), 42);
}

#[test]
fn test_lui() {
    let cpu = run_checked(&[lui("a0", 42)], 1);
    assert_eq!(cpu.reg("a0"), 42 << 12);
}

#[test]
fn test_auipc() {
    let cpu = run_checked(&[auipc("a0", 42)], 1);
    assert_eq!(cpu.reg("a0"), DRAM_BASE + (42 << 12));
}

#[test]
fn test_jal() {
    let cpu = run_checked(&[jal("a0", 42)], 1);
    assert_eq!(cpu.reg("a0"), DRAM_BASE + 4);
    assert_eq!(cpu.reg("pc"), DRAM_BASE + 42);
}

#[test]
fn test_jalr() {
    let cpu = run_checked(&[addi("a1", "zero", 42), jalr("a0", "a1", -8)], 2);
    assert_eq!(cpu.reg("a0"), DRAM_BASE + 8);
    assert_eq!(cpu.reg("pc"), 34);
}

#[test]
fn test_beq() {
    let cpu = run_checked(&[enc_b(42, "x0", "x0", 0)], 3);
    assert_eq!(cpu.reg("pc"), DRAM_BASE + 42);
}

#[test]
fn test_bne() {
    let cpu = run_checked(&[addi("x1", "x0", 10), enc_b(42, "x1", "x0", 1)], 5);
    assert_eq!(cpu.reg("pc"), DRAM_BASE + 42 + 4);
}

#[test]
fn test_blt() {
    let code = [addi("x1", "x0", 10), addi("x2", "x0", 20), enc_b(42, "x2", "x1", 4)];
    let cpu = run_checked(&code, 10);
    assert_eq!(cpu.reg("pc"), DRAM_BASE + 42 + 8);
}

#[test]
fn test_bge() {
    let code = [addi("x1", "x0", 10), addi("x2", "x0", 20), enc_b(42, "x1", "x2", 5)];
    let cpu = run_checked(&code, 10);
    assert_eq!(cpu.reg("pc"), DRAM_BASE + 42 + 8);
}

#[test]
fn test_bltu() {
    let code = [addi("x1", "x0", 10), addi("x2", "x0", 20), enc_b(42, "x2", "x1", 6)];
    let cpu = run_checked(&code, 10);
    assert_eq!(cpu.reg("pc"), DRAM_BASE + 42 + 8);
}

#[test]
fn test_bgeu() {
    let code = [addi("x1", "x0", 10), addi("x2", "x0", 20), enc_b(42, "x1", "x2", 7)];
    let cpu = run_checked(&code, 10);
    assert_eq!(cpu.reg("pc"), DRAM_BASE + 42 + 8);
}

#[test]
fn test_store_load1() {
    let code = [
        addi("s0", "zero", 256),
        addi("sp", "sp", -16),
        enc_s(8, "s0", "sp", 3),
        enc_i(8, "sp", 0, "t1", 0x03),
        enc_i(8, "sp", 1, "t2", 0x03),
    ];
    let cpu = run_checked(&code, 10);
    assert_eq!(cpu.reg("t1"), 0);
    assert_eq!(cpu.reg("t2"), 256);
}

#[test]
fn test_slt() {
    let code = [
        addi("t0", "zero", 14),
        addi("t1", "zero", 24),
        enc_r(0, "t1", "t0", 2, "t2", 0x33),
        enc_i(42, "t0", 2, "t3", 0x13),
        enc_i(84, "t0", 3, "t4", 0x13),
    ];
    let cpu = run_checked(&code, 7);
    assert_eq!(cpu.reg("t2"), 1);
    assert_eq!(cpu.reg("t3"), 1);
    assert_eq!(cpu.reg("t4"), 1);
}

#[test]
fn test_xor() {
    let code = [
        addi("a0", "zero", 0b10),
        enc_i(0b01, "a0", 4, "a1", 0x13),
        enc_r(0, "a1", "a1", 4, "a2", 0x33),
    ];
    let cpu = run_checked(&code, 5);
    assert_eq!(cpu.reg("a1"), 3);
    assert_eq!(cpu.reg("a2"), 0);
}

#[test]
fn test_or() {
    let code = [
        addi("a0", "zero", 0b10),
        enc_i(0b01, "a0", 6, "a1", 0x13),
        enc_r(0, "a0", "a0", 6, "a2", 0x33),
    ];
    let cpu = run_checked(&code, 3);
    assert_eq!(cpu.reg("a1"), 0b11);
    assert_eq!(cpu.reg("a2"), 0b10);
}

#[test]
fn test_and() {
    let code = [
        addi("a0", "zero", 0b10),
        enc_i(0b11, "a0", 7, "a1", 0x13),
        enc_r(0, "a1", "a0", 7, "a2", 0x33),
    ];
    let cpu = run_checked(&code, 3);
    assert_eq!(cpu.reg("a1"), 0b10);
    assert_eq!(cpu.reg("a2"), 0b10);
}

#[test]
fn test_sll() {
    let code = [
        addi("a0", "zero", 1),
        addi("a1", "zero", 5),
        enc_r(0, "a1", "a0", 1, "a2", 0x33),
        enc_i(5, "a0", 1, "a3", 0x13),
        addi("s0", "zero", 64),
        enc_r(0, "s0", "a0", 1, "a4", 0x33),
    ];
    let cpu = run_checked(&code, 10);
    assert_eq!(cpu.reg("a2"), 1 << 5);
    assert_eq!(cpu.reg("a3"), 1 << 5);
    assert_eq!(cpu.reg("a4"), 1);
}

#[test]
fn test_sra_srl() {
    let code = [
        addi("a0", "zero", -8),
        addi("a1", "zero", 1),
        enc_r(0x20, "a1", "a0", 5, "a2", 0x33),
        enc_i(0x400 | 2, "a0", 5, "a3", 0x13),
        enc_i(2, "a0", 5, "a4", 0x13),
        enc_r(0, "a1", "a0", 5, "a5", 0x33),
    ];
    let cpu = run_checked(&code, 10);
    assert_eq!(cpu.reg("a2"), -4 as i64 as u64);
    assert_eq!(cpu.reg("a3"), -2 as i64 as u64);
    assert_eq!(cpu.reg("a4"), -8 as i64 as u64 >> 2);
    assert_eq!(cpu.reg("a5"), -8 as i64 as u64 >> 1);
}

#[test]
fn test_word_op() {
    let code = [addi("a0", "zero", 42), lui("a1", 0x7f000), enc_r(0, "a1", "a0", 0, "a2", 0x3b)];
    let cpu = run_checked(&code, 29);
    assert_eq!(cpu.reg("a2"), 0x7f00002a);
}

#[test]
fn test_csrs1() {
    let code = [
        addi("t0", "zero", 1),
        addi("t1", "zero", 2),
        addi("t2", "zero", 3),
        enc_csr(1, "zero", MSTATUS, x("t0")),
        enc_csr(2, "zero", MTVEC, x("t1")),
        enc_csr(1, "zero", MEPC, x("t2")),
        enc_csr(3, "t2", MEPC, x("zero")),
        enc_csr(5, "zero", SSTATUS, 4),
        enc_csr(6, "zero", STVEC, 5),
        enc_csr(5, "zero", SEPC, 6),
        enc_csr(7, "zero", SEPC, 0),
    ];
    let cpu = run_checked(&code, 20);
    assert_eq!(cpu.reg("mstatus"), 1);
    assert_eq!(cpu.reg("mtvec"), 2);
    assert_eq!(cpu.reg("mepc"), 3);
    assert_eq!(cpu.reg("sstatus"), 0);
    assert_eq!(cpu.reg("stvec"), 5);
    assert_eq!(cpu.reg("sepc"), 6);
}

#[test]
fn test_code() {
    let e = Exception::IllegalInstruction(0x0);
    assert_eq!(e.value(), 0);
    assert_eq!(e.code(), 2);
    assert!(e.is_fatal());
}

#[test]
fn exception_test_code() {
    let e = Exception::IllegalInstruction(0x0);
    assert_eq!(e.value(), 0);
    assert_eq!(e.code(), 2);
}
