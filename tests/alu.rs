use rvemu::cpu::{Cpu, Mode};
use rvemu::exception::Exception;
use rvemu::param::DRAM_BASE;

fn r_type(f7: u32, rs2: u32, rs1: u32, f3: u32, rd: u32, op: u32) -> u64 {
    ((f7 << 25) | (rs2 << 20) | (rs1 << 15) | (f3 << 12) | (rd << 7) | op) as u64
}

fn i_type(imm: i32, rs1: u32, f3: u32, rd: u32, op: u32) -> u64 {
    ((((imm as u32) & 0xfff) << 20) | (rs1 << 15) | (f3 << 12) | (rd << 7) | op) as u64
}

/// Executes `inst` with x1 = a and x2 = b and returns x3.
fn exec(inst: u64, a: u64, b: u64) -> u64 {
    let mut cpu = Cpu::new(vec![], vec![]);
    cpu.regs[1] = a;
    cpu.regs[2] = b;
    assert_eq!(cpu.execute(inst), Ok(DRAM_BASE + 4));
    cpu.regs[3]
}

#[test]
fn register_register_operations() {
    let op = |f7: u32, f3: u32| r_type(f7, 2, 1, f3, 3, 0x33);
    assert_eq!(exec(op(0, 0), u64::MAX, 2), 1);
    assert_eq!(exec(op(1, 0), 1 << 62, 6), 1 << 63);
    assert_eq!(exec(op(0x20, 0), 1, 2), u64::MAX);
    assert_eq!(exec(op(0, 1), 3, 65), 6);
    assert_eq!(exec(op(0, 2), u64::MAX, 0), 1);
    assert_eq!(exec(op(0, 3), u64::MAX, 0), 0);
    assert_eq!(exec(op(0, 4), 0b1100, 0b1010), 0b0110);
    assert_eq!(exec(op(0, 5), 1 << 63, 63), 1);
    assert_eq!(exec(op(0x20, 5), 1 << 63, 63), u64::MAX);
    assert_eq!(exec(op(0, 6), 0b1100, 0b1010), 0b1110);
    assert_eq!(exec(op(0, 7), 0b1100, 0b1010), 0b1000);
}

#[test]
fn word_operations_sign_extend() {
    let op = |f7: u32, f3: u32| r_type(f7, 2, 1, f3, 3, 0x3b);
    assert_eq!(exec(op(0, 0), 0x7fff_ffff, 1), 0xffff_ffff_8000_0000);
    assert_eq!(exec(op(0x20, 0), 0, 1), u64::MAX);
    assert_eq!(exec(op(0, 1), 1, 31), 0xffff_ffff_8000_0000);
    assert_eq!(exec(op(0, 1), 1, 32), 1);
    assert_eq!(exec(op(0, 5), 0xffff_ffff_8000_0000, 31), 1);
    assert_eq!(exec(op(0x20, 5), 0x8000_0000, 31), u64::MAX);
    assert_eq!(exec(op(1, 5), 100, 7), 14);
}

#[test]
fn immediate_operations() {
    assert_eq!(exec(i_type(-1, 1, 0, 3, 0x13), 5, 0), 4);
    assert_eq!(exec(i_type(-1, 1, 3, 3, 0x13), 5, 0), 1);
    assert_eq!(exec(i_type(-1, 1, 2, 3, 0x13), 5, 0), 0);
    assert_eq!(exec(i_type(0x0ff, 1, 4, 3, 0x13), 0xf0f, 0), 0xff0);
    assert_eq!(exec(i_type(0x0f0, 1, 6, 3, 0x13), 0x00f, 0), 0x0ff);
    assert_eq!(exec(i_type(0x0f0, 1, 7, 3, 0x13), 0x0ff, 0), 0x0f0);
    assert_eq!(exec(i_type(63, 1, 1, 3, 0x13), 1, 0), 1 << 63);
    assert_eq!(exec(i_type(4, 1, 5, 3, 0x13), 0x100, 0), 0x10);
    assert_eq!(exec(i_type(0x400 | 4, 1, 5, 3, 0x13), 1 << 63, 0), 0xf800_0000_0000_0000);
    assert_eq!(exec(i_type(1, 1, 0, 3, 0x1b), 0x7fff_ffff, 0), 0xffff_ffff_8000_0000);
    assert_eq!(exec(i_type(31, 1, 1, 3, 0x1b), 1, 0), 0xffff_ffff_8000_0000);
    assert_eq!(exec(i_type(4, 1, 5, 3, 0x1b), 0xffff_ffff_8000_0000, 0), 0x0800_0000);
    assert_eq!(exec(i_type(0x400 | 4, 1, 5, 3, 0x1b), 0x8000_0000, 0), 0xffff_ffff_f800_0000);
}

#[test]
fn stores_of_each_width() {
    let mut cpu = Cpu::new(vec![], vec![]);
    let a = DRAM_BASE + 0x800;
    cpu.regs[1] = a;
    cpu.regs[2] = 0x1122_3344_5566_7788;
    for (f3, expect) in [(0u32, 0x88u64), (1, 0x7788), (2, 0x5566_7788), (3, 0x1122_3344_5566_7788)] {
        cpu.store(a, 64, 0).unwrap();
        let inst = ((2 << 20) | (1 << 15) | (f3 << 12) | 0x23) as u64;
        assert_eq!(cpu.execute(inst), Ok(DRAM_BASE + 4));
        assert_eq!(cpu.load(a, 64), Ok(expect));
    }
    let bad = ((2 << 20) | (1 << 15) | (4 << 12) | 0x23) as u64;
    assert_eq!(cpu.execute(bad), Err(Exception::IllegalInstruction(bad)));
}

#[test]
fn memory_faults_surface_from_execute() {
    let mut cpu = Cpu::new(vec![], vec![]);
    cpu.regs[1] = 0x10;
    let lw = i_type(0, 1, 2, 3, 0x03);
    assert_eq!(cpu.execute(lw), Err(Exception::LoadAccessFault(0x10)));
    let sw = ((2 << 20) | (1 << 15) | (2 << 12) | 0x23) as u64;
    assert_eq!(cpu.execute(sw), Err(Exception::StoreAMOAccessFault(0x10)));
}

#[test]
fn system_instructions() {
    let mut cpu = Cpu::new(vec![], vec![]);
    assert_eq!(cpu.execute(0x0010_0073), Err(Exception::Breakpoint(DRAM_BASE)));
    assert_eq!(cpu.execute(0x0000_0073), Err(Exception::EnvironmentCallFromMMode(DRAM_BASE)));
    cpu.mode = Mode::Supervisor;
    assert_eq!(cpu.execute(0x0000_0073), Err(Exception::EnvironmentCallFromSMode(DRAM_BASE)));
    assert_eq!(cpu.execute(0x1200_0073), Ok(DRAM_BASE + 4));
    assert_eq!(cpu.execute(0x0000_000f), Ok(DRAM_BASE + 4));
    assert_eq!(cpu.execute(0x0000_100f), Err(Exception::IllegalInstruction(0x100f)));
    assert_eq!(cpu.execute(0x0000_4073), Err(Exception::IllegalInstruction(0x4073)));
    assert_eq!(cpu.execute(0x0000_007f), Err(Exception::IllegalInstruction(0x7f)));
}
