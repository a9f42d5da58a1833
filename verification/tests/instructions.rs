//! Tests of fetching, every operation of the instruction set, and the
//! errors of the dispatcher.

use vcpu16::cpu::Cpu;
use vcpu16::instructions::{
    ADD_REG_REG, JNE_LIT_ADR, MOV_LIT_REG, MOV_MEM_REG, MOV_REG_MEM, MOV_REG_REG, POP, PSH_LIT,
    PSH_REG,
};
use vcpu16::model::CpuError;

/// Pads a program to `len` bytes so that `insert` leaves room for a stack.
fn program(code: &[u8], len: usize) -> Vec<u8> {
    let mut bytes = code.to_vec();
    assert!(bytes.len() <= len);
    bytes.resize(len, 0);
    bytes
}

fn reg(cpu: &Cpu, name: &str) -> u16 {
    cpu.get_register(name.to_string()).unwrap()
}

#[test]
fn fetch_consumes_byte_at_old_pointer() {
    let mut cpu = Cpu::new(2);
    cpu.insert(vec![0x7A, 0x7B]);
    assert_eq!(cpu.fetch().unwrap(), 0x7A);
    assert_eq!(reg(&cpu, "ip"), 1);
    assert_eq!(cpu.fetch().unwrap(), 0x7B);
    assert_eq!(reg(&cpu, "ip"), 2);
}

#[test]
fn fetch_past_end_is_refused_and_moves_nothing() {
    let mut cpu = Cpu::new(2);
    cpu.insert(vec![0x01, 0x02]);
    cpu.fetch().unwrap();
    cpu.fetch().unwrap();
    assert_eq!(cpu.fetch(), Err(CpuError::OutOfBounds));
    assert_eq!(reg(&cpu, "ip"), 2);
}

#[test]
fn fetch16_equals_two_fetches_composed_big_endian() {
    let prog = vec![0xAB, 0xCD, 0, 0];
    let mut one = Cpu::new(1);
    one.insert(prog.clone());
    let mut two = Cpu::new(1);
    two.insert(prog);
    let word = one.fetch_16().unwrap();
    let hi = two.fetch().unwrap();
    let lo = two.fetch().unwrap();
    assert_eq!(word, 0xABCD);
    assert_eq!(word, ((hi as u16) << 8) | (lo as u16));
    assert_eq!(reg(&one, "ip"), 2);
    assert_eq!(reg(&two, "ip"), 2);
}

#[test]
fn mov_lit_reg_loads_literal() {
    let mut cpu = Cpu::new(1);
    cpu.insert(program(&[MOV_LIT_REG, 0xAB, 0xCD, 2], 16));
    cpu.step().unwrap();
    assert_eq!(reg(&cpu, "r0"), 0xABCD);
    assert_eq!(reg(&cpu, "ip"), 4);
}

#[test]
fn mov_reg_reg_copies_value() {
    let mut cpu = Cpu::new(1);
    cpu.insert(program(&[MOV_REG_REG, 5, 6], 16));
    cpu.set_register(&String::from("r3"), 0x1234).unwrap();
    cpu.step().unwrap();
    assert_eq!(reg(&cpu, "r4"), 0x1234);
    assert_eq!(reg(&cpu, "r3"), 0x1234);
    assert_eq!(reg(&cpu, "ip"), 3);
}

#[test]
fn mov_reg_reg_from_ip_sees_pointer_past_source_byte() {
    // The source register is read just after its index byte was consumed:
    // with `ip` as the source, the copied value is the pointer standing on
    // the destination index byte.
    let mut cpu = Cpu::new(1);
    cpu.insert(program(&[MOV_REG_REG, 0, 4], 16));
    cpu.step().unwrap();
    assert_eq!(reg(&cpu, "r2"), 2);
    assert_eq!(reg(&cpu, "ip"), 3);
}

#[test]
fn mov_reg_mem_stores_big_endian() {
    let mut cpu = Cpu::new(1);
    cpu.insert(program(&[MOV_REG_MEM, 2, 0x00, 0x08], 16));
    cpu.set_register(&String::from("r0"), 0xBEEF).unwrap();
    cpu.step().unwrap();
    assert_eq!(cpu.read_mem(0x08).unwrap(), 0xBE);
    assert_eq!(cpu.read_mem(0x09).unwrap(), 0xEF);
    assert_eq!(reg(&cpu, "ip"), 4);
}

#[test]
fn mov_mem_reg_loads_big_endian() {
    let mut bytes = program(&[MOV_MEM_REG, 0x00, 0x08, 3], 16);
    bytes[0x08] = 0xCA;
    bytes[0x09] = 0xFE;
    let mut cpu = Cpu::new(1);
    cpu.insert(bytes);
    cpu.step().unwrap();
    assert_eq!(reg(&cpu, "r1"), 0xCAFE);
    assert_eq!(reg(&cpu, "ip"), 4);
}

#[test]
fn mov_reg_mem_round_trips_through_memory() {
    let mut cpu = Cpu::new(1);
    cpu.insert(program(
        &[MOV_REG_MEM, 2, 0x00, 0x10, MOV_MEM_REG, 0x00, 0x10, 3],
        32,
    ));
    cpu.set_register(&String::from("r0"), 0x55AA).unwrap();
    cpu.step().unwrap();
    cpu.step().unwrap();
    assert_eq!(reg(&cpu, "r1"), 0x55AA);
}

#[test]
fn add_reg_reg_sums_into_accumulator() {
    let mut cpu = Cpu::new(1);
    cpu.insert(program(&[ADD_REG_REG, 2, 3], 16));
    cpu.set_register(&String::from("r0"), 300).unwrap();
    cpu.set_register(&String::from("r1"), 77).unwrap();
    cpu.step().unwrap();
    assert_eq!(reg(&cpu, "acc"), 377);
    assert_eq!(reg(&cpu, "ip"), 3);
}

#[test]
fn add_reg_reg_wraps_at_sixteen_bits() {
    let mut cpu = Cpu::new(1);
    cpu.insert(program(&[ADD_REG_REG, 2, 3], 16));
    cpu.set_register(&String::from("r0"), 0xFFFF).unwrap();
    cpu.set_register(&String::from("r1"), 0x0002).unwrap();
    cpu.step().unwrap();
    assert_eq!(reg(&cpu, "acc"), 0x0001);
}

#[test]
fn jne_jumps_when_literal_differs_from_accumulator() {
    let mut cpu = Cpu::new(1);
    cpu.insert(program(&[JNE_LIT_ADR, 0x00, 0x06, 0x00, 0x0A], 16));
    cpu.set_register(&String::from("acc"), 0x0005).unwrap();
    cpu.step().unwrap();
    assert_eq!(reg(&cpu, "ip"), 0x000A);
}

#[test]
fn jne_falls_through_when_literal_equals_accumulator() {
    let mut cpu = Cpu::new(1);
    cpu.insert(program(&[JNE_LIT_ADR, 0x00, 0x05, 0x00, 0x0A], 16));
    cpu.set_register(&String::from("acc"), 0x0005).unwrap();
    cpu.step().unwrap();
    assert_eq!(reg(&cpu, "ip"), 5);
    assert_eq!(reg(&cpu, "acc"), 0x0005);
}

#[test]
fn psh_lit_stores_at_stack_pointer_and_moves_it_down() {
    let mut cpu = Cpu::new(1);
    cpu.insert(program(&[PSH_LIT, 0x12, 0x34], 16));
    cpu.step().unwrap();
    assert_eq!(cpu.read_mem(14).unwrap(), 0x12);
    assert_eq!(cpu.read_mem(15).unwrap(), 0x34);
    assert_eq!(reg(&cpu, "sp"), 12);
    assert_eq!(reg(&cpu, "ip"), 3);
}

#[test]
fn psh_reg_then_pop_restores_value_and_pointer() {
    let mut cpu = Cpu::new(1);
    cpu.insert(program(&[PSH_REG, 2, POP, 7], 16));
    cpu.set_register(&String::from("r0"), 0xCAFE).unwrap();
    cpu.step().unwrap();
    assert_eq!(reg(&cpu, "sp"), 12);
    cpu.step().unwrap();
    assert_eq!(reg(&cpu, "r5"), 0xCAFE);
    assert_eq!(reg(&cpu, "sp"), 14);
}

#[test]
fn illegal_opcode_is_refused_and_the_step_is_undone() {
    let mut cpu = Cpu::new(1);
    cpu.insert(program(&[0x00, 0x01], 16));
    assert_eq!(cpu.step(), Err(CpuError::IllegalOpcode));
    assert_eq!(reg(&cpu, "ip"), 0);
    assert_eq!(cpu.execute(0xFF), Err(CpuError::IllegalOpcode));
}

#[test]
fn unknown_register_operand_is_refused_and_the_step_is_undone() {
    let mut cpu = Cpu::new(1);
    cpu.insert(program(&[MOV_LIT_REG, 0x00, 0x01, 55], 16));
    assert_eq!(cpu.step(), Err(CpuError::UnknownRegister));
    assert_eq!(reg(&cpu, "ip"), 0);
}

#[test]
fn truncated_operands_are_refused_and_the_step_is_undone() {
    let mut cpu = Cpu::new(1);
    cpu.insert(vec![MOV_LIT_REG, 0x00]);
    assert_eq!(cpu.step(), Err(CpuError::OutOfBounds));
    assert_eq!(reg(&cpu, "ip"), 0);
}

#[test]
fn mov_reg_mem_outside_memory_is_refused() {
    let mut cpu = Cpu::new(1);
    cpu.insert(program(&[MOV_REG_MEM, 2, 0xFF, 0x00], 16));
    assert_eq!(cpu.step(), Err(CpuError::OutOfBounds));
    assert_eq!(reg(&cpu, "ip"), 0);
}

#[test]
fn push_without_room_below_is_refused() {
    let mut cpu = Cpu::new(1);
    cpu.insert(vec![0u8; 16]);
    cpu.set_register(&String::from("sp"), 1).unwrap();
    assert_eq!(cpu.push(0x1111), Err(CpuError::OutOfBounds));
    cpu.set_register(&String::from("sp"), 15).unwrap();
    assert_eq!(cpu.push(0x1111), Err(CpuError::OutOfBounds));
}

#[test]
fn pop_at_initial_top_is_refused() {
    let mut cpu = Cpu::new(1);
    cpu.insert(vec![0u8; 16]);
    assert_eq!(cpu.pop(), Err(CpuError::OutOfBounds));
    assert_eq!(reg(&cpu, "sp"), 14);
}

#[test]
fn next_equals_peeks_without_advancing() {
    let mut cpu = Cpu::new(1);
    cpu.insert(program(&[0xFE, 0x00], 4));
    assert!(cpu.next_equals(0xFE).unwrap());
    assert!(!cpu.next_equals(0x10).unwrap());
    assert_eq!(reg(&cpu, "ip"), 0);
    cpu.set_register(&String::from("ip"), 100).unwrap();
    assert_eq!(cpu.next_equals(0xFE), Err(CpuError::OutOfBounds));
}
