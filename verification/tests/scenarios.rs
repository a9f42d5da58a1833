//! Longer scenarios: the stack law on a concrete run, and an end-to-end
//! counting loop driven the way an external driver runs the engine.

use vcpu16::cpu::Cpu;
use vcpu16::instructions::{ADD_REG_REG, JNE_LIT_ADR, MOV_LIT_REG, MOV_MEM_REG, MOV_REG_MEM};

fn reg(cpu: &Cpu, name: &str) -> u16 {
    cpu.get_register(name.to_string()).unwrap()
}

#[test]
fn pushes_then_pops_return_values_in_reverse_order() {
    let mut cpu = Cpu::new(1);
    cpu.insert(vec![0u8; 64]);
    let sp_before = reg(&cpu, "sp");
    let values = [1u16, 2, 0xFFFF, 0x1234, 0];
    for v in values.iter() {
        cpu.push(*v).unwrap();
    }
    assert_eq!(reg(&cpu, "sp"), sp_before - 2 * values.len() as u16);
    let mut popped = Vec::new();
    for _ in 0..values.len() {
        popped.push(cpu.pop().unwrap());
    }
    assert_eq!(popped, vec![0, 0x1234, 0xFFFF, 2, 1]);
    assert_eq!(reg(&cpu, "sp"), sp_before);
}

#[test]
fn counting_loop_runs_until_sentinel() {
    // The loop body: load the counter word at 0x0100, add a literal 1 held
    // in a register, store the sum back, and jump to the start unless the
    // accumulator reached 3. A sentinel byte follows the jump; the driver
    // halts on it, as halting is the driver's policy, not the engine's.
    let mut prog = vec![0u8; 0x120];
    let code = [
        MOV_MEM_REG,
        0x01,
        0x00,
        3, // counter word into r1
        MOV_LIT_REG,
        0x00,
        0x01,
        4, // literal 1 into r2
        ADD_REG_REG,
        3,
        4, // acc = r1 + r2
        MOV_REG_MEM,
        1,
        0x01,
        0x00, // store acc at 0x0100
        JNE_LIT_ADR,
        0x00,
        0x03,
        0x00,
        0x00, // back to start unless acc == 3
        0xFE, // sentinel: the driver stops here
    ];
    prog[..code.len()].copy_from_slice(&code);
    let mut cpu = Cpu::new(1);
    cpu.insert(prog);

    let mut steps = 0u32;
    while !cpu.next_equals(0xFE).unwrap() {
        cpu.step().unwrap();
        steps += 1;
        assert!(steps < 1_000, "the loop failed to halt");
    }
    // Three iterations of five instructions each, and the counter word at
    // 0x0100 holds the number of completed iterations.
    assert_eq!(steps, 15);
    assert_eq!(cpu.read_mem(0x0100).unwrap(), 0x00);
    assert_eq!(cpu.read_mem(0x0101).unwrap(), 0x03);
    assert_eq!(reg(&cpu, "acc"), 3);
    assert_eq!(reg(&cpu, "ip"), 20);
}
