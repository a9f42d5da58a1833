//! The mathematical model of the machine.
//!
//! A machine state is a [`CpuView`]: the memory as a sequence of bytes and
//! the register file as a sequence of twelve 16-bit values. Every operation
//! of the engine is specified here as a function on views; the executable
//! code in [`crate::cpu`] is proved to agree with these functions.

use vstd::prelude::*;

use crate::instructions::{
    ADD_REG_REG, JNE_LIT_ADR, MOV_LIT_REG, MOV_MEM_REG, MOV_REG_MEM, MOV_REG_REG, POP, PSH_LIT,
    PSH_REG,
};

verus! {

/// Position of the instruction pointer in the register file.
pub const REG_IP: u8 = 0;

/// Position of the accumulator.
pub const REG_ACC: u8 = 1;

/// Positions of the general-purpose registers `r0`..`r7`.
pub const REG_R0: u8 = 2;

/// Position of `r1`.
pub const REG_R1: u8 = 3;

/// Position of `r2`.
pub const REG_R2: u8 = 4;

/// Position of `r3`.
pub const REG_R3: u8 = 5;

/// Position of `r4`.
pub const REG_R4: u8 = 6;

/// Position of `r5`.
pub const REG_R5: u8 = 7;

/// Position of `r6`.
pub const REG_R6: u8 = 8;

/// Position of `r7`.
pub const REG_R7: u8 = 9;

/// Position of the stack pointer.
pub const REG_SP: u8 = 10;

/// Position of the frame pointer.
pub const REG_FP: u8 = 11;

/// Number of registers in the fixed register file.
pub const REG_COUNT: u8 = 12;

/// Largest memory length the engine accepts: every byte must be addressable
/// by a 16-bit address.
pub const MEM_MAX: usize = 0xFFFF;

/// Why an operation of the engine was refused.
#[derive(Clone, Copy, Debug, PartialEq, Eq, Structural)]
pub enum CpuError {
    /// A register name or index outside the fixed register set.
    UnknownRegister,
    /// A memory or stack access outside the valid address range.
    OutOfBounds,
    /// An opcode byte that matches no operation.
    IllegalOpcode,
}

/// A machine state: the memory image and the twelve register values.
#[verifier::ext_equal]
pub struct CpuView {
    /// The bytes of main memory, indexed by address.
    pub mem: Seq<u8>,
    /// The register values, indexed by register position.
    pub regs: Seq<u16>,
}

/// A well-formed state has exactly [`REG_COUNT`] registers and a memory
/// addressable by 16-bit addresses.
pub open spec fn cpu_wf(s: CpuView) -> bool {
    &&& s.regs.len() == REG_COUNT
    &&& s.mem.len() <= MEM_MAX
}

/// The 16-bit value stored big-endian as the byte pair `(hi, lo)`.
pub open spec fn word16(hi: u8, lo: u8) -> u16 {
    (hi as int * 256 + lo as int) as u16
}

/// The high byte of `v`.
pub open spec fn hi8(v: u16) -> u8 {
    (v as int / 256) as u8
}

/// The low byte of `v`.
pub open spec fn lo8(v: u16) -> u8 {
    (v as int % 256) as u8
}

/// Splitting a 16-bit value into bytes and recomposing them big-endian gives
/// the value back.
pub proof fn lemma_word16_split(v: u16)
    ensures
        word16(hi8(v), lo8(v)) == v,
{
    vstd::arithmetic::div_mod::lemma_fundamental_div_mod(v as int, 256);
}

/// The big-endian 16-bit word at address `a` of `mem`.
pub open spec fn read16(mem: Seq<u8>, a: int) -> u16 {
    word16(mem[a], mem[a + 1])
}

/// `mem` with the value `v` stored big-endian at addresses `a` and `a + 1`.
pub open spec fn write16(mem: Seq<u8>, a: int, v: u16) -> Seq<u8> {
    mem.update(a, hi8(v)).update(a + 1, lo8(v))
}

/// The instruction pointer of `s`.
pub open spec fn ip_of(s: CpuView) -> u16 {
    s.regs[REG_IP as int]
}

/// The accumulator of `s`.
pub open spec fn acc_of(s: CpuView) -> u16 {
    s.regs[REG_ACC as int]
}

/// The stack pointer of `s`.
pub open spec fn sp_of(s: CpuView) -> u16 {
    s.regs[REG_SP as int]
}

/// `s` with register `i` set to `v`.
pub open spec fn with_reg(s: CpuView, i: int, v: u16) -> CpuView {
    CpuView { mem: s.mem, regs: s.regs.update(i, v) }
}

/// `s` with the instruction pointer set to `v`.
pub open spec fn with_ip(s: CpuView, v: u16) -> CpuView {
    with_reg(s, REG_IP as int, v)
}

/// `s` with the 16-bit word `v` stored at memory address `a`.
pub open spec fn with_mem16(s: CpuView, a: int, v: u16) -> CpuView {
    CpuView { mem: write16(s.mem, a, v), regs: s.regs }
}

/// Whether the byte at the instruction pointer exists.
pub open spec fn fetch_ok(s: CpuView) -> bool {
    (ip_of(s) as int) < s.mem.len()
}

/// One single-byte fetch: the successor state and the byte consumed at the
/// old instruction pointer.
pub open spec fn spec_fetch(s: CpuView) -> (CpuView, u8) {
    (with_ip(s, (ip_of(s) + 1) as u16), s.mem[ip_of(s) as int])
}

/// Whether both bytes of a 16-bit fetch at the instruction pointer exist.
pub open spec fn fetch16_ok(s: CpuView) -> bool {
    ip_of(s) as int + 1 < s.mem.len()
}

/// One 16-bit fetch: the successor state and the big-endian word consumed at
/// the old instruction pointer.
pub open spec fn spec_fetch16(s: CpuView) -> (CpuView, u16) {
    (with_ip(s, (ip_of(s) + 2) as u16), read16(s.mem, ip_of(s) as int))
}

/// Whether a push is legal in `s`: the slot at the stack pointer lies in
/// memory and the stack pointer can still move down by two.
pub open spec fn push_ok(s: CpuView) -> bool {
    &&& sp_of(s) as int + 1 < s.mem.len()
    &&& sp_of(s) >= 2
}

/// A push: store `v` at the stack pointer, then move the stack pointer down
/// by two. The stack grows downward from the high end of memory.
pub open spec fn spec_push(s: CpuView, v: u16) -> CpuView {
    with_reg(with_mem16(s, sp_of(s) as int, v), REG_SP as int, (sp_of(s) - 2) as u16)
}

/// Whether a pop is legal in `s`: after moving the stack pointer up by two,
/// both bytes of the slot it points at lie in memory. At the initial top of
/// the stack this fails, since the slot above it lies outside memory.
pub open spec fn pop_ok(s: CpuView) -> bool {
    sp_of(s) as int + 3 < s.mem.len()
}

/// A pop: move the stack pointer up by two, then read the 16-bit word at the
/// new stack pointer. Returns the successor state and the value read.
pub open spec fn spec_pop(s: CpuView) -> (CpuView, u16) {
    let sp2 = (sp_of(s) + 2) as u16;
    (with_reg(s, REG_SP as int, sp2), read16(s.mem, sp2 as int))
}

/// The effect of the operation selected by opcode `op`, started in state `s`.
///
/// `s` is the state just after the opcode byte was fetched: the instruction
/// pointer stands on the operation's first operand byte. Operand bytes are
/// consumed in the listed order, so the instruction pointer moves exactly as
/// far as the operation's operands reach. On an error nothing of the state
/// changes.
pub open spec fn spec_execute(s: CpuView, op: u8) -> Result<CpuView, CpuError> {
    let ip = ip_of(s) as int;
    let len = s.mem.len() as int;
    if op == MOV_LIT_REG {
        // 16-bit literal, then 8-bit destination register index.
        if !(ip + 2 < len) {
            Err(CpuError::OutOfBounds)
        } else if !(s.mem[ip + 2] < REG_COUNT) {
            Err(CpuError::UnknownRegister)
        } else {
            Ok(with_reg(with_ip(s, (ip + 3) as u16), s.mem[ip + 2] as int, read16(s.mem, ip)))
        }
    } else if op == MOV_REG_REG {
        // 8-bit source index, then 8-bit destination index. The source is
        // read just after its index byte was consumed, so a source of `ip`
        // sees the pointer already past that byte.
        if !(ip + 1 < len) {
            Err(CpuError::OutOfBounds)
        } else if !(s.mem[ip] < REG_COUNT && s.mem[ip + 1] < REG_COUNT) {
            Err(CpuError::UnknownRegister)
        } else {
            let v = with_ip(s, (ip + 1) as u16).regs[s.mem[ip] as int];
            Ok(with_reg(with_ip(s, (ip + 2) as u16), s.mem[ip + 1] as int, v))
        }
    } else if op == MOV_REG_MEM {
        // 8-bit source index, then 16-bit destination address. The source is
        // read just after its index byte was consumed.
        if !(ip + 2 < len) {
            Err(CpuError::OutOfBounds)
        } else if !(s.mem[ip] < REG_COUNT) {
            Err(CpuError::UnknownRegister)
        } else {
            let a = read16(s.mem, ip + 1) as int;
            if !(a + 1 < len) {
                Err(CpuError::OutOfBounds)
            } else {
                let v = with_ip(s, (ip + 1) as u16).regs[s.mem[ip] as int];
                Ok(with_mem16(with_ip(s, (ip + 3) as u16), a, v))
            }
        }
    } else if op == MOV_MEM_REG {
        // 16-bit source address, then 8-bit destination index.
        if !(ip + 2 < len) {
            Err(CpuError::OutOfBounds)
        } else if !(s.mem[ip + 2] < REG_COUNT) {
            Err(CpuError::UnknownRegister)
        } else {
            let a = read16(s.mem, ip) as int;
            if !(a + 1 < len) {
                Err(CpuError::OutOfBounds)
            } else {
                Ok(with_reg(with_ip(s, (ip + 3) as u16), s.mem[ip + 2] as int, read16(s.mem, a)))
            }
        }
    } else if op == ADD_REG_REG {
        // Two 8-bit register indices; the sum wraps at 16 bits into `acc`.
        // Each operand register is read just after its index byte was
        // consumed.
        if !(ip + 1 < len) {
            Err(CpuError::OutOfBounds)
        } else if !(s.mem[ip] < REG_COUNT && s.mem[ip + 1] < REG_COUNT) {
            Err(CpuError::UnknownRegister)
        } else {
            let v1 = with_ip(s, (ip + 1) as u16).regs[s.mem[ip] as int];
            let v2 = with_ip(s, (ip + 2) as u16).regs[s.mem[ip + 1] as int];
            let sum = ((v1 + v2) % 0x10000) as u16;
            Ok(with_reg(with_ip(s, (ip + 2) as u16), REG_ACC as int, sum))
        }
    } else if op == JNE_LIT_ADR {
        // 16-bit literal, then 16-bit jump target.
        if !(ip + 3 < len) {
            Err(CpuError::OutOfBounds)
        } else {
            if read16(s.mem, ip) != acc_of(s) {
                Ok(with_ip(s, read16(s.mem, ip + 2)))
            } else {
                Ok(with_ip(s, (ip + 4) as u16))
            }
        }
    } else if op == PSH_LIT {
        // 16-bit literal to push.
        if !(ip + 1 < len) {
            Err(CpuError::OutOfBounds)
        } else {
            let s1 = with_ip(s, (ip + 2) as u16);
            if !push_ok(s1) {
                Err(CpuError::OutOfBounds)
            } else {
                Ok(spec_push(s1, read16(s.mem, ip)))
            }
        }
    } else if op == PSH_REG {
        // 8-bit index of the register to push. The register is read just
        // after its index byte was consumed.
        if !(ip < len) {
            Err(CpuError::OutOfBounds)
        } else if !(s.mem[ip] < REG_COUNT) {
            Err(CpuError::UnknownRegister)
        } else {
            let s1 = with_ip(s, (ip + 1) as u16);
            if !push_ok(s1) {
                Err(CpuError::OutOfBounds)
            } else {
                Ok(spec_push(s1, s1.regs[s.mem[ip] as int]))
            }
        }
    } else if op == POP {
        // 8-bit index of the destination register; the stack pointer moves
        // first, then the destination is written, so popping into `sp` leaves
        // the popped value in `sp`.
        if !(ip < len) {
            Err(CpuError::OutOfBounds)
        } else if !(s.mem[ip] < REG_COUNT) {
            Err(CpuError::UnknownRegister)
        } else {
            let s1 = with_ip(s, (ip + 1) as u16);
            if !pop_ok(s1) {
                Err(CpuError::OutOfBounds)
            } else {
                let popped = spec_pop(s1);
                Ok(with_reg(popped.0, s.mem[ip] as int, popped.1))
            }
        }
    } else {
        Err(CpuError::IllegalOpcode)
    }
}

/// One whole step: fetch the opcode byte at the instruction pointer, then
/// run the operation it selects. On an error nothing of the state changes.
pub open spec fn spec_step(s: CpuView) -> Result<CpuView, CpuError> {
    if !fetch_ok(s) {
        Err(CpuError::OutOfBounds)
    } else {
        let fetched = spec_fetch(s);
        spec_execute(fetched.0, fetched.1)
    }
}

/// What dispatching opcode `op` from state `pre` must yield: on success the
/// state promised by [`spec_execute`], on an error that error and the state
/// unchanged.
pub open spec fn execute_post(pre: CpuView, post: CpuView, op: u8, r: Result<(), CpuError>) -> bool {
    match spec_execute(pre, op) {
        Ok(s2) => r == Ok::<(), CpuError>(()) && post == s2,
        Err(e) => r == Err::<(), CpuError>(e) && post == pre,
    }
}

/// What one whole step from state `pre` must yield: on success the state
/// promised by [`spec_step`], on an error that error and the state
/// unchanged.
pub open spec fn step_post(pre: CpuView, post: CpuView, r: Result<(), CpuError>) -> bool {
    match spec_step(pre) {
        Ok(s2) => r == Ok::<(), CpuError>(()) && post == s2,
        Err(e) => r == Err::<(), CpuError>(e) && post == pre,
    }
}

/// The positions of the register names of the fixed set; `None` for any
/// other name.
pub open spec fn spec_reg_index(name: Seq<char>) -> Option<u8> {
    if name == "ip"@ {
        Some(REG_IP)
    } else if name == "acc"@ {
        Some(REG_ACC)
    } else if name == "r0"@ {
        Some(REG_R0)
    } else if name == "r1"@ {
        Some(REG_R1)
    } else if name == "r2"@ {
        Some(REG_R2)
    } else if name == "r3"@ {
        Some(REG_R3)
    } else if name == "r4"@ {
        Some(REG_R4)
    } else if name == "r5"@ {
        Some(REG_R5)
    } else if name == "r6"@ {
        Some(REG_R6)
    } else if name == "r7"@ {
        Some(REG_R7)
    } else if name == "sp"@ {
        Some(REG_SP)
    } else if name == "fp"@ {
        Some(REG_FP)
    } else {
        None
    }
}

/// The state after pushing every value of `vs`, first element first.
pub open spec fn spec_push_all(s: CpuView, vs: Seq<u16>) -> CpuView
    decreases vs.len(),
{
    if vs.len() == 0 {
        s
    } else {
        spec_push(spec_push_all(s, vs.drop_last()), vs.last())
    }
}

/// The state after `n` pops, and the popped values in the order they came
/// off the stack.
pub open spec fn spec_pop_all(s: CpuView, n: nat) -> (CpuView, Seq<u16>)
    decreases n,
{
    if n == 0 {
        (s, Seq::empty())
    } else {
        let first = spec_pop(s);
        let rest = spec_pop_all(first.0, (n - 1) as nat);
        (rest.0, seq![first.1] + rest.1)
    }
}

} // verus!
