//! The execution engine: registers, memory, fetch, decode and dispatch.
//!
//! Every method is specified against the machine model in [`crate::model`]
//! and proved. The engine never panics: each operation either meets its
//! contract or reports a [`CpuError`] and leaves the state unchanged.

use vstd::prelude::*;

use crate::instructions::{
    ADD_REG_REG, JNE_LIT_ADR, MOV_LIT_REG, MOV_MEM_REG, MOV_REG_MEM, MOV_REG_REG, POP, PSH_LIT,
    PSH_REG,
};
use crate::memory::create_memory;
use crate::model::{
    cpu_wf, execute_post, fetch16_ok, fetch_ok, ip_of, lemma_word16_split, pop_ok, push_ok,
    read16, spec_fetch, spec_fetch16, spec_pop, spec_push, spec_reg_index, step_post, with_ip,
    with_mem16, with_reg, word16, write16, CpuError, CpuView, MEM_MAX, REG_ACC, REG_COUNT,
    REG_FP, REG_IP, REG_R0, REG_R1, REG_R2, REG_R3, REG_R4, REG_R5, REG_R6, REG_R7, REG_SP,
};
use vstd::string::StringExecFns;

verus! {

/// The virtual CPU: a byte-addressable memory and twelve 16-bit registers
/// stored big-endian in a small byte buffer of their own.
pub struct Cpu {
    memory: Vec<u8>,
    registers: Vec<u8>,
}

impl View for Cpu {
    type V = CpuView;

    closed spec fn view(&self) -> CpuView {
        CpuView {
            mem: self.memory@,
            regs: Seq::new(
                REG_COUNT as nat,
                |i: int| word16(self.registers@[2 * i], self.registers@[2 * i + 1]),
            ),
        }
    }
}

impl Cpu {
    /// The representation invariant: one byte pair per register, and a
    /// memory addressable by 16-bit addresses.
    pub closed spec fn wf(self) -> bool {
        &&& self.registers@.len() == 2 * REG_COUNT
        &&& self.memory@.len() <= MEM_MAX
    }

    /// A well-formed engine always presents a well-formed machine state.
    pub proof fn lemma_wf_view(&self)
        requires
            self.wf(),
        ensures
            cpu_wf(self@),
    {
    }

    /// A fresh engine: `size` bytes of zeroed memory and all registers zero.
    pub fn new(size: u16) -> (r: Cpu)
        ensures
            r.wf(),
            r@.mem.len() == size,
            forall|a: int| 0 <= a < size ==> r@.mem[a] == 0u8,
            forall|i: int| 0 <= i < REG_COUNT ==> r@.regs[i] == 0u16,
    {
        let cpu = Cpu {
            memory: create_memory(size),
            registers: create_memory(2 * REG_COUNT as u16),
        };
        proof {
            assert forall|i: int| 0 <= i < REG_COUNT implies cpu@.regs[i] == 0u16 by {
                assert(cpu@.regs[i] == word16(0u8, 0u8));
            }
        }
        cpu
    }

    /// Reads register `i` of the fixed set.
    fn read_reg(&self, i: u8) -> (r: u16)
        requires
            self.wf(),
            i < REG_COUNT,
        ensures
            r == self@.regs[i as int],
    {
        let hi = self.registers[2 * i as usize];
        let lo = self.registers[2 * i as usize + 1];
        let r = (hi as u16) * 256 + (lo as u16);
        proof {
            assert(self@.regs[i as int] == word16(hi, lo));
        }
        r
    }

    /// Writes register `i` of the fixed set; no other register and no byte
    /// of main memory changes.
    fn write_reg(&mut self, i: u8, v: u16)
        requires
            old(self).wf(),
            i < REG_COUNT,
        ensures
            final(self).wf(),
            final(self)@.regs == old(self)@.regs.update(i as int, v),
            final(self)@.mem == old(self)@.mem,
    {
        let hi: u8 = (v / 256) as u8;
        let lo: u8 = (v % 256) as u8;
        self.registers[2 * i as usize] = hi;
        self.registers[2 * i as usize + 1] = lo;
        proof {
            lemma_word16_split(v);
            assert forall|j: int| 0 <= j < REG_COUNT implies final(self)@.regs[j] == old(self)@.regs.update(i as int, v)[j] by {
                if j == i as int {
                    assert(final(self)@.regs[j] == word16(hi, lo));
                } else {
                    assert(final(self)@.regs[j] == word16(
                        old(self).registers@[2 * j],
                        old(self).registers@[2 * j + 1],
                    ));
                }
            }
            assert(final(self)@.regs =~= old(self)@.regs.update(i as int, v));
        }
    }

    /// The position of a register name in the fixed set; `None` for any
    /// other name.
    fn reg_index_of(name: &String) -> (r: Option<u8>)
        ensures
            r == spec_reg_index(name@),
    {
        if *name == String::from_str("ip") {
            Some(REG_IP)
        } else if *name == String::from_str("acc") {
            Some(REG_ACC)
        } else if *name == String::from_str("r0") {
            Some(REG_R0)
        } else if *name == String::from_str("r1") {
            Some(REG_R1)
        } else if *name == String::from_str("r2") {
            Some(REG_R2)
        } else if *name == String::from_str("r3") {
            Some(REG_R3)
        } else if *name == String::from_str("r4") {
            Some(REG_R4)
        } else if *name == String::from_str("r5") {
            Some(REG_R5)
        } else if *name == String::from_str("r6") {
            Some(REG_R6)
        } else if *name == String::from_str("r7") {
            Some(REG_R7)
        } else if *name == String::from_str("sp") {
            Some(REG_SP)
        } else if *name == String::from_str("fp") {
            Some(REG_FP)
        } else {
            None
        }
    }

    /// Reads the register with the given name. Fails with `UnknownRegister`
    /// if the name is not one of the fixed set.
    pub fn get_register(&self, name: String) -> (r: Result<u16, CpuError>)
        requires
            self.wf(),
        ensures
            match spec_reg_index(name@) {
                Some(i) => r == Ok::<u16, CpuError>(self@.regs[i as int]),
                None => r == Err::<u16, CpuError>(CpuError::UnknownRegister),
            },
    {
        match Self::reg_index_of(&name) {
            Some(i) => Ok(self.read_reg(i)),
            None => Err(CpuError::UnknownRegister),
        }
    }

    /// Writes the register with the given name; no other register and no
    /// byte of main memory changes. Fails with `UnknownRegister`, and
    /// changes nothing, if the name is not one of the fixed set.
    pub fn set_register(&mut self, name: &String, value: u16) -> (r: Result<(), CpuError>)
        requires
            old(self).wf(),
        ensures
            final(self).wf(),
            match spec_reg_index(name@) {
                Some(i) => r == Ok::<(), CpuError>(()) && final(self)@ == with_reg(
                    old(self)@,
                    i as int,
                    value,
                ),
                None => r == Err::<(), CpuError>(CpuError::UnknownRegister) && final(self)@ == old(self)@,
            },
    {
        match Self::reg_index_of(name) {
            Some(i) => {
                self.write_reg(i, value);
                Ok(())
            },
            None => Err(CpuError::UnknownRegister),
        }
    }

    /// Reads the big-endian 16-bit word at memory address `a`.
    fn read_word(&self, a: usize) -> (r: u16)
        requires
            self.wf(),
            a + 1 < self@.mem.len(),
        ensures
            r == read16(self@.mem, a as int),
    {
        let hi = self.memory[a];
        let lo = self.memory[a + 1];
        (hi as u16) * 256 + (lo as u16)
    }

    /// Stores `v` big-endian at memory addresses `a` and `a + 1`; no
    /// register changes.
    fn write_word(&mut self, a: usize, v: u16)
        requires
            old(self).wf(),
            a + 1 < old(self)@.mem.len(),
        ensures
            final(self).wf(),
            final(self)@.mem == write16(old(self)@.mem, a as int, v),
            final(self)@.regs == old(self)@.regs,
    {
        let hi: u8 = (v / 256) as u8;
        let lo: u8 = (v % 256) as u8;
        self.memory[a] = hi;
        self.memory[a + 1] = lo;
        proof {
            assert(self@.mem =~= write16(old(self)@.mem, a as int, v));
            assert(self@.regs =~= old(self)@.regs);
        }
    }

    /// Installs a program: the given bytes replace the whole memory, so the
    /// memory's capacity becomes the program's length, and `sp` and `fp` are
    /// initialized to the last 16-bit slot at the top of memory, where the
    /// downward-growing stack begins.
    pub fn insert(&mut self, memory: Vec<u8>)
        requires
            old(self).wf(),
            2 <= memory@.len() <= MEM_MAX,
        ensures
            final(self).wf(),
            final(self)@.mem == memory@,
            final(self)@.regs == old(self)@.regs.update(
                REG_SP as int,
                (memory@.len() - 2) as u16,
            ).update(REG_FP as int, (memory@.len() - 2) as u16),
    {
        let top: u16 = (memory.len() - 2) as u16;
        self.memory = memory;
        proof {
            assert(self@.regs =~= old(self)@.regs);
        }
        self.write_reg(REG_SP, top);
        self.write_reg(REG_FP, top);
    }

    /// Fetches the byte at the instruction pointer and advances the pointer
    /// by one; the byte consumed is the one at the old pointer. Fails with
    /// `OutOfBounds`, and changes nothing, when the pointer lies outside
    /// memory.
    pub fn fetch(&mut self) -> (r: Result<u8, CpuError>)
        requires
            old(self).wf(),
        ensures
            final(self).wf(),
            fetch_ok(old(self)@) ==> r == Ok::<u8, CpuError>(spec_fetch(old(self)@).1) && final(self)@ == spec_fetch(old(self)@).0,
            !fetch_ok(old(self)@) ==> r == Err::<u8, CpuError>(CpuError::OutOfBounds) && final(self)@ == old(self)@,
    {
        let ip = self.read_reg(REG_IP);
        if (ip as usize) < self.memory.len() {
            let b = self.memory[ip as usize];
            self.write_reg(REG_IP, ip + 1);
            Ok(b)
        } else {
            Err(CpuError::OutOfBounds)
        }
    }

    /// Fetches the big-endian 16-bit word at the instruction pointer and
    /// advances the pointer by two. Fails with `OutOfBounds`, and changes
    /// nothing, when either byte lies outside memory.
    pub fn fetch_16(&mut self) -> (r: Result<u16, CpuError>)
        requires
            old(self).wf(),
        ensures
            final(self).wf(),
            fetch16_ok(old(self)@) ==> r == Ok::<u16, CpuError>(spec_fetch16(old(self)@).1)
                && final(self)@ == spec_fetch16(old(self)@).0,
            !fetch16_ok(old(self)@) ==> r == Err::<u16, CpuError>(CpuError::OutOfBounds) && final(self)@ == old(self)@,
    {
        let ip = self.read_reg(REG_IP);
        if (ip as usize) + 1 < self.memory.len() {
            let v = self.read_word(ip as usize);
            self.write_reg(REG_IP, ip + 2);
            Ok(v)
        } else {
            Err(CpuError::OutOfBounds)
        }
    }

    /// Reports whether the byte at the instruction pointer equals `value`,
    /// without advancing the pointer. The external driver uses this as its
    /// halt predicate; the engine itself has no concept of halting. Fails
    /// with `OutOfBounds` when the pointer lies outside memory.
    pub fn next_equals(&self, value: u8) -> (r: Result<bool, CpuError>)
        requires
            self.wf(),
        ensures
            fetch_ok(self@) ==> r == Ok::<bool, CpuError>(
                self@.mem[ip_of(self@) as int] == value,
            ),
            !fetch_ok(self@) ==> r == Err::<bool, CpuError>(CpuError::OutOfBounds),
    {
        let ip = self.read_reg(REG_IP);
        if (ip as usize) < self.memory.len() {
            Ok(self.memory[ip as usize] == value)
        } else {
            Err(CpuError::OutOfBounds)
        }
    }

    /// Reads the byte at a memory address, a side-effect-free inspection
    /// for diagnostics. Fails with `OutOfBounds` outside memory.
    pub fn read_mem(&self, address: u16) -> (r: Result<u8, CpuError>)
        requires
            self.wf(),
        ensures
            (address as int) < self@.mem.len() ==> r == Ok::<u8, CpuError>(
                self@.mem[address as int],
            ),
            (address as int) >= self@.mem.len() ==> r == Err::<u8, CpuError>(
                CpuError::OutOfBounds,
            ),
    {
        if (address as usize) < self.memory.len() {
            Ok(self.memory[address as usize])
        } else {
            Err(CpuError::OutOfBounds)
        }
    }

    /// Pushes `value` onto the stack: stores it big-endian at the stack
    /// pointer, then moves the pointer down by two, so the pointer always
    /// names the next free slot below the live stack. Fails with
    /// `OutOfBounds`, and changes nothing, when the slot lies outside
    /// memory or the pointer cannot move further down.
    pub fn push(&mut self, value: u16) -> (r: Result<(), CpuError>)
        requires
            old(self).wf(),
        ensures
            final(self).wf(),
            push_ok(old(self)@) ==> r == Ok::<(), CpuError>(()) && final(self)@ == spec_push(
                old(self)@,
                value,
            ),
            !push_ok(old(self)@) ==> r == Err::<(), CpuError>(CpuError::OutOfBounds) && final(self)@ == old(self)@,
    {
        let sp = self.read_reg(REG_SP);
        if sp >= 2 && (sp as usize) + 1 < self.memory.len() {
            self.write_word(sp as usize, value);
            self.write_reg(REG_SP, sp - 2);
            Ok(())
        } else {
            Err(CpuError::OutOfBounds)
        }
    }

    /// Pops the top 16-bit stack slot: moves the stack pointer up by two
    /// first, then reads the word at the new pointer. Fails with
    /// `OutOfBounds`, and changes nothing, when the slot above lies outside
    /// memory, as it does when the stack is at its initial top.
    pub fn pop(&mut self) -> (r: Result<u16, CpuError>)
        requires
            old(self).wf(),
        ensures
            final(self).wf(),
            pop_ok(old(self)@) ==> r == Ok::<u16, CpuError>(spec_pop(old(self)@).1) && final(self)@ == spec_pop(old(self)@).0,
            !pop_ok(old(self)@) ==> r == Err::<u16, CpuError>(CpuError::OutOfBounds) && final(self)@ == old(self)@,
    {
        let sp = self.read_reg(REG_SP);
        if (sp as usize) + 3 < self.memory.len() {
            let sp2 = sp + 2;
            self.write_reg(REG_SP, sp2);
            let v = self.read_word(sp2 as usize);
            Ok(v)
        } else {
            Err(CpuError::OutOfBounds)
        }
    }

    /// Reads the register at position `index`, as an instruction that
    /// encodes a register positionally does. Fails with `UnknownRegister`
    /// for a position outside the fixed set.
    pub fn get_register_value(&self, index: u8) -> (r: Result<u16, CpuError>)
        requires
            self.wf(),
        ensures
            index < REG_COUNT ==> r == Ok::<u16, CpuError>(self@.regs[index as int]),
            index >= REG_COUNT ==> r == Err::<u16, CpuError>(CpuError::UnknownRegister),
    {
        if index < REG_COUNT {
            Ok(self.read_reg(index))
        } else {
            Err(CpuError::UnknownRegister)
        }
    }

    /// Move literal to register: a 16-bit literal, then the destination
    /// register's 8-bit index.
    fn op_mov_lit_reg(&mut self) -> (r: Result<(), CpuError>)
        requires
            old(self).wf(),
        ensures
            final(self).wf(),
            execute_post(old(self)@, final(self)@, MOV_LIT_REG, r),
    {
        let ip = self.read_reg(REG_IP);
        if !((ip as usize) + 2 < self.memory.len()) {
            return Err(CpuError::OutOfBounds);
        }
        let idx = self.memory[(ip as usize) + 2];
        if !(idx < REG_COUNT) {
            return Err(CpuError::UnknownRegister);
        }
        let lit = match self.fetch_16() {
            Ok(v) => v,
            Err(e) => return Err(e),
        };
        let dst = match self.fetch() {
            Ok(b) => b,
            Err(e) => return Err(e),
        };
        self.write_reg(dst, lit);
        proof {
            assert(self@ =~= with_reg(with_ip(old(self)@, (ip + 3) as u16), dst as int, lit));
        }
        Ok(())
    }

    /// Move register to register: the source register's 8-bit index, then
    /// the destination register's 8-bit index.
    fn op_mov_reg_reg(&mut self) -> (r: Result<(), CpuError>)
        requires
            old(self).wf(),
        ensures
            final(self).wf(),
            execute_post(old(self)@, final(self)@, MOV_REG_REG, r),
    {
        let ip = self.read_reg(REG_IP);
        if !((ip as usize) + 1 < self.memory.len()) {
            return Err(CpuError::OutOfBounds);
        }
        if !(self.memory[ip as usize] < REG_COUNT && self.memory[(ip as usize) + 1] < REG_COUNT) {
            return Err(CpuError::UnknownRegister);
        }
        let src = match self.fetch() {
            Ok(b) => b,
            Err(e) => return Err(e),
        };
        let v = self.read_reg(src);
        let dst = match self.fetch() {
            Ok(b) => b,
            Err(e) => return Err(e),
        };
        self.write_reg(dst, v);
        proof {
            assert(self@ =~= with_reg(with_ip(old(self)@, (ip + 2) as u16), dst as int, v));
        }
        Ok(())
    }

    /// Move register to memory: the source register's 8-bit index, then a
    /// 16-bit destination address; the value is stored big-endian.
    fn op_mov_reg_mem(&mut self) -> (r: Result<(), CpuError>)
        requires
            old(self).wf(),
        ensures
            final(self).wf(),
            execute_post(old(self)@, final(self)@, MOV_REG_MEM, r),
    {
        let ip = self.read_reg(REG_IP);
        if !((ip as usize) + 2 < self.memory.len()) {
            return Err(CpuError::OutOfBounds);
        }
        if !(self.memory[ip as usize] < REG_COUNT) {
            return Err(CpuError::UnknownRegister);
        }
        let a = self.read_word((ip as usize) + 1);
        if !((a as usize) + 1 < self.memory.len()) {
            return Err(CpuError::OutOfBounds);
        }
        let src = match self.fetch() {
            Ok(b) => b,
            Err(e) => return Err(e),
        };
        let v = self.read_reg(src);
        let addr = match self.fetch_16() {
            Ok(w) => w,
            Err(e) => return Err(e),
        };
        self.write_word(addr as usize, v);
        proof {
            assert(self@ =~= with_mem16(with_ip(old(self)@, (ip + 3) as u16), a as int, v));
        }
        Ok(())
    }

    /// Move memory to register: a 16-bit source address, then the
    /// destination register's 8-bit index; the value is read big-endian.
    fn op_mov_mem_reg(&mut self) -> (r: Result<(), CpuError>)
        requires
            old(self).wf(),
        ensures
            final(self).wf(),
            execute_post(old(self)@, final(self)@, MOV_MEM_REG, r),
    {
        let ip = self.read_reg(REG_IP);
        if !((ip as usize) + 2 < self.memory.len()) {
            return Err(CpuError::OutOfBounds);
        }
        let idx = self.memory[(ip as usize) + 2];
        if !(idx < REG_COUNT) {
            return Err(CpuError::UnknownRegister);
        }
        let a = self.read_word(ip as usize);
        if !((a as usize) + 1 < self.memory.len()) {
            return Err(CpuError::OutOfBounds);
        }
        let addr = match self.fetch_16() {
            Ok(w) => w,
            Err(e) => return Err(e),
        };
        let v = self.read_word(addr as usize);
        let dst = match self.fetch() {
            Ok(b) => b,
            Err(e) => return Err(e),
        };
        self.write_reg(dst, v);
        proof {
            assert(self@ =~= with_reg(with_ip(old(self)@, (ip + 3) as u16), dst as int, v));
        }
        Ok(())
    }

    /// Add register to register: two 8-bit register indices; their sum,
    /// wrapped at 16 bits, lands in the accumulator.
    fn op_add_reg_reg(&mut self) -> (r: Result<(), CpuError>)
        requires
            old(self).wf(),
        ensures
            final(self).wf(),
            execute_post(old(self)@, final(self)@, ADD_REG_REG, r),
    {
        let ip = self.read_reg(REG_IP);
        if !((ip as usize) + 1 < self.memory.len()) {
            return Err(CpuError::OutOfBounds);
        }
        if !(self.memory[ip as usize] < REG_COUNT && self.memory[(ip as usize) + 1] < REG_COUNT) {
            return Err(CpuError::UnknownRegister);
        }
        let r1 = match self.fetch() {
            Ok(b) => b,
            Err(e) => return Err(e),
        };
        let v1 = self.read_reg(r1);
        let r2 = match self.fetch() {
            Ok(b) => b,
            Err(e) => return Err(e),
        };
        let v2 = self.read_reg(r2);
        let sum: u16 = (((v1 as u32) + (v2 as u32)) % 0x10000) as u16;
        self.write_reg(REG_ACC, sum);
        proof {
            assert(self@ =~= with_reg(with_ip(old(self)@, (ip + 2) as u16), REG_ACC as int, sum));
        }
        Ok(())
    }

    /// Jump if not equal: a 16-bit literal, then a 16-bit target address;
    /// the jump is taken exactly when the literal differs from the
    /// accumulator, else execution falls through.
    fn op_jne_lit_adr(&mut self) -> (r: Result<(), CpuError>)
        requires
            old(self).wf(),
        ensures
            final(self).wf(),
            execute_post(old(self)@, final(self)@, JNE_LIT_ADR, r),
    {
        let ip = self.read_reg(REG_IP);
        if !((ip as usize) + 3 < self.memory.len()) {
            return Err(CpuError::OutOfBounds);
        }
        let lit = match self.fetch_16() {
            Ok(w) => w,
            Err(e) => return Err(e),
        };
        let target = match self.fetch_16() {
            Ok(w) => w,
            Err(e) => return Err(e),
        };
        let acc = self.read_reg(REG_ACC);
        if lit != acc {
            self.write_reg(REG_IP, target);
            proof {
                assert(self@ =~= with_ip(old(self)@, target));
            }
        } else {
            proof {
                assert(self@ =~= with_ip(old(self)@, (ip + 4) as u16));
            }
        }
        Ok(())
    }

    /// Push literal: a 16-bit literal goes onto the stack.
    fn op_psh_lit(&mut self) -> (r: Result<(), CpuError>)
        requires
            old(self).wf(),
        ensures
            final(self).wf(),
            execute_post(old(self)@, final(self)@, PSH_LIT, r),
    {
        let ip = self.read_reg(REG_IP);
        if !((ip as usize) + 1 < self.memory.len()) {
            return Err(CpuError::OutOfBounds);
        }
        let sp = self.read_reg(REG_SP);
        if !(sp >= 2 && (sp as usize) + 1 < self.memory.len()) {
            return Err(CpuError::OutOfBounds);
        }
        let lit = match self.fetch_16() {
            Ok(w) => w,
            Err(e) => return Err(e),
        };
        match self.push(lit) {
            Ok(u) => u,
            Err(e) => return Err(e),
        };
        proof {
            assert(self@ =~= spec_push(with_ip(old(self)@, (ip + 2) as u16), lit));
        }
        Ok(())
    }

    /// Push register: the 8-bit index of the register whose value goes onto
    /// the stack; the register is read just after its index byte.
    fn op_psh_reg(&mut self) -> (r: Result<(), CpuError>)
        requires
            old(self).wf(),
        ensures
            final(self).wf(),
            execute_post(old(self)@, final(self)@, PSH_REG, r),
    {
        let ip = self.read_reg(REG_IP);
        if !((ip as usize) < self.memory.len()) {
            return Err(CpuError::OutOfBounds);
        }
        if !(self.memory[ip as usize] < REG_COUNT) {
            return Err(CpuError::UnknownRegister);
        }
        let sp = self.read_reg(REG_SP);
        if !(sp >= 2 && (sp as usize) + 1 < self.memory.len()) {
            return Err(CpuError::OutOfBounds);
        }
        let idx = match self.fetch() {
            Ok(b) => b,
            Err(e) => return Err(e),
        };
        let v = self.read_reg(idx);
        match self.push(v) {
            Ok(u) => u,
            Err(e) => return Err(e),
        };
        proof {
            assert(self@ =~= spec_push(with_ip(old(self)@, (ip + 1) as u16), v));
        }
        Ok(())
    }

    /// Pop: the 8-bit index of the destination register; the stack pointer
    /// moves up first, then the word it points at is written to the
    /// destination, so popping into `sp` leaves the popped value there.
    fn op_pop(&mut self) -> (r: Result<(), CpuError>)
        requires
            old(self).wf(),
        ensures
            final(self).wf(),
            execute_post(old(self)@, final(self)@, POP, r),
    {
        let ip = self.read_reg(REG_IP);
        if !((ip as usize) < self.memory.len()) {
            return Err(CpuError::OutOfBounds);
        }
        if !(self.memory[ip as usize] < REG_COUNT) {
            return Err(CpuError::UnknownRegister);
        }
        let sp = self.read_reg(REG_SP);
        if !((sp as usize) + 3 < self.memory.len()) {
            return Err(CpuError::OutOfBounds);
        }
        let dst = match self.fetch() {
            Ok(b) => b,
            Err(e) => return Err(e),
        };
        let v = match self.pop() {
            Ok(w) => w,
            Err(e) => return Err(e),
        };
        self.write_reg(dst, v);
        proof {
            let s1 = with_ip(old(self)@, (ip + 1) as u16);
            assert(self@ =~= with_reg(spec_pop(s1).0, dst as int, v));
        }
        Ok(())
    }

    /// Dispatches the operation selected by an already-fetched opcode byte.
    /// The operation consumes its own operand bytes from the instruction
    /// pointer onward. An opcode that matches no operation fails with
    /// `IllegalOpcode`; on any error nothing of the state changes.
    pub fn execute(&mut self, instruction: u8) -> (r: Result<(), CpuError>)
        requires
            old(self).wf(),
        ensures
            final(self).wf(),
            execute_post(old(self)@, final(self)@, instruction, r),
    {
        if instruction == MOV_LIT_REG {
            self.op_mov_lit_reg()
        } else if instruction == MOV_REG_REG {
            self.op_mov_reg_reg()
        } else if instruction == MOV_REG_MEM {
            self.op_mov_reg_mem()
        } else if instruction == MOV_MEM_REG {
            self.op_mov_mem_reg()
        } else if instruction == ADD_REG_REG {
            self.op_add_reg_reg()
        } else if instruction == JNE_LIT_ADR {
            self.op_jne_lit_adr()
        } else if instruction == PSH_LIT {
            self.op_psh_lit()
        } else if instruction == PSH_REG {
            self.op_psh_reg()
        } else if instruction == POP {
            self.op_pop()
        } else {
            Err(CpuError::IllegalOpcode)
        }
    }

    /// One whole step: fetches the opcode byte at the instruction pointer
    /// and dispatches to the matching operation. On any error the whole
    /// step is undone and nothing of the state changes.
    pub fn step(&mut self) -> (r: Result<(), CpuError>)
        requires
            old(self).wf(),
        ensures
            final(self).wf(),
            step_post(old(self)@, final(self)@, r),
    {
        let ip0 = self.read_reg(REG_IP);
        let op = match self.fetch() {
            Ok(b) => b,
            Err(e) => return Err(e),
        };
        match self.execute(op) {
            Ok(u) => Ok(u),
            Err(e) => {
                self.write_reg(REG_IP, ip0);
                proof {
                    assert(self@ =~= old(self)@);
                }
                Err(e)
            },
        }
    }
}

} // verus!
