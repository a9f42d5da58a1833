//! General laws of the engine, stated over the machine model and proved.

use vstd::prelude::*;

use crate::model::{
    cpu_wf, fetch16_ok, ip_of, lemma_word16_split, read16, spec_execute, spec_fetch, spec_fetch16,
    spec_pop, spec_pop_all, spec_push, spec_push_all, spec_reg_index, sp_of, with_reg, word16,
    write16, CpuError, CpuView, REG_IP, REG_SP,
};
use crate::instructions::{MOV_MEM_REG, MOV_REG_MEM};

verus! {

/// Writing any 16-bit value to any register of the fixed set and then
/// reading that register by the same name yields exactly the value written.
pub proof fn lemma_set_then_get(s: CpuView, name: Seq<char>, v: u16)
    requires
        cpu_wf(s),
        spec_reg_index(name) is Some,
    ensures
        spec_reg_index(name) matches Some(i) ==> with_reg(s, i as int, v).regs[i as int] == v,
{
}

/// A 16-bit fetch equals two single-byte fetches composed big-endian: it
/// consumes the same two bytes, yields the word they form high byte first,
/// reaches the same successor state, and advances the instruction pointer by
/// exactly two in either formulation.
pub proof fn lemma_fetch16_is_two_fetches(s: CpuView)
    requires
        cpu_wf(s),
        fetch16_ok(s),
    ensures
        ({
            let first = spec_fetch(s);
            let second = spec_fetch(first.0);
            &&& spec_fetch16(s).1 == word16(first.1, second.1)
            &&& spec_fetch16(s).0 == second.0
            &&& ip_of(second.0) == ip_of(s) + 2
            &&& ip_of(spec_fetch16(s).0) == ip_of(s) + 2
        }),
{
    let first = spec_fetch(s);
    let second = spec_fetch(first.0);
    assert(spec_fetch16(s).0 =~= second.0);
}

/// Storing a 16-bit value big-endian at an address and reading the same
/// address back yields the value: the byte order round-trips.
pub proof fn lemma_read16_write16(mem: Seq<u8>, a: int, v: u16)
    requires
        0 <= a,
        a + 1 < mem.len(),
    ensures
        read16(write16(mem, a, v), a) == v,
{
    lemma_word16_split(v);
}

/// Executing "move register to memory" with source register `src` holding
/// value `v` at address `a`, and then "move memory to register" from `a`
/// into register `dst`, leaves exactly `v` in `dst`.
///
/// The source may not be the instruction pointer: that register does not
/// "hold" one value across the instruction, since fetching the operand bytes
/// moves it.
pub proof fn lemma_mov_roundtrip(s: CpuView, s1: CpuView, s2: CpuView, src: u8, dst: u8, a: u16)
    requires
        cpu_wf(s),
        src != REG_IP,
        s.mem[ip_of(s) as int] == src,
        read16(s.mem, ip_of(s) as int + 1) == a,
        spec_execute(s, MOV_REG_MEM) == Ok::<CpuView, CpuError>(s1),
        read16(s1.mem, ip_of(s1) as int) == a,
        s1.mem[ip_of(s1) as int + 2] == dst,
        spec_execute(s1, MOV_MEM_REG) == Ok::<CpuView, CpuError>(s2),
    ensures
        s2.regs[dst as int] == s.regs[src as int],
{
    let v = s.regs[src as int];
    lemma_read16_write16(s.mem, a as int, v);
}

/// The cumulative effect of pushing every value of `vs`: the stack pointer
/// moves down two bytes per value, no other register changes, and each
/// pushed value stands big-endian in the stack region, the first value in
/// the highest slot.
proof fn lemma_push_all_effect(s: CpuView, vs: Seq<u16>)
    requires
        cpu_wf(s),
        sp_of(s) as int + 1 < s.mem.len(),
        2 * vs.len() <= sp_of(s),
    ensures
        ({
            let t = spec_push_all(s, vs);
            &&& t.mem.len() == s.mem.len()
            &&& t.regs.len() == s.regs.len()
            &&& sp_of(t) == sp_of(s) - 2 * vs.len()
            &&& forall|j: int|
                0 <= j < s.regs.len() && j != REG_SP ==> t.regs[j] == s.regs[j]
            &&& forall|k: int|
                0 <= k < vs.len() ==> read16(t.mem, sp_of(s) - 2 * k) == #[trigger] vs[k]
        }),
    decreases vs.len(),
{
    if vs.len() > 0 {
        let rest = vs.drop_last();
        let last = vs.last();
        lemma_push_all_effect(s, rest);
        let t0 = spec_push_all(s, rest);
        let t = spec_push(t0, last);
        assert(spec_push_all(s, vs) == t);
        lemma_read16_write16(t0.mem, sp_of(t0) as int, last);
        assert forall|k: int| 0 <= k < vs.len() implies read16(t.mem, sp_of(s) - 2 * k)
            == #[trigger] vs[k] by {
            if k < vs.len() - 1 {
                assert(vs[k] == rest[k]);
                assert(read16(t0.mem, sp_of(s) - 2 * k) == rest[k]);
            }
        }
    }
}

/// The cumulative effect of `n` pops: the stack pointer moves up two bytes
/// per pop, no other register and no byte of memory changes, and the values
/// come from consecutive 16-bit slots right above the old stack pointer.
proof fn lemma_pop_all_effect(t: CpuView, n: nat)
    requires
        cpu_wf(t),
        sp_of(t) as int + 2 * n + 1 < t.mem.len(),
    ensures
        ({
            let popped = spec_pop_all(t, n);
            &&& popped.0.mem == t.mem
            &&& popped.0.regs.len() == t.regs.len()
            &&& sp_of(popped.0) == sp_of(t) + 2 * n
            &&& forall|j: int|
                0 <= j < t.regs.len() && j != REG_SP ==> popped.0.regs[j] == t.regs[j]
            &&& popped.1.len() == n
            &&& forall|j: int|
                0 <= j < n ==> #[trigger] popped.1[j] == read16(t.mem, sp_of(t) + 2 * j + 2)
        }),
    decreases n,
{
    if n > 0 {
        let sp = sp_of(t) as int;
        let first = spec_pop(t);
        let t1 = first.0;
        lemma_pop_all_effect(t1, (n - 1) as nat);
        let rest = spec_pop_all(t1, (n - 1) as nat);
        let popped = spec_pop_all(t, n);
        assert(popped.0 == rest.0);
        assert(popped.1 == seq![first.1] + rest.1);
        assert forall|j: int| 0 <= j < t.regs.len() && j != REG_SP implies popped.0.regs[j]
            == t.regs[j] by {
            assert(popped.0.regs[j] == t1.regs[j]);
            assert(t1.regs[j] == t.regs[j]);
        }
        assert forall|j: int| 0 <= j < n implies #[trigger] popped.1[j] == read16(
            t.mem,
            sp + 2 * j + 2,
        ) by {
            if j == 0 {
                assert(popped.1[0] == first.1);
            } else {
                assert(popped.1[j] == rest.1[j - 1]);
                assert(rest.1[j - 1] == read16(t1.mem, sp_of(t1) + 2 * (j - 1) + 2));
                assert(sp_of(t1) == sp + 2);
            }
        }
    }
}

/// The stack law: pushing any sequence of values and then popping the same
/// number of slots returns exactly those values in reverse order, restores
/// the stack pointer to its value before the pushes, and leaves every other
/// register as it was.
pub proof fn lemma_stack_lifo(s: CpuView, vs: Seq<u16>)
    requires
        cpu_wf(s),
        sp_of(s) as int + 1 < s.mem.len(),
        2 * vs.len() <= sp_of(s),
    ensures
        ({
            let t = spec_push_all(s, vs);
            let popped = spec_pop_all(t, vs.len());
            &&& popped.1 == vs.reverse()
            &&& sp_of(popped.0) == sp_of(s)
            &&& popped.0.regs == s.regs
            &&& popped.0.mem == t.mem
        }),
{
    let t = spec_push_all(s, vs);
    let n = vs.len();
    lemma_push_all_effect(s, vs);
    lemma_pop_all_effect(t, n);
    let popped = spec_pop_all(t, n);
    assert forall|j: int| 0 <= j < n implies #[trigger] popped.1[j] == vs.reverse()[j] by {
        assert(popped.1[j] == read16(t.mem, sp_of(t) + 2 * j + 2));
        assert(sp_of(t) + 2 * j + 2 == sp_of(s) - 2 * (n - 1 - j));
        assert(read16(t.mem, sp_of(s) - 2 * (n - 1 - j)) == vs[n - 1 - j]);
    }
    assert(popped.1 =~= vs.reverse());
    assert(popped.0.regs =~= s.regs);
}

} // verus!
