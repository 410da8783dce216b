//! General laws of the machine, stated over the model and proved once for
//! all inputs.

use vstd::prelude::*;

use crate::model::MachineModel;
use crate::model::add_value;
use crate::model::binop_value;
use crate::model::is_mem_addr;
use crate::model::is_reg_addr;
use crate::model::mult_value;
use crate::model::not_value;
use crate::model::resolve_spec;
use crate::model::step_spec;
use crate::model::write_spec;
use crate::outcome::Event;
use crate::outcome::VmError;

verus! {

/// Modulo-32768 closure: for values in 0..=32767, the add and mult opcodes
/// store a value that again lies in 0..=32767.
pub proof fn lemma_arith_closure(b: u16, c: u16)
    requires
        b <= 32767,
        c <= 32767,
    ensures
        binop_value(9, b, c) == Ok::<u16, VmError>(add_value(b, c)),
        binop_value(10, b, c) == Ok::<u16, VmError>(mult_value(b, c)),
        add_value(b, c) <= 32767,
        mult_value(b, c) <= 32767,
{
}

/// The not opcode is the 15-bit complement: for values in 0..=32767 it
/// stores exactly `32767 - b`.
pub proof fn lemma_not_complement(b: u16)
    requires
        b <= 32767,
    ensures
        not_value(b) == 32767 - b,
{
    assert(!b & 0x7fff == 32767 - b) by (bit_vector)
        requires
            b <= 32767,
    ;
}

/// Stack LIFO law: pushing a word and then popping returns that word, and
/// the stack — in particular its size — is restored to what it was before
/// the push.
pub proof fn lemma_stack_lifo(s: Seq<u16>, v: u16)
    ensures
        s.push(v).len() == s.len() + 1,
        s.push(v).last() == v,
        s.push(v).drop_last() == s,
{
    assert(s.push(v).drop_last() =~= s);
}

/// Memory and registers are disjoint stores in one numeric address space:
/// no valid address is both, a write to a register address alters no
/// memory cell, and a write to a memory address alters no register.
pub proof fn lemma_disjoint_stores(m: MachineModel, a: u16, v: u16)
    requires
        m.wf(),
        a <= 32775,
    ensures
        !(is_mem_addr(a) && is_reg_addr(a)),
        is_reg_addr(a) ==> (write_spec(m, a, v) matches Ok(m2) && m2.memory == m.memory),
        is_mem_addr(a) ==> (write_spec(m, a, v) matches Ok(m2) && m2.registers == m.registers),
{
}

/// A call immediately followed by a return resumes execution at the
/// instruction following the call, for any valid target, with memory,
/// registers, stack and input restored.
pub proof fn lemma_call_ret(m: MachineModel, t: u16)
    requires
        m.wf(),
        m.cursor <= 32766,
        m.memory[m.cursor as int] == 17,
        resolve_spec(m, m.memory[m.cursor as int + 1]) == Ok::<u16, VmError>(t),
        t <= 32767,
        m.memory[t as int] == 18,
    ensures
        step_spec(m).1 == Ok::<Event, VmError>(Event::Running),
        step_spec(step_spec(m).0).1 == Ok::<Event, VmError>(Event::Running),
        step_spec(step_spec(m).0).0 == (MachineModel { cursor: (m.cursor + 2) as u16, ..m }),
{
    let m1 = step_spec(m).0;
    assert(m1.stack == m.stack.push((m.cursor + 2) as u16));
    assert(m1.stack.len() > 0);
    let m2 = step_spec(m1).0;
    assert(m2.stack =~= m.stack);
    assert(m2 =~= (MachineModel { cursor: (m.cursor + 2) as u16, ..m }));
}

} // verus!
