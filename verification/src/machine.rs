//! The executable machine: the unified memory/register store, the operand
//! stack, the input queue, and the fetch-decode-execute step.
//!
//! Every method is verified against the model in `crate::model`: its view
//! `@` is a `MachineModel`, and `step` performs exactly the transition
//! `step_spec` describes.

use vstd::prelude::*;

use crate::model::MachineModel;
use crate::model::binop_value;
use crate::model::step_opcode;
use crate::model::opcode_arity;
use crate::model::read_spec;
use crate::model::resolve_spec;
use crate::model::step_spec;
use crate::model::write_spec;
use crate::model::MEM_WORDS;
use crate::model::REG_COUNT;
use crate::outcome::Event;
use crate::outcome::VmError;

verus! {

/// A machine loaded with one program: 32768 words of memory, eight
/// registers, the operand stack, the program cursor, and the queue of
/// input character codes not yet consumed.
pub struct Machine {
    memory: Vec<u16>,
    registers: Vec<u16>,
    stack: Vec<u16>,
    cursor: u16,
    input: Vec<u16>,
}

impl View for Machine {
    type V = MachineModel;

    closed spec fn view(&self) -> MachineModel {
        MachineModel {
            memory: self.memory@,
            registers: self.registers@,
            stack: self.stack@,
            cursor: self.cursor,
            input: self.input@,
        }
    }
}

impl Machine {
    /// The stores have their fixed sizes; established by `new` and kept by
    /// every method.
    pub open spec fn wf(&self) -> bool {
        self@.wf()
    }

    /// A fresh machine: the program words fill memory from address 0, the
    /// rest of memory and all registers are 0, the stack and the input
    /// queue are empty, and the cursor is at 0.
    pub fn new(program: &Vec<u16>) -> (m: Machine)
        requires
            program@.len() <= MEM_WORDS,
        ensures
            m.wf(),
            forall|i: int| 0 <= i < program@.len() ==> m@.memory[i] == program@[i],
            forall|i: int| program@.len() <= i < MEM_WORDS ==> m@.memory[i] == 0,
            forall|i: int| 0 <= i < REG_COUNT ==> m@.registers[i] == 0,
            m@.stack.len() == 0,
            m@.cursor == 0,
            m@.input.len() == 0,
    {
        let mut memory: Vec<u16> = Vec::new();
        let mut i: usize = 0;
        while i < program.len()
            invariant
                i <= program@.len(),
                program@.len() <= MEM_WORDS,
                memory@.len() == i,
                forall|j: int| 0 <= j < i ==> memory@[j] == program@[j],
            decreases program@.len() - i,
        {
            memory.push(program[i]);
            i += 1;
        }
        while memory.len() < MEM_WORDS
            invariant
                program@.len() <= memory@.len() <= MEM_WORDS,
                forall|j: int| 0 <= j < program@.len() ==> memory@[j] == program@[j],
                forall|j: int| program@.len() <= j < memory@.len() ==> memory@[j] == 0,
            decreases MEM_WORDS - memory@.len(),
        {
            memory.push(0);
        }
        let mut registers: Vec<u16> = Vec::new();
        while registers.len() < REG_COUNT
            invariant
                registers@.len() <= REG_COUNT,
                forall|j: int| 0 <= j < registers@.len() ==> registers@[j] == 0,
            decreases REG_COUNT - registers@.len(),
        {
            registers.push(0);
        }
        Machine { memory, registers, stack: Vec::new(), cursor: 0, input: Vec::new() }
    }

    /// The unified read: a memory cell for addresses 0..=32767, a register
    /// for 32768..=32775, `InvalidAddress` beyond.
    pub fn read(&self, addr: u16) -> (r: Result<u16, VmError>)
        requires
            self.wf(),
        ensures
            r == read_spec(self@, addr),
    {
        if addr <= 32767 {
            Ok(self.memory[addr as usize])
        } else if addr <= 32775 {
            Ok(self.registers[(addr - 32768) as usize])
        } else {
            Err(VmError::InvalidAddress)
        }
    }

    /// The unified write, with the same address split as `read`. On
    /// `InvalidAddress` the machine is unchanged.
    pub fn write(&mut self, addr: u16, value: u16) -> (r: Result<(), VmError>)
        requires
            old(self).wf(),
        ensures
            final(self).wf(),
            addr <= 32775 ==> r == Ok::<(), VmError>(()) && Ok::<MachineModel, VmError>(final(self)@) == write_spec(old(self)@, addr, value),
            addr > 32775 ==> r == Err::<(), VmError>(VmError::InvalidAddress) && final(self)@ == old(self)@,
    {
        if addr <= 32767 {
            self.memory.set(addr as usize, value);
            Ok(())
        } else if addr <= 32775 {
            self.registers.set((addr - 32768) as usize, value);
            Ok(())
        } else {
            Err(VmError::InvalidAddress)
        }
    }

    /// A raw word used as a value operand: itself if 0..=32767, the named
    /// register's content if 32768..=32775, `InvalidOperand` beyond.
    pub fn resolve(&self, w: u16) -> (r: Result<u16, VmError>)
        requires
            self.wf(),
        ensures
            r == resolve_spec(self@, w),
    {
        if w <= 32767 {
            Ok(w)
        } else if w <= 32775 {
            Ok(self.registers[(w - 32768) as usize])
        } else {
            Err(VmError::InvalidOperand)
        }
    }

    /// Append one word to the operand stack.
    pub fn push(&mut self, v: u16)
        ensures
            final(self)@ == (MachineModel { stack: old(self)@.stack.push(v), ..old(self)@ }),
    {
        self.stack.push(v);
    }

    /// Remove and return the top word of the operand stack; `None` on an
    /// empty stack, which is then unchanged. The two failure policies —
    /// fatal underflow for the pop opcode, graceful halt for the return
    /// opcode — are decided at the call sites in `step`.
    pub fn pop(&mut self) -> (r: Option<u16>)
        ensures
            old(self)@.stack.len() == 0 ==> r == None::<u16> && final(self)@ == old(self)@,
            old(self)@.stack.len() > 0 ==> r == Some(old(self)@.stack.last())
                && final(self)@ == (MachineModel { stack: old(self)@.stack.drop_last(), ..old(self)@ }),
    {
        let r = self.stack.pop();
        proof {
            if old(self)@.stack.len() > 0 {
                assert(self@.stack =~= old(self)@.stack.drop_last());
                assert(self@ =~= (MachineModel { stack: old(self)@.stack.drop_last(), ..old(self)@ }));
            } else {
                assert(self@ =~= old(self)@);
            }
        }
        r
    }

    /// Append a decoded line of character codes to the input queue. Once a
    /// line is fed, all its characters are available before any is
    /// dispatched to the program.
    pub fn feed_line(&mut self, chars: Vec<u16>)
        ensures
            final(self)@ == (MachineModel { input: old(self)@.input + chars@, ..old(self)@ }),
    {
        let mut rest = chars;
        self.input.append(&mut rest);
    }

    /// Read a word of memory at an index known to be in range; used for
    /// opcode and operand fetches.
    fn fetch(&self, i: u16) -> (w: u16)
        requires
            self.wf(),
            i <= 32767,
        ensures
            w == self@.memory[i as int],
    {
        self.memory[i as usize]
    }


    /// One fetch-decode-execute cycle: exactly the transition `step_spec`
    /// describes. `Ok` carries what the caller must do next (continue,
    /// stop, emit a character, or feed an input line); `Err` is a fatal
    /// abort, with the machine left at the point of failure.
    pub fn step(&mut self) -> (r: Result<Event, VmError>)
        requires
            old(self).wf(),
        ensures
            final(self).wf(),
            final(self)@ == step_spec(old(self)@).0,
            r == step_spec(old(self)@).1,
    {
        if self.cursor > 32767 {
            return Err(VmError::InvalidAddress);
        }
        let op = self.fetch(self.cursor);
        let ar = arity_of(op);
        if self.cursor + ar > 32767 {
            return Err(VmError::InvalidAddress);
        }
        match op {
            0 => Ok(Event::Halted(self.cursor)),
            1 => self.step_set(),
            2 => self.step_push(),
            3 => self.step_pop(),
            4 | 5 | 9 | 10 | 11 | 12 | 13 => self.step_binop(op),
            6 => self.step_jmp(),
            7 | 8 => self.step_jcond(op),
            14 => self.step_not(),
            15 => self.step_rmem(),
            16 => self.step_wmem(),
            17 => self.step_call(),
            18 => self.step_ret(),
            19 => self.step_out(),
            20 => self.step_in(),
            _ => {
                // noop and every unrecognized opcode: no effect beyond
                // advancing
                self.cursor = self.cursor + 1;
                Ok(Event::Running)
            }
        }
    }

    /// The set opcode: the raw destination receives the resolved value.
    fn step_set(&mut self) -> (r: Result<Event, VmError>)
        requires
            old(self).wf(),
            old(self)@.cursor <= 32765,
            old(self)@.memory[old(self)@.cursor as int] == 1,
        ensures
            final(self).wf(),
            (final(self)@, r) == step_opcode(old(self)@, 1),
    {
        let w1 = self.fetch(self.cursor + 1);
        let w2 = self.fetch(self.cursor + 2);
        let b = match self.resolve(w2) {
            Ok(v) => v,
            Err(e) => return Err(e),
        };
        match self.write(w1, b) {
            Ok(()) => {}
            Err(e) => return Err(e),
        }
        self.cursor = self.cursor + 3;
        Ok(Event::Running)
    }

    /// The push opcode: the resolved operand goes onto the stack.
    fn step_push(&mut self) -> (r: Result<Event, VmError>)
        requires
            old(self).wf(),
            old(self)@.cursor <= 32766,
            old(self)@.memory[old(self)@.cursor as int] == 2,
        ensures
            final(self).wf(),
            (final(self)@, r) == step_opcode(old(self)@, 2),
    {
        let w1 = self.fetch(self.cursor + 1);
        let v = match self.resolve(w1) {
            Ok(v) => v,
            Err(e) => return Err(e),
        };
        self.push(v);
        self.cursor = self.cursor + 2;
        Ok(Event::Running)
    }

    /// The pop opcode: an empty stack is a fatal underflow; otherwise the
    /// raw destination receives the top word.
    fn step_pop(&mut self) -> (r: Result<Event, VmError>)
        requires
            old(self).wf(),
            old(self)@.cursor <= 32766,
            old(self)@.memory[old(self)@.cursor as int] == 3,
        ensures
            final(self).wf(),
            (final(self)@, r) == step_opcode(old(self)@, 3),
    {
        let w1 = self.fetch(self.cursor + 1);
        if self.stack.len() == 0 {
            return Err(VmError::StackUnderflow);
        }
        let top = self.stack[self.stack.len() - 1];
        match self.write(w1, top) {
            Ok(()) => {}
            Err(e) => return Err(e),
        }
        let _ = self.stack.pop();
        self.cursor = self.cursor + 2;
        Ok(Event::Running)
    }

    /// The three-operand computing opcodes (eq, gt, add, mult, mod, and,
    /// or): the raw destination receives a value computed from the two
    /// resolved operands.
    fn step_binop(&mut self, op: u16) -> (r: Result<Event, VmError>)
        requires
            old(self).wf(),
            op == 4 || op == 5 || op == 9 || op == 10 || op == 11 || op == 12 || op == 13,
            old(self)@.cursor <= 32764,
            old(self)@.memory[old(self)@.cursor as int] == op,
        ensures
            final(self).wf(),
            (final(self)@, r) == step_opcode(old(self)@, op),
    {
        let w1 = self.fetch(self.cursor + 1);
        let w2 = self.fetch(self.cursor + 2);
        let w3 = self.fetch(self.cursor + 3);
        let b = match self.resolve(w2) {
            Ok(v) => v,
            Err(e) => return Err(e),
        };
        let c = match self.resolve(w3) {
            Ok(v) => v,
            Err(e) => return Err(e),
        };
        let v = match compute_binop(op, b, c) {
            Ok(v) => v,
            Err(e) => return Err(e),
        };
        match self.write(w1, v) {
            Ok(()) => {}
            Err(e) => return Err(e),
        }
        self.cursor = self.cursor + 4;
        Ok(Event::Running)
    }

    /// The jmp opcode: an absolute jump to the resolved target.
    fn step_jmp(&mut self) -> (r: Result<Event, VmError>)
        requires
            old(self).wf(),
            old(self)@.cursor <= 32766,
            old(self)@.memory[old(self)@.cursor as int] == 6,
        ensures
            final(self).wf(),
            (final(self)@, r) == step_opcode(old(self)@, 6),
    {
        let w1 = self.fetch(self.cursor + 1);
        let t = match self.resolve(w1) {
            Ok(v) => v,
            Err(e) => return Err(e),
        };
        self.cursor = t;
        Ok(Event::Running)
    }

    /// The jt and jf opcodes: an absolute jump taken on a nonzero (jt) or
    /// zero (jf) resolved condition; the target is resolved only on a
    /// taken branch.
    fn step_jcond(&mut self, op: u16) -> (r: Result<Event, VmError>)
        requires
            old(self).wf(),
            op == 7 || op == 8,
            old(self)@.cursor <= 32765,
            old(self)@.memory[old(self)@.cursor as int] == op,
        ensures
            final(self).wf(),
            (final(self)@, r) == step_opcode(old(self)@, op),
    {
        let w1 = self.fetch(self.cursor + 1);
        let a = match self.resolve(w1) {
            Ok(v) => v,
            Err(e) => return Err(e),
        };
        let taken = if op == 7 { a != 0 } else { a == 0 };
        if taken {
            let w2 = self.fetch(self.cursor + 2);
            let t = match self.resolve(w2) {
                Ok(v) => v,
                Err(e) => return Err(e),
            };
            self.cursor = t;
        } else {
            self.cursor = self.cursor + 3;
        }
        Ok(Event::Running)
    }

    /// The not opcode: the raw destination receives the 15-bit complement
    /// of the resolved value.
    fn step_not(&mut self) -> (r: Result<Event, VmError>)
        requires
            old(self).wf(),
            old(self)@.cursor <= 32765,
            old(self)@.memory[old(self)@.cursor as int] == 14,
        ensures
            final(self).wf(),
            (final(self)@, r) == step_opcode(old(self)@, 14),
    {
        let w1 = self.fetch(self.cursor + 1);
        let w2 = self.fetch(self.cursor + 2);
        let b = match self.resolve(w2) {
            Ok(v) => v,
            Err(e) => return Err(e),
        };
        match self.write(w1, !b & 0x7fff) {
            Ok(()) => {}
            Err(e) => return Err(e),
        }
        self.cursor = self.cursor + 3;
        Ok(Event::Running)
    }

    /// The rmem opcode: the raw destination receives the word at the
    /// resolved address.
    fn step_rmem(&mut self) -> (r: Result<Event, VmError>)
        requires
            old(self).wf(),
            old(self)@.cursor <= 32765,
            old(self)@.memory[old(self)@.cursor as int] == 15,
        ensures
            final(self).wf(),
            (final(self)@, r) == step_opcode(old(self)@, 15),
    {
        let w1 = self.fetch(self.cursor + 1);
        let w2 = self.fetch(self.cursor + 2);
        let src = match self.resolve(w2) {
            Ok(v) => v,
            Err(e) => return Err(e),
        };
        let v = match self.read(src) {
            Ok(v) => v,
            Err(e) => return Err(e),
        };
        match self.write(w1, v) {
            Ok(()) => {}
            Err(e) => return Err(e),
        }
        self.cursor = self.cursor + 3;
        Ok(Event::Running)
    }

    /// The wmem opcode: its first operand is resolved and then used as the
    /// address that receives the resolved second operand.
    fn step_wmem(&mut self) -> (r: Result<Event, VmError>)
        requires
            old(self).wf(),
            old(self)@.cursor <= 32765,
            old(self)@.memory[old(self)@.cursor as int] == 16,
        ensures
            final(self).wf(),
            (final(self)@, r) == step_opcode(old(self)@, 16),
    {
        let w1 = self.fetch(self.cursor + 1);
        let w2 = self.fetch(self.cursor + 2);
        let dst = match self.resolve(w1) {
            Ok(v) => v,
            Err(e) => return Err(e),
        };
        let v = match self.resolve(w2) {
            Ok(v) => v,
            Err(e) => return Err(e),
        };
        match self.write(dst, v) {
            Ok(()) => {}
            Err(e) => return Err(e),
        }
        self.cursor = self.cursor + 3;
        Ok(Event::Running)
    }

    /// The call opcode: the address of the following instruction is
    /// pushed, then an absolute jump to the resolved target.
    fn step_call(&mut self) -> (r: Result<Event, VmError>)
        requires
            old(self).wf(),
            old(self)@.cursor <= 32766,
            old(self)@.memory[old(self)@.cursor as int] == 17,
        ensures
            final(self).wf(),
            (final(self)@, r) == step_opcode(old(self)@, 17),
    {
        let w1 = self.fetch(self.cursor + 1);
        let t = match self.resolve(w1) {
            Ok(v) => v,
            Err(e) => return Err(e),
        };
        let ret_addr = self.cursor + 2;
        self.push(ret_addr);
        self.cursor = t;
        Ok(Event::Running)
    }

    /// The ret opcode: pop an address and jump to it; an empty stack is a
    /// graceful halt.
    fn step_ret(&mut self) -> (r: Result<Event, VmError>)
        requires
            old(self).wf(),
            old(self)@.cursor <= 32767,
            old(self)@.memory[old(self)@.cursor as int] == 18,
        ensures
            final(self).wf(),
            (final(self)@, r) == step_opcode(old(self)@, 18),
    {
        match self.pop() {
            None => Ok(Event::Halted(self.cursor)),
            Some(t) => {
                self.cursor = t;
                Ok(Event::Running)
            }
        }
    }

    /// The out opcode: the caller is asked to emit the low 8 bits of the
    /// resolved value.
    fn step_out(&mut self) -> (r: Result<Event, VmError>)
        requires
            old(self).wf(),
            old(self)@.cursor <= 32766,
            old(self)@.memory[old(self)@.cursor as int] == 19,
        ensures
            final(self).wf(),
            (final(self)@, r) == step_opcode(old(self)@, 19),
    {
        let w1 = self.fetch(self.cursor + 1);
        let v = match self.resolve(w1) {
            Ok(v) => v,
            Err(e) => return Err(e),
        };
        self.cursor = self.cursor + 2;
        Ok(Event::Output(v & 0xff))
    }

    /// The in opcode: the raw destination receives the next queued
    /// character code; with an empty queue the machine is left unchanged
    /// and the caller must feed a line before stepping again.
    fn step_in(&mut self) -> (r: Result<Event, VmError>)
        requires
            old(self).wf(),
            old(self)@.cursor <= 32766,
            old(self)@.memory[old(self)@.cursor as int] == 20,
        ensures
            final(self).wf(),
            (final(self)@, r) == step_opcode(old(self)@, 20),
    {
        let w1 = self.fetch(self.cursor + 1);
        if self.input.len() == 0 {
            return Ok(Event::NeedInput);
        }
        let ch = self.input[0];
        match self.write(w1, ch) {
            Ok(()) => {}
            Err(e) => return Err(e),
        }
        let _ = self.input.remove(0);
        self.cursor = self.cursor + 2;
        Ok(Event::Running)
    }
}

/// The number of operand words that follow an opcode.
fn arity_of(op: u16) -> (r: u16)
    ensures
        r == opcode_arity(op),
{
    match op {
        4 | 5 | 9 | 10 | 11 | 12 | 13 => 3,
        1 | 7 | 8 | 14 | 15 | 16 => 2,
        2 | 3 | 6 | 17 | 19 | 20 => 1,
        _ => 0,
    }
}

/// The value a three-operand computing opcode stores, from its two
/// resolved value operands.
fn compute_binop(op: u16, b: u16, c: u16) -> (r: Result<u16, VmError>)
    requires
        op == 4 || op == 5 || op == 9 || op == 10 || op == 11 || op == 12 || op == 13,
    ensures
        r == binop_value(op, b, c),
{
    if op == 4 {
        Ok(if b == c { 1 } else { 0 })
    } else if op == 5 {
        Ok(if b > c { 1 } else { 0 })
    } else if op == 9 {
        Ok(((b as u32 + c as u32) % 32768) as u16)
    } else if op == 10 {
        proof {
            assert((b as int) * (c as int) <= 65535 * 65535) by (nonlinear_arith)
                requires
                    b <= 65535,
                    c <= 65535,
            ;
        }
        Ok((((b as u64) * (c as u64)) % 32768) as u16)
    } else if op == 11 {
        if c == 0 {
            Err(VmError::DivideByZero)
        } else {
            Ok(b % c)
        }
    } else if op == 12 {
        Ok(b & c)
    } else {
        Ok(b | c)
    }
}

} // verus!
