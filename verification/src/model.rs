//! Mathematical model of the machine and of one execution step.
//!
//! `MachineModel` is the ghost view of the executable `Machine`; the spec
//! functions here define the unified memory/register address split, operand
//! resolution, and the full transition made by one fetch-decode-execute
//! cycle (`step_spec`). The executable code is verified against these
//! definitions, and the library's laws are stated over them.

use vstd::prelude::*;

use crate::outcome::Event;
use crate::outcome::VmError;

verus! {

/// Number of memory cells; memory addresses are 0..=32767.
pub const MEM_WORDS: usize = 32768;

/// Number of registers; register addresses are 32768..=32775.
pub const REG_COUNT: usize = 8;

/// Ghost view of the whole machine state.
#[verifier::ext_equal]
pub struct MachineModel {
    /// Flat word-addressable memory, addresses 0..=32767.
    pub memory: Seq<u16>,
    /// The eight registers, addressed as 32768..=32775.
    pub registers: Seq<u16>,
    /// Operand stack; the top is the last element.
    pub stack: Seq<u16>,
    /// Index into memory of the next opcode to fetch.
    pub cursor: u16,
    /// Pending input character codes, next to be consumed first.
    pub input: Seq<u16>,
}

impl MachineModel {
    /// The stores always have their fixed sizes.
    pub open spec fn wf(self) -> bool {
        self.memory.len() == MEM_WORDS && self.registers.len() == REG_COUNT
    }
}

/// An address that names a memory cell.
pub open spec fn is_mem_addr(a: u16) -> bool {
    a <= 32767
}

/// An address that names one of the eight registers.
pub open spec fn is_reg_addr(a: u16) -> bool {
    32768 <= a && a <= 32775
}

/// The unified read: memory for 0..=32767, registers for 32768..=32775,
/// `InvalidAddress` beyond.
pub open spec fn read_spec(m: MachineModel, a: u16) -> Result<u16, VmError> {
    if is_mem_addr(a) {
        Ok(m.memory[a as int])
    } else if is_reg_addr(a) {
        Ok(m.registers[a - 32768])
    } else {
        Err(VmError::InvalidAddress)
    }
}

/// The unified write: the same address split as `read_spec`; everything
/// else about the state is kept.
pub open spec fn write_spec(m: MachineModel, a: u16, v: u16) -> Result<MachineModel, VmError> {
    if is_mem_addr(a) {
        Ok(MachineModel { memory: m.memory.update(a as int, v), ..m })
    } else if is_reg_addr(a) {
        Ok(MachineModel { registers: m.registers.update(a - 32768, v), ..m })
    } else {
        Err(VmError::InvalidAddress)
    }
}

/// A raw word used as a value operand: itself if 0..=32767 (a literal),
/// the named register's content if 32768..=32775, `InvalidOperand` beyond.
pub open spec fn resolve_spec(m: MachineModel, w: u16) -> Result<u16, VmError> {
    if w <= 32767 {
        Ok(w)
    } else if is_reg_addr(w) {
        Ok(m.registers[w - 32768])
    } else {
        Err(VmError::InvalidOperand)
    }
}

/// How many operand words follow an opcode. An unrecognized opcode is a
/// no-op and takes none.
pub open spec fn opcode_arity(op: u16) -> u16 {
    if op == 4 || op == 5 || op == 9 || op == 10 || op == 11 || op == 12 || op == 13 {
        3
    } else if op == 1 || op == 7 || op == 8 || op == 14 || op == 15 || op == 16 {
        2
    } else if op == 2 || op == 3 || op == 6 || op == 17 || op == 19 || op == 20 {
        1
    } else {
        0
    }
}

/// The add opcode's value: the sum taken modulo 32768.
pub open spec fn add_value(b: u16, c: u16) -> u16 {
    ((b + c) % 32768) as u16
}

/// The mult opcode's value: the product taken modulo 32768.
pub open spec fn mult_value(b: u16, c: u16) -> u16 {
    ((b * c) % 32768) as u16
}

/// The not opcode's value: the 15-bit bitwise complement of `b`.
pub open spec fn not_value(b: u16) -> u16 {
    !b & 0x7fff
}

/// The character code the out opcode emits: the low 8 bits of the value.
pub open spec fn out_value(v: u16) -> u16 {
    v & 0xff
}

/// The value a three-operand computing opcode stores, from its two
/// resolved value operands; `DivideByZero` for mod with a zero divisor.
pub open spec fn binop_value(op: u16, b: u16, c: u16) -> Result<u16, VmError>
    recommends
        op == 4 || op == 5 || op == 9 || op == 10 || op == 11 || op == 12 || op == 13,
{
    if op == 4 {
        Ok(if b == c { 1u16 } else { 0u16 })
    } else if op == 5 {
        Ok(if b > c { 1u16 } else { 0u16 })
    } else if op == 9 {
        Ok(add_value(b, c))
    } else if op == 10 {
        Ok(mult_value(b, c))
    } else if op == 11 {
        if c == 0 {
            Err(VmError::DivideByZero)
        } else {
            Ok((b % c) as u16)
        }
    } else if op == 12 {
        Ok(b & c)
    } else {
        Ok(b | c)
    }
}

/// The state after an instruction of the given operand count that did not
/// jump: the cursor moves past the opcode and its operands.
pub open spec fn advance(m: MachineModel, ar: u16) -> MachineModel
    recommends
        m.cursor + 1 + ar <= u16::MAX,
{
    MachineModel { cursor: (m.cursor + 1 + ar) as u16, ..m }
}

/// The state with the cursor set to an absolute target.
pub open spec fn jump(m: MachineModel, target: u16) -> MachineModel {
    MachineModel { cursor: target, ..m }
}

/// The transition of the opcode at the cursor, once the opcode and its
/// operand words are known to lie inside memory. Pairs the state after the
/// instruction with its outcome; on a fatal error the state is the one at
/// the point of failure, which is unchanged (every check precedes every
/// mutation).
pub open spec fn step_opcode(m: MachineModel, op: u16) -> (MachineModel, Result<Event, VmError>)
    recommends
        m.wf(),
        m.cursor + opcode_arity(op) <= 32767,
{
    let pc = m.cursor as int;
    if op == 0 {
        // halt: graceful termination, reporting the cursor position
        (m, Ok(Event::Halted(m.cursor)))
    } else if op == 1 {
        // set: dest (raw) receives the resolved second operand
        match resolve_spec(m, m.memory[pc + 2]) {
            Err(e) => (m, Err(e)),
            Ok(b) => match write_spec(m, m.memory[pc + 1], b) {
                Err(e) => (m, Err(e)),
                Ok(m2) => (advance(m2, 2), Ok(Event::Running)),
            },
        }
    } else if op == 2 {
        // push the resolved sole operand
        match resolve_spec(m, m.memory[pc + 1]) {
            Err(e) => (m, Err(e)),
            Ok(v) => (advance(MachineModel { stack: m.stack.push(v), ..m }, 1), Ok(Event::Running)),
        }
    } else if op == 3 {
        // pop into dest (raw); an empty stack is a fatal underflow
        if m.stack.len() == 0 {
            (m, Err(VmError::StackUnderflow))
        } else {
            match write_spec(m, m.memory[pc + 1], m.stack.last()) {
                Err(e) => (m, Err(e)),
                Ok(m2) => (advance(MachineModel { stack: m2.stack.drop_last(), ..m2 }, 1), Ok(Event::Running)),
            }
        }
    } else if op == 4 || op == 5 || op == 9 || op == 10 || op == 11 || op == 12 || op == 13 {
        // eq, gt, add, mult, mod, and, or: dest (raw), two resolved values
        match resolve_spec(m, m.memory[pc + 2]) {
            Err(e) => (m, Err(e)),
            Ok(b) => match resolve_spec(m, m.memory[pc + 3]) {
                Err(e) => (m, Err(e)),
                Ok(c) => match binop_value(op, b, c) {
                    Err(e) => (m, Err(e)),
                    Ok(v) => match write_spec(m, m.memory[pc + 1], v) {
                        Err(e) => (m, Err(e)),
                        Ok(m2) => (advance(m2, 3), Ok(Event::Running)),
                    },
                },
            },
        }
    } else if op == 6 {
        // jmp: absolute jump to the resolved target
        match resolve_spec(m, m.memory[pc + 1]) {
            Err(e) => (m, Err(e)),
            Ok(t) => (jump(m, t), Ok(Event::Running)),
        }
    } else if op == 7 || op == 8 {
        // jt / jf: conditional absolute jump; the target is resolved only
        // on a taken branch
        match resolve_spec(m, m.memory[pc + 1]) {
            Err(e) => (m, Err(e)),
            Ok(a) => if (op == 7 && a != 0) || (op == 8 && a == 0) {
                match resolve_spec(m, m.memory[pc + 2]) {
                    Err(e) => (m, Err(e)),
                    Ok(t) => (jump(m, t), Ok(Event::Running)),
                }
            } else {
                (advance(m, 2), Ok(Event::Running))
            },
        }
    } else if op == 14 {
        // not: dest (raw) receives the 15-bit complement of the value
        match resolve_spec(m, m.memory[pc + 2]) {
            Err(e) => (m, Err(e)),
            Ok(b) => match write_spec(m, m.memory[pc + 1], not_value(b)) {
                Err(e) => (m, Err(e)),
                Ok(m2) => (advance(m2, 2), Ok(Event::Running)),
            },
        }
    } else if op == 15 {
        // rmem: dest (raw) receives the word at the resolved address
        match resolve_spec(m, m.memory[pc + 2]) {
            Err(e) => (m, Err(e)),
            Ok(src) => match read_spec(m, src) {
                Err(e) => (m, Err(e)),
                Ok(v) => match write_spec(m, m.memory[pc + 1], v) {
                    Err(e) => (m, Err(e)),
                    Ok(m2) => (advance(m2, 2), Ok(Event::Running)),
                },
            },
        }
    } else if op == 16 {
        // wmem: the first operand is resolved and then used as the address
        match resolve_spec(m, m.memory[pc + 1]) {
            Err(e) => (m, Err(e)),
            Ok(dst) => match resolve_spec(m, m.memory[pc + 2]) {
                Err(e) => (m, Err(e)),
                Ok(v) => match write_spec(m, dst, v) {
                    Err(e) => (m, Err(e)),
                    Ok(m2) => (advance(m2, 2), Ok(Event::Running)),
                },
            },
        }
    } else if op == 17 {
        // call: push the address of the following instruction, then jump
        match resolve_spec(m, m.memory[pc + 1]) {
            Err(e) => (m, Err(e)),
            Ok(t) => (jump(MachineModel { stack: m.stack.push((m.cursor + 2) as u16), ..m }, t), Ok(Event::Running)),
        }
    } else if op == 18 {
        // ret: pop an address and jump to it; an empty stack is a
        // graceful halt
        if m.stack.len() == 0 {
            (m, Ok(Event::Halted(m.cursor)))
        } else {
            (jump(MachineModel { stack: m.stack.drop_last(), ..m }, m.stack.last()), Ok(Event::Running))
        }
    } else if op == 19 {
        // out: ask the caller to emit the low 8 bits of the value
        match resolve_spec(m, m.memory[pc + 1]) {
            Err(e) => (m, Err(e)),
            Ok(v) => (advance(m, 1), Ok(Event::Output(out_value(v)))),
        }
    } else if op == 20 {
        // in: dest (raw) receives the next queued character code; with an
        // empty queue the machine is unchanged and the caller must feed a
        // line
        if m.input.len() == 0 {
            (m, Ok(Event::NeedInput))
        } else {
            match write_spec(m, m.memory[pc + 1], m.input[0]) {
                Err(e) => (m, Err(e)),
                Ok(m2) => (advance(MachineModel { input: m2.input.remove(0), ..m2 }, 1), Ok(Event::Running)),
            }
        }
    } else {
        // noop, and any unrecognized opcode: no effect beyond advancing
        (advance(m, 0), Ok(Event::Running))
    }
}

/// One full fetch-decode-execute cycle: fetching the opcode or any of its
/// operand words from outside memory is a fatal `InvalidAddress`; otherwise
/// the opcode's own transition applies.
pub open spec fn step_spec(m: MachineModel) -> (MachineModel, Result<Event, VmError>)
    recommends
        m.wf(),
{
    if m.cursor > 32767 {
        (m, Err(VmError::InvalidAddress))
    } else {
        let op = m.memory[m.cursor as int];
        if m.cursor + opcode_arity(op) > 32767 {
            (m, Err(VmError::InvalidAddress))
        } else {
            step_opcode(m, op)
        }
    }
}

} // verus!
