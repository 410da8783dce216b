use vstd::prelude::*;

verus! {

/// A fatal condition: execution aborts immediately and the condition is
/// surfaced whole to the caller. None of these are recovered internally.
#[derive(Clone, Copy, Debug, PartialEq, Eq, Structural)]
pub enum VmError {
    /// An address used for a read or a write lies outside 0..=32775.
    InvalidAddress,
    /// A value operand lies outside 0..=32775.
    InvalidOperand,
    /// An explicit pop opcode found the stack empty.
    StackUnderflow,
    /// The mod opcode was given a zero divisor.
    DivideByZero,
    /// The input stream was exhausted or failed while a line was required.
    /// The engine itself never raises this: it belongs to the caller that
    /// performs the blocking read.
    IoFailure,
}

/// What one fetch-decode-execute cycle asks of its caller.
#[derive(Clone, Copy, Debug, PartialEq, Eq, Structural)]
pub enum Event {
    /// The instruction completed; execution continues at the new cursor.
    Running,
    /// Graceful termination (a halt opcode, or a return with an empty
    /// stack); carries the cursor position of the terminating opcode.
    Halted(u16),
    /// An output opcode asks the caller to emit this character code
    /// (already masked to the low 8 bits); execution then continues.
    Output(u16),
    /// An input opcode found the queue empty; the machine is unchanged and
    /// the caller must feed a full line before stepping again.
    NeedInput,
}

} // verus!
