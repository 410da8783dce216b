use vm16::machine::Machine;
use vm16::outcome::Event;
use vm16::outcome::VmError;

#[test]
fn add_wraps_modulo_32768() {
    // add r0, 32760, 20
    let program: Vec<u16> = vec![9, 32768, 32760, 20, 0];
    let mut m = Machine::new(&program);
    assert_eq!(m.step(), Ok(Event::Running));
    assert_eq!(m.read(32768), Ok(12));
    assert_eq!(m.step(), Ok(Event::Halted(4)));
}

#[test]
fn mult_wraps_modulo_32768() {
    // mult r0, 300, 200: 60000 mod 32768 == 27232
    let program: Vec<u16> = vec![10, 32768, 300, 200, 0];
    let mut m = Machine::new(&program);
    assert_eq!(m.step(), Ok(Event::Running));
    assert_eq!(m.read(32768), Ok(27232));
}

#[test]
fn mod_opcode_remainder() {
    // mod r0, 17, 5
    let program: Vec<u16> = vec![11, 32768, 17, 5, 0];
    let mut m = Machine::new(&program);
    assert_eq!(m.step(), Ok(Event::Running));
    assert_eq!(m.read(32768), Ok(2));
}

#[test]
fn mod_by_zero_is_fatal() {
    let program: Vec<u16> = vec![11, 32768, 7, 0];
    let mut m = Machine::new(&program);
    assert_eq!(m.step(), Err(VmError::DivideByZero));
}

#[test]
fn gt_stores_flag() {
    let program: Vec<u16> = vec![5, 32768, 9, 5, 0];
    let mut m = Machine::new(&program);
    assert_eq!(m.step(), Ok(Event::Running));
    assert_eq!(m.read(32768), Ok(1));
}

#[test]
fn gt_not_greater_stores_zero() {
    let program: Vec<u16> = vec![5, 32768, 5, 5, 0];
    let mut m = Machine::new(&program);
    assert_eq!(m.step(), Ok(Event::Running));
    assert_eq!(m.read(32768), Ok(0));
}

#[test]
fn bitwise_and_or() {
    // and r0, 12, 10; or r1, 12, 10
    let program: Vec<u16> = vec![12, 32768, 12, 10, 13, 32769, 12, 10, 0];
    let mut m = Machine::new(&program);
    assert_eq!(m.step(), Ok(Event::Running));
    assert_eq!(m.step(), Ok(Event::Running));
    assert_eq!(m.read(32768), Ok(8));
    assert_eq!(m.read(32769), Ok(14));
}

#[test]
fn not_is_fifteen_bit_complement() {
    let program: Vec<u16> = vec![14, 32768, 5, 0];
    let mut m = Machine::new(&program);
    assert_eq!(m.step(), Ok(Event::Running));
    assert_eq!(m.read(32768), Ok(32762));
}

#[test]
fn not_of_zero_is_32767() {
    let program: Vec<u16> = vec![14, 32768, 0, 0];
    let mut m = Machine::new(&program);
    assert_eq!(m.step(), Ok(Event::Running));
    assert_eq!(m.read(32768), Ok(32767));
}

#[test]
fn jmp_is_absolute() {
    let program: Vec<u16> = vec![6, 3, 99, 0];
    let mut m = Machine::new(&program);
    assert_eq!(m.step(), Ok(Event::Running));
    assert_eq!(m.step(), Ok(Event::Halted(3)));
}

#[test]
fn jt_taken_and_not_taken() {
    let taken: Vec<u16> = vec![7, 1, 4, 0, 0];
    let mut m = Machine::new(&taken);
    assert_eq!(m.step(), Ok(Event::Running));
    assert_eq!(m.step(), Ok(Event::Halted(4)));

    let not_taken: Vec<u16> = vec![7, 0, 4, 0, 0];
    let mut m2 = Machine::new(&not_taken);
    assert_eq!(m2.step(), Ok(Event::Running));
    assert_eq!(m2.step(), Ok(Event::Halted(3)));
}

#[test]
fn jf_taken_and_not_taken() {
    let taken: Vec<u16> = vec![8, 0, 4, 0, 0];
    let mut m = Machine::new(&taken);
    assert_eq!(m.step(), Ok(Event::Running));
    assert_eq!(m.step(), Ok(Event::Halted(4)));

    let not_taken: Vec<u16> = vec![8, 1, 4, 0, 0];
    let mut m2 = Machine::new(&not_taken);
    assert_eq!(m2.step(), Ok(Event::Running));
    assert_eq!(m2.step(), Ok(Event::Halted(3)));
}

#[test]
fn push_then_pop_round_trips() {
    // push 42; pop r0; halt
    let program: Vec<u16> = vec![2, 42, 3, 32768, 0];
    let mut m = Machine::new(&program);
    assert_eq!(m.step(), Ok(Event::Running));
    assert_eq!(m.step(), Ok(Event::Running));
    assert_eq!(m.read(32768), Ok(42));
    assert_eq!(m.step(), Ok(Event::Halted(4)));
}

#[test]
fn push_resolves_register_operand() {
    // set r0,9; push r0; pop r1; halt
    let program: Vec<u16> = vec![1, 32768, 9, 2, 32768, 3, 32769, 0];
    let mut m = Machine::new(&program);
    assert_eq!(m.step(), Ok(Event::Running));
    assert_eq!(m.step(), Ok(Event::Running));
    assert_eq!(m.step(), Ok(Event::Running));
    assert_eq!(m.read(32769), Ok(9));
    assert_eq!(m.step(), Ok(Event::Halted(7)));
}

#[test]
fn rmem_reads_through_address() {
    // rmem r0, 5 with memory[5] == 77
    let program: Vec<u16> = vec![15, 32768, 5, 0, 0, 77];
    let mut m = Machine::new(&program);
    assert_eq!(m.step(), Ok(Event::Running));
    assert_eq!(m.read(32768), Ok(77));
    assert_eq!(m.step(), Ok(Event::Halted(3)));
}

#[test]
fn wmem_writes_through_resolved_address() {
    let program: Vec<u16> = vec![16, 6, 99, 0, 0, 0, 0];
    let mut m = Machine::new(&program);
    assert_eq!(m.step(), Ok(Event::Running));
    assert_eq!(m.read(6), Ok(99));
    assert_eq!(m.step(), Ok(Event::Halted(3)));
}

#[test]
fn ret_on_empty_stack_halts_gracefully() {
    let program: Vec<u16> = vec![18];
    let mut m = Machine::new(&program);
    assert_eq!(m.step(), Ok(Event::Halted(0)));
}

#[test]
fn out_emits_low_byte() {
    // 321 & 0xff == 65
    let program: Vec<u16> = vec![19, 321, 0];
    let mut m = Machine::new(&program);
    assert_eq!(m.step(), Ok(Event::Output(65)));
    assert_eq!(m.step(), Ok(Event::Halted(2)));
}

#[test]
fn out_resolves_register_operand() {
    // set r0,72; out r0; halt
    let program: Vec<u16> = vec![1, 32768, 72, 19, 32768, 0];
    let mut m = Machine::new(&program);
    assert_eq!(m.step(), Ok(Event::Running));
    assert_eq!(m.step(), Ok(Event::Output(72)));
    assert_eq!(m.step(), Ok(Event::Halted(5)));
}

#[test]
fn noop_and_unknown_opcodes_advance() {
    let program: Vec<u16> = vec![21, 22, 0];
    let mut m = Machine::new(&program);
    assert_eq!(m.step(), Ok(Event::Running));
    assert_eq!(m.step(), Ok(Event::Running));
    assert_eq!(m.step(), Ok(Event::Halted(2)));
}

#[test]
fn set_to_invalid_address_is_fatal() {
    let program: Vec<u16> = vec![1, 40000, 4];
    let mut m = Machine::new(&program);
    assert_eq!(m.step(), Err(VmError::InvalidAddress));
}

#[test]
fn operand_beyond_registers_is_fatal() {
    let program: Vec<u16> = vec![9, 32768, 40000, 1];
    let mut m = Machine::new(&program);
    assert_eq!(m.step(), Err(VmError::InvalidOperand));
}

#[test]
fn cursor_outside_memory_is_fatal() {
    // rmem r0, 5 loads a word above the address space; jmp r0 lands the
    // cursor outside memory, and the next fetch fails
    let program: Vec<u16> = vec![15, 32768, 5, 6, 32768, 40000];
    let mut m = Machine::new(&program);
    assert_eq!(m.step(), Ok(Event::Running));
    assert_eq!(m.step(), Ok(Event::Running));
    assert_eq!(m.step(), Err(VmError::InvalidAddress));
}

#[test]
fn operand_fetch_past_end_of_memory_is_fatal() {
    // an add opcode in the last memory cell has no room for its operands
    let mut program: Vec<u16> = vec![0; 32768];
    program[0] = 6;
    program[1] = 32767;
    program[32767] = 9;
    let mut m = Machine::new(&program);
    assert_eq!(m.step(), Ok(Event::Running));
    assert_eq!(m.step(), Err(VmError::InvalidAddress));
}
