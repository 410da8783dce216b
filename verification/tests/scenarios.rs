use vm16::machine::Machine;
use vm16::outcome::Event;
use vm16::outcome::VmError;

/// Step the machine until it reports something other than `Running`,
/// collecting emitted character codes along the way.
fn run_collect(m: &mut Machine, fuel: usize) -> (Result<Event, VmError>, Vec<u16>) {
    let mut out: Vec<u16> = Vec::new();
    let mut left = fuel;
    loop {
        assert!(left > 0, "program did not settle within fuel");
        left -= 1;
        match m.step() {
            Ok(Event::Running) => {}
            Ok(Event::Output(ch)) => out.push(ch),
            other => return (other, out),
        }
    }
}

#[test]
fn scenario_equality_true() {
    // set r0,4; set r1,4; eq r2,r0,r1; halt
    let program: Vec<u16> = vec![1, 32768, 4, 1, 32769, 4, 4, 32770, 32768, 32769, 0];
    let mut m = Machine::new(&program);
    let (end, out) = run_collect(&mut m, 10);
    assert_eq!(end, Ok(Event::Halted(10)));
    assert!(out.is_empty());
    assert_eq!(m.read(32770), Ok(1));
}

#[test]
fn scenario_equality_false() {
    // set r0,4; set r1,5; eq r2,r0,r1; halt
    let program: Vec<u16> = vec![1, 32768, 4, 1, 32769, 5, 4, 32770, 32768, 32769, 0];
    let mut m = Machine::new(&program);
    let (end, _) = run_collect(&mut m, 10);
    assert_eq!(end, Ok(Event::Halted(10)));
    assert_eq!(m.read(32770), Ok(0));
}

#[test]
fn scenario_halt_immediately() {
    let program: Vec<u16> = vec![0];
    let mut m = Machine::new(&program);
    assert_eq!(m.step(), Ok(Event::Halted(0)));
    // no further words are consumed: the machine stays put
    assert_eq!(m.step(), Ok(Event::Halted(0)));
}

#[test]
fn scenario_input_line() {
    // in r0; in r1; halt
    let program: Vec<u16> = vec![20, 32768, 20, 32769, 0];
    let mut m = Machine::new(&program);
    assert_eq!(m.step(), Ok(Event::NeedInput));
    // the machine is unchanged: it asks again until a line is fed
    assert_eq!(m.step(), Ok(Event::NeedInput));
    m.feed_line(vec![65, 66, 10]);
    assert_eq!(m.step(), Ok(Event::Running));
    assert_eq!(m.step(), Ok(Event::Running));
    assert_eq!(m.read(32768), Ok(65));
    assert_eq!(m.read(32769), Ok(66));
    assert_eq!(m.step(), Ok(Event::Halted(4)));
}

#[test]
fn scenario_pop_underflow() {
    // pop r0 with an empty stack: fatal underflow, no output first
    let program: Vec<u16> = vec![3, 32768, 0];
    let mut m = Machine::new(&program);
    let (end, out) = run_collect(&mut m, 5);
    assert_eq!(end, Err(VmError::StackUnderflow));
    assert!(out.is_empty());
}

#[test]
fn scenario_call_then_ret_resumes() {
    // call 4; halt; (pad); ret
    let program: Vec<u16> = vec![17, 4, 0, 0, 18];
    let mut m = Machine::new(&program);
    assert_eq!(m.step(), Ok(Event::Running));
    assert_eq!(m.step(), Ok(Event::Running));
    // execution resumed at the instruction following the call
    assert_eq!(m.step(), Ok(Event::Halted(2)));
}

#[test]
fn scenario_output_in_program_order() {
    // out 'H'; out 'i'; halt
    let program: Vec<u16> = vec![19, 72, 19, 105, 0];
    let mut m = Machine::new(&program);
    let (end, out) = run_collect(&mut m, 10);
    assert_eq!(end, Ok(Event::Halted(4)));
    assert_eq!(out, vec![72, 105]);
}

#[test]
fn scenario_self_modifying_program() {
    // wmem 4,0: the program overwrites its own instruction stream, then
    // runs into the word it just wrote
    let program: Vec<u16> = vec![16, 4, 0, 21, 99];
    let mut m = Machine::new(&program);
    assert_eq!(m.step(), Ok(Event::Running));
    assert_eq!(m.read(4), Ok(0));
    assert_eq!(m.step(), Ok(Event::Running));
    assert_eq!(m.step(), Ok(Event::Halted(4)));
}
