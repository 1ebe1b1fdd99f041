//! Driving the execution core: the dispatch loop, exception routing and
//! cycle accounting, exercised through a small instruction set.

use m68k_core::cpu::Core;
use m68k_core::cpu::IllegalInstructionSet;
use m68k_core::cpu::InstructionSet;
use m68k_core::cycles::Cycles;
use m68k_core::exception::Exception;
use m68k_core::state::ProcessingState;

/// Entry 0x0 jumps away for 20 cycles, entry 0xC jumps home for 16, and
/// every other opcode is illegal.
struct FakeInstructions;

/// The ghost model a verified implementation would prove its handlers
/// against; under test it is the handlers' own effect, and never runs.
fn model_of<S: InstructionSet>(set: &S, opcode: u16, pre: Core) -> (Core, Result<Cycles, Exception>) {
    let mut post = pre;
    let r = set.dispatch(opcode, &mut post);
    (post, r)
}

impl InstructionSet for FakeInstructions {
    fn dispatch_spec(&self, opcode: u16, pre: Core) -> (Core, Result<Cycles, Exception>) {
        model_of(self, opcode, pre)
    }

    fn dispatch(&self, opcode: u16, core: &mut Core) -> Result<Cycles, Exception> {
        match opcode {
            0x0 => {
                core.pc = 0xbad;
                Ok(Cycles(20))
            }
            0xc => {
                core.pc = 0x0;
                Ok(Cycles(16))
            }
            _ => Err(Exception::IllegalInstruction(core.ir, core.pc.wrapping_sub(2))),
        }
    }
}

fn normal_core() -> Core {
    Core {
        ir: 0,
        pc: 0,
        s_flag: 0,
        processing_state: ProcessingState::Normal,
    }
}

#[test]
fn example_cpu_works() {
    let mut f10c = normal_core();

    // execute at least 10 cycles
    let actual_cycles = f10c.execute(&FakeInstructions, 10);
    assert_eq!(Cycles(20), actual_cycles);
    assert_eq!(0xbad, f10c.pc);

    let actual_cycles = f10c.execute(&FakeInstructions, 10);
    assert_eq!(Cycles(50), actual_cycles);
    assert_eq!(0x0c, f10c.pc);

    let actual_cycles = f10c.execute(&FakeInstructions, 10);
    assert_eq!(Cycles(16), actual_cycles);
    assert_eq!(0x00, f10c.pc);

    let ten_laps: i32 = (20 + 50 + 16) * 10;
    let actual_cycles = f10c.execute(&FakeInstructions, ten_laps);
    assert_eq!(Cycles(ten_laps), actual_cycles);
    assert_eq!(0x00, f10c.pc);
}

#[test]
fn overshoot_is_credited() {
    let mut core = normal_core();
    let reported = core.execute(&FakeInstructions, 10);
    assert_eq!(Cycles(20), reported);
}

#[test]
fn stopped_core_consumes_whole_budget() {
    let mut core = normal_core();
    core.processing_state = ProcessingState::Stopped;
    let reported = core.execute(&FakeInstructions, 10);
    assert_eq!(Cycles(10), reported);
    assert_eq!(ProcessingState::Stopped, core.processing_state);
    assert_eq!(0, core.pc);
}

#[test]
fn empty_budget_runs_nothing() {
    let mut core = normal_core();
    let reported = core.execute(&FakeInstructions, 0);
    assert_eq!(Cycles(0), reported);
    assert_eq!(0, core.pc);
    assert_eq!(ProcessingState::Normal, core.processing_state);
}

#[test]
fn illegal_instruction_is_routed() {
    let mut core = normal_core();
    core.pc = 2;
    let reported = core.execute(&FakeInstructions, 10);
    // opcode 0x0002 has no handler: vector 4, 34 cycles, group 1
    assert_eq!(Cycles(34), reported);
    assert_eq!(16, core.pc);
    assert_eq!(ProcessingState::Group1Exception, core.processing_state);
    assert_eq!(2, core.ir);
}

#[test]
fn odd_pc_fetch_fails_without_advancing() {
    let mut core = normal_core();
    core.pc = 0xbad;
    match core.read_imm_u16() {
        Err(Exception::AddressError { address, .. }) => assert_eq!(0xbad, address),
        _ => panic!("an odd program counter must raise an address error"),
    }
    assert_eq!(0xbad, core.pc);
}

#[test]
fn even_pc_fetch_advances_by_two() {
    let mut core = normal_core();
    core.pc = 0x44;
    match core.read_imm_u16() {
        Ok(word) => assert_eq!(0x44, word),
        Err(_) => panic!("an even program counter must fetch"),
    }
    assert_eq!(0x46, core.pc);
}

/// Every opcode traps through vector 32 after a 5-cycle effective-address
/// calculation.
struct TrapInstructions;

impl InstructionSet for TrapInstructions {
    fn dispatch_spec(&self, opcode: u16, pre: Core) -> (Core, Result<Cycles, Exception>) {
        model_of(self, opcode, pre)
    }

    fn dispatch(&self, _opcode: u16, _core: &mut Core) -> Result<Cycles, Exception> {
        Err(Exception::Trap(32, 5))
    }
}

#[test]
fn trap_is_routed() {
    let mut core = normal_core();
    let reported = core.execute(&TrapInstructions, 3);
    assert_eq!(Cycles(5), reported);
    assert_eq!(128, core.pc);
    assert_eq!(ProcessingState::Group2Exception, core.processing_state);
}

/// Every opcode violates privilege.
struct PrivilegedInstructions;

impl InstructionSet for PrivilegedInstructions {
    fn dispatch_spec(&self, opcode: u16, pre: Core) -> (Core, Result<Cycles, Exception>) {
        model_of(self, opcode, pre)
    }

    fn dispatch(&self, _opcode: u16, core: &mut Core) -> Result<Cycles, Exception> {
        Err(Exception::PrivilegeViolation(core.ir, core.pc.wrapping_sub(2)))
    }
}

#[test]
fn privilege_violation_is_routed() {
    let mut core = normal_core();
    let reported = core.execute(&PrivilegedInstructions, 10);
    assert_eq!(Cycles(34), reported);
    assert_eq!(32, core.pc);
    assert_eq!(ProcessingState::Group1Exception, core.processing_state);
}

/// Every opcode is recognized but unimplemented, on vector 11.
struct UnimplementedInstructions;

impl InstructionSet for UnimplementedInstructions {
    fn dispatch_spec(&self, opcode: u16, pre: Core) -> (Core, Result<Cycles, Exception>) {
        model_of(self, opcode, pre)
    }

    fn dispatch(&self, _opcode: u16, core: &mut Core) -> Result<Cycles, Exception> {
        Err(Exception::UnimplementedInstruction(core.ir, core.pc.wrapping_sub(2), 11))
    }
}

#[test]
fn unimplemented_instruction_is_routed() {
    let mut core = normal_core();
    let reported = core.execute(&UnimplementedInstructions, 10);
    assert_eq!(Cycles(34), reported);
    assert_eq!(44, core.pc);
    assert_eq!(ProcessingState::Group2Exception, core.processing_state);
}

#[test]
fn default_table_raises_illegal_instruction() {
    let mut core = normal_core();
    core.pc = 6;
    let reported = core.execute(&IllegalInstructionSet, 1);
    assert_eq!(Cycles(34), reported);
    assert_eq!(16, core.pc);
    assert_eq!(ProcessingState::Group1Exception, core.processing_state);
    assert_eq!(6, core.ir);
}

#[test]
fn handle_exception_indexes_the_vector_table() {
    let mut core = normal_core();
    let cost = core.handle_exception(ProcessingState::Group2Exception, 0x1234, 64, 17);
    assert_eq!(Cycles(17), cost);
    assert_eq!(256, core.pc);
    assert_eq!(ProcessingState::Group2Exception, core.processing_state);
}
