//! The execution core: instruction fetch, the handler dispatch interface,
//! the exception processor, and the fetch/decode/dispatch loop that spends a
//! cycle budget.

use vstd::prelude::*;
use crate::cycles::Cycles;
use crate::cycles::sat_i32;
use crate::exception::Exception;
use crate::exception::EXCEPTION_ADDRESS_ERROR;
use crate::exception::EXCEPTION_ILLEGAL_INSTRUCTION;
use crate::exception::EXCEPTION_PRIVILEGE_VIOLATION;
use crate::space::AccessType;
use crate::space::AddressSpace;
use crate::space::Mode;
use crate::space::Segment;
use crate::state::ProcessingState;

verus! {

/// The core's machine state: instruction register, program counter,
/// supervisor flag (non-zero means supervisor mode) and processing state.
/// The dispatch table is handed to `execute` separately, so that handlers
/// can borrow the whole core.
#[derive(Clone, Copy, Debug, PartialEq, Eq, Structural)]
pub struct Core {
    pub ir: u16,
    pub pc: u32,
    pub s_flag: u32,
    pub processing_state: ProcessingState,
}

/// What one fetch does to the core: on an even program counter it returns
/// the word read at it and advances the counter by two; on an odd one it
/// raises an address error and leaves the core as it was.
pub open spec fn fetch_spec(c: Core) -> (Core, Result<u16, Exception>) {
    if c.pc % 2 == 1 {
        (
            c,
            Err(
                Exception::AddressError {
                    address: c.pc,
                    access_type: AccessType::Read,
                    processing_state: c.processing_state,
                    address_space: AddressSpace::program_space(c.s_flag),
                },
            ),
        )
    } else {
        (Core { pc: c.pc.wrapping_add(2), ..c }, Ok(c.pc as u16))
    }
}

/// What entering an exception handler does to the core: the new processing
/// state is taken, the program counter is pointed at the handler by
/// vector-table indexing, and the entry's cycle cost is reported.
pub open spec fn exception_entry(
    c: Core,
    new_state: ProcessingState,
    vector: u8,
    cycles: i32,
) -> (Core, Cycles) {
    (Core { processing_state: new_state, pc: (vector * 4) as u32, ..c }, Cycles(cycles))
}

/// How each exception kind is routed through the exception processor: which
/// state it enters, which vector it takes, and what it costs.
pub open spec fn fault_spec(c: Core, e: Exception) -> (Core, Cycles) {
    match e {
        Exception::AddressError { .. } => exception_entry(
            c,
            ProcessingState::Group1Exception,
            EXCEPTION_ADDRESS_ERROR,
            50,
        ),
        Exception::IllegalInstruction(_, _) => exception_entry(
            c,
            ProcessingState::Group1Exception,
            EXCEPTION_ILLEGAL_INSTRUCTION,
            34,
        ),
        Exception::Trap(num, ea_cycles) => exception_entry(
            c,
            ProcessingState::Group2Exception,
            num,
            ea_cycles,
        ),
        Exception::PrivilegeViolation(_, _) => exception_entry(
            c,
            ProcessingState::Group1Exception,
            EXCEPTION_PRIVILEGE_VIOLATION,
            34,
        ),
        Exception::UnimplementedInstruction(_, _, vector) => exception_entry(
            c,
            ProcessingState::Group2Exception,
            vector,
            34,
        ),
    }
}

/// A handler's report makes progress: a successful handler costs at least
/// one cycle, and a trap records at least one cycle of effective-address
/// calculation, so that a finite budget is always drained.
pub open spec fn reports_progress(r: Result<Cycles, Exception>) -> bool {
    match r {
        Ok(c) => c.0 >= 1,
        Err(e) => match e {
            Exception::Trap(_, ea_cycles) => ea_cycles >= 1,
            _ => true,
        },
    }
}

/// The dispatch table: 65,536 operation handlers indexed by opcode.  The
/// instruction set proper is an external collaborator; the core only asks
/// that each handler behave as its own model `dispatch_spec` says, and that
/// it report progress — at least one cycle per successful handler and per
/// trap, which is what lets the execution loop's termination be proved.
pub trait InstructionSet: Sized {
    /// The model of the handler at `opcode`: the core it leaves behind and
    /// the result it reports, as a function of the core it was handed.
    spec fn dispatch_spec(&self, opcode: u16, pre: Core) -> (Core, Result<Cycles, Exception>);

    /// Runs the handler at `opcode` on the core.  A successful handler
    /// reports its own cycle cost; a failing one reports the exception to
    /// route through the exception processor.
    fn dispatch(&self, opcode: u16, core: &mut Core) -> (r: Result<Cycles, Exception>)
        ensures
            (*final(core), r) == self.dispatch_spec(opcode, *old(core)),
            reports_progress(r),
    ;
}

/// The table entry every opcode defaults to when the instruction-set
/// builder defines nothing else: it raises an illegal-instruction exception
/// recording the instruction register and the address the opcode was
/// fetched from.
pub struct IllegalInstructionSet;

impl InstructionSet for IllegalInstructionSet {
    open spec fn dispatch_spec(&self, opcode: u16, pre: Core) -> (Core, Result<Cycles, Exception>) {
        (pre, Err(Exception::IllegalInstruction(pre.ir, pre.pc.wrapping_sub(2))))
    }

    fn dispatch(&self, opcode: u16, core: &mut Core) -> (r: Result<Cycles, Exception>) {
        Err(Exception::IllegalInstruction(core.ir, core.pc.wrapping_sub(2)))
    }
}

/// One turn of the execution loop: fetch, dispatch, route any exception,
/// and charge the cycles used against the remaining budget.
pub open spec fn step_spec<S: InstructionSet>(s: S, c: Core, rem: int) -> (Core, int) {
    let (fetched, fetch_result) = fetch_spec(c);
    match fetch_result {
        Ok(opcode) => {
            let decoded = Core { ir: opcode, ..fetched };
            let (dispatched, dispatch_result) = s.dispatch_spec(opcode, decoded);
            match dispatch_result {
                Ok(used) => (dispatched, sat_i32(rem - used.0)),
                Err(e) => {
                    let (faulted, used) = fault_spec(dispatched, e);
                    (faulted, sat_i32(rem - used.0))
                },
            }
        },
        Err(e) => {
            let (faulted, used) = fault_spec(fetched, e);
            (faulted, sat_i32(rem - used.0))
        },
    }
}

/// The configuration `n` turns of the loop reach from `(c, rem)`.
pub open spec fn run_steps<S: InstructionSet>(s: S, c: Core, rem: int, n: nat) -> (Core, int)
    decreases n,
{
    if n == 0 {
        (c, rem)
    } else {
        let (c1, rem1) = step_spec(s, c, rem);
        run_steps(s, c1, rem1, (n - 1) as nat)
    }
}

/// A configuration the loop keeps going from: budget remains and the core
/// is running.
pub open spec fn mid_run(p: (Core, int)) -> bool {
    p.1 > 0 && p.0.processing_state.is_running()
}

/// What `execute` reports for a budget, the remaining count at loop exit
/// and the final run state: while running, the cycles spent; when stopped
/// or halted, the whole budget together with any overshoot.
pub open spec fn consumed_spec(budget: int, rem: int, running: bool) -> int {
    if running {
        sat_i32(budget - rem)
    } else {
        sat_i32(budget - (if rem < 0 { rem } else { 0 }))
    }
}

/// The whole of one `execute` call: from `(c0, budget)` the loop takes `n`
/// turns, each from a configuration it keeps going from, ends in a
/// configuration it does not, leaves the core at `cf` and reports
/// `consumed`.
pub open spec fn execute_run<S: InstructionSet>(
    s: S,
    c0: Core,
    budget: int,
    n: nat,
    cf: Core,
    consumed: int,
) -> bool {
    let p = run_steps(s, c0, budget, n);
    &&& forall|m: nat| m < n ==> mid_run(#[trigger] run_steps(s, c0, budget, m))
    &&& p.0 == cf
    &&& !mid_run(p)
    &&& consumed == consumed_spec(budget, p.1, cf.processing_state.is_running())
}

/// Taking one more turn is taking the last reached configuration one step
/// further.
pub proof fn lemma_run_steps_snoc<S: InstructionSet>(s: S, c: Core, rem: int, n: nat)
    ensures
        run_steps(s, c, rem, n + 1) == step_spec(s, run_steps(s, c, rem, n).0, run_steps(s, c, rem, n).1),
    decreases n,
{
    let (c1, rem1) = step_spec(s, c, rem);
    assert(run_steps(s, c, rem, n + 1) == run_steps(s, c1, rem1, n));
    if n == 0 {
        assert(run_steps(s, c1, rem1, 0) == (c1, rem1));
        assert(run_steps(s, c, rem, 0) == (c, rem));
    } else {
        lemma_run_steps_snoc(s, c1, rem1, (n - 1) as nat);
        assert(run_steps(s, c, rem, n) == run_steps(s, c1, rem1, (n - 1) as nat));
    }
}

/// The remaining budget, or zero once it is drained: the loop's measure.
pub open spec fn budget_left(rem: int) -> int {
    if rem > 0 {
        rem
    } else {
        0
    }
}

/// A stretch of `n` loop turns in which budget remains throughout, every
/// fetch and every handler succeeds, and the state stays `Normal`.
pub open spec fn ok_normal_run<S: InstructionSet>(s: S, c: Core, rem: int, n: nat) -> bool
    decreases n,
{
    n == 0 || {
        let (fetched, fetch_result) = fetch_spec(c);
        &&& rem > 0
        &&& c.processing_state is Normal
        &&& (fetch_result matches Ok(opcode) && {
            let decoded = Core { ir: opcode, ..fetched };
            let (dispatched, dispatch_result) = s.dispatch_spec(opcode, decoded);
            &&& (dispatch_result matches Ok(used) && used.0 >= 1)
            &&& dispatched.processing_state is Normal
            &&& ok_normal_run(s, step_spec(s, c, rem).0, step_spec(s, c, rem).1, (n - 1) as nat)
        })
    }
}

/// The sum of the cycle counts the handlers report over `n` loop turns.
pub open spec fn handler_cycles_sum<S: InstructionSet>(s: S, c: Core, rem: int, n: nat) -> int
    decreases n,
{
    if n == 0 {
        0
    } else {
        let (fetched, fetch_result) = fetch_spec(c);
        let this = match fetch_result {
            Ok(opcode) => {
                match s.dispatch_spec(opcode, Core { ir: opcode, ..fetched }).1 {
                    Ok(used) => used.0 as int,
                    Err(_) => 0,
                }
            },
            Err(_) => 0,
        };
        this + handler_cycles_sum(s, step_spec(s, c, rem).0, step_spec(s, c, rem).1, (n - 1) as nat)
    }
}

/// Over a stretch in which no exception is raised and the state remains
/// `Normal`, the budget drops by exactly the sum of the cycle counts the
/// handlers report, and that sum counts at least one cycle per turn.
pub proof fn lemma_run_sums_handler_cycles<S: InstructionSet>(s: S, c: Core, rem: int, n: nat)
    requires
        ok_normal_run(s, c, rem, n),
        rem <= i32::MAX,
    ensures
        run_steps(s, c, rem, n).1 == rem - handler_cycles_sum(s, c, rem, n),
        handler_cycles_sum(s, c, rem, n) >= n,
        n > 0 ==> run_steps(s, c, rem, n).0.processing_state is Normal,
    decreases n,
{
    if n > 0 {
        let (c1, rem1) = step_spec(s, c, rem);
        lemma_run_sums_handler_cycles(s, c1, rem1, (n - 1) as nat);
    }
}

/// When no exception is raised and the state remains `Normal` throughout,
/// an `execute` call reports exactly the sum of the cycle counts its
/// handlers returned, whenever that sum is representable.
pub proof fn lemma_execute_reports_handler_sum<S: InstructionSet>(
    s: S,
    c0: Core,
    budget: int,
    n: nat,
    cf: Core,
    consumed: int,
)
    requires
        execute_run(s, c0, budget, n, cf, consumed),
        ok_normal_run(s, c0, budget, n),
        0 <= budget <= i32::MAX,
        handler_cycles_sum(s, c0, budget, n) <= i32::MAX,
        n > 0,
    ensures
        consumed == handler_cycles_sum(s, c0, budget, n),
{
    lemma_run_sums_handler_cycles(s, c0, budget, n);
}

impl Core {
    /// The bus read the core fetches through.  The memory system proper is
    /// an external collaborator; this core stands in a bus that hands back
    /// the low word of the address, which is enough to drive a dispatch
    /// table.
    #[allow(unused_variables)]
    pub fn read_word(&self, space: AddressSpace, address: u32) -> (r: u16)
        ensures
            r == address as u16,
    {
        #[verifier::truncate] (address as u16)
    }

    /// Fetches the 16-bit word at the program counter in the program space
    /// of the current privilege level and advances the counter by two.  An
    /// odd program counter raises an address error instead and the counter
    /// does not move.
    pub fn read_imm_u16(&mut self) -> (r: Result<u16, Exception>)
        ensures
            *final(self) == fetch_spec(*old(self)).0,
            r == fetch_spec(*old(self)).1,
            old(self).pc % 2 == 0 ==> r is Ok && final(self).pc == old(self).pc.wrapping_add(2),
            old(self).pc % 2 == 1 ==> r is Err && *final(self) == *old(self),
    {
        let address_space = if self.s_flag != 0 {
            AddressSpace(Mode::Supervisor, Segment::Program)
        } else {
            AddressSpace(Mode::User, Segment::Program)
        };
        if self.pc % 2 == 1 {
            return Err(
                Exception::AddressError {
                    address: self.pc,
                    access_type: AccessType::Read,
                    address_space,
                    processing_state: self.processing_state,
                },
            );
        }
        let memory_content = self.read_word(address_space, self.pc);
        self.pc = self.pc.wrapping_add(2);
        Ok(memory_content)
    }

    /// The exception processor: applies the state transition, synthesizes
    /// the handler address as `vector * 4`, and reports the entry's cycle
    /// cost.  A faithful machine would instead read the long word at that
    /// vector-table offset from supervisor data space; this core models the
    /// direct value.  The faulting program counter is recorded by the caller
    /// in the exception value and is not consulted here.
    #[allow(unused_variables)]
    pub fn handle_exception(
        &mut self,
        new_state: ProcessingState,
        pc: u32,
        vector: u8,
        cycles: i32,
    ) -> (r: Cycles)
        ensures
            (*final(self), r) == exception_entry(*old(self), new_state, vector, cycles),
            final(self).processing_state == new_state,
            final(self).pc == vector * 4,
            final(self).ir == old(self).ir,
            final(self).s_flag == old(self).s_flag,
            r == Cycles(cycles),
    {
        self.processing_state = new_state;
        self.pc = (vector as u32) * 4;
        Cycles(cycles)
    }

    /// Enters the address-error handler: group 1, vector 3, 50 cycles.
    #[allow(unused_variables)]
    pub fn handle_address_error(
        &mut self,
        bad_address: u32,
        access_type: AccessType,
        processing_state: ProcessingState,
        address_space: AddressSpace,
    ) -> (r: Cycles)
        ensures
            (*final(self), r) == exception_entry(
                *old(self),
                ProcessingState::Group1Exception,
                EXCEPTION_ADDRESS_ERROR,
                50,
            ),
    {
        self.handle_exception(ProcessingState::Group1Exception, bad_address, EXCEPTION_ADDRESS_ERROR, 50)
    }

    /// Enters the handler of an unimplemented instruction's own vector:
    /// group 2, 34 cycles.
    pub fn handle_unimplemented_instruction(&mut self, pc: u32, vector: u8) -> (r: Cycles)
        ensures
            (*final(self), r) == exception_entry(
                *old(self),
                ProcessingState::Group2Exception,
                vector,
                34,
            ),
    {
        self.handle_exception(ProcessingState::Group2Exception, pc, vector, 34)
    }

    /// Enters the illegal-instruction handler: group 1, vector 4, 34 cycles.
    pub fn handle_illegal_instruction(&mut self, pc: u32) -> (r: Cycles)
        ensures
            (*final(self), r) == exception_entry(
                *old(self),
                ProcessingState::Group1Exception,
                EXCEPTION_ILLEGAL_INSTRUCTION,
                34,
            ),
    {
        self.handle_exception(ProcessingState::Group1Exception, pc, EXCEPTION_ILLEGAL_INSTRUCTION, 34)
    }

    /// Enters the privilege-violation handler: group 1, vector 8, 34 cycles.
    pub fn handle_privilege_violation(&mut self, pc: u32) -> (r: Cycles)
        ensures
            (*final(self), r) == exception_entry(
                *old(self),
                ProcessingState::Group1Exception,
                EXCEPTION_PRIVILEGE_VIOLATION,
                34,
            ),
    {
        self.handle_exception(ProcessingState::Group1Exception, pc, EXCEPTION_PRIVILEGE_VIOLATION, 34)
    }

    /// Enters a trap handler at the trap's own vector: group 2, costing the
    /// cycles its effective-address calculation consumed.
    pub fn handle_trap(&mut self, trap: u8, cycles: i32) -> (r: Cycles)
        ensures
            (*final(self), r) == exception_entry(
                *old(self),
                ProcessingState::Group2Exception,
                trap,
                cycles,
            ),
    {
        let pc = self.pc;
        self.handle_exception(ProcessingState::Group2Exception, pc, trap, cycles)
    }

    /// Drives fetch, dispatch and exception handling until the cycle budget
    /// is spent or the core stops running, and reports the cycles consumed.
    /// The report is never negative; a running core is charged at least the
    /// whole positive budget, overshoot included; a stopped or halted core
    /// swallows the budget untouched.
    pub fn execute<S: InstructionSet>(&mut self, ophandlers: &S, cycles: i32) -> (consumed: Cycles)
        ensures
            exists|n: nat|
                execute_run(*ophandlers, *old(self), cycles as int, n, *final(self), consumed.0 as int),
            consumed.0 >= 0,
            old(self).processing_state.is_running() && cycles > 0 ==> consumed.0 >= cycles,
            !old(self).processing_state.is_running() ==> *final(self) == *old(self) && consumed.0
                == (if cycles > 0 {
                cycles as int
            } else {
                0
            }),
            cycles <= 0 ==> *final(self) == *old(self) && consumed.0 == 0,
    {
        let budget = Cycles(cycles);
        let mut remaining_cycles = budget;
        let ghost mut steps: nat = 0;
        while remaining_cycles.any() && self.processing_state.running()
            invariant
                run_steps(*ophandlers, *old(self), cycles as int, steps) == (
                    *self,
                    remaining_cycles.0 as int,
                ),
                forall|m: nat|
                    m < steps ==> mid_run(
                        #[trigger] run_steps(*ophandlers, *old(self), cycles as int, m),
                    ),
                budget == Cycles(cycles),
            decreases budget_left(remaining_cycles.0 as int),
        {
            let ghost entered = (*self, remaining_cycles.0 as int);
            let result = match self.read_imm_u16() {
                Ok(opcode) => {
                    self.ir = opcode;
                    ophandlers.dispatch(opcode, self)
                },
                Err(e) => Err(e),
            };
            let used = match result {
                Ok(cycles_used) => cycles_used,
                Err(err) => match err {
                    Exception::AddressError {
                        address,
                        access_type,
                        processing_state,
                        address_space,
                    } => self.handle_address_error(
                        address,
                        access_type,
                        processing_state,
                        address_space,
                    ),
                    Exception::IllegalInstruction(_, pc) => self.handle_illegal_instruction(pc),
                    Exception::UnimplementedInstruction(_, pc, vector) => self
                        .handle_unimplemented_instruction(pc, vector),
                    Exception::Trap(num, ea_calculation_cycles) => self.handle_trap(
                        num,
                        ea_calculation_cycles,
                    ),
                    Exception::PrivilegeViolation(_, pc) => self.handle_privilege_violation(pc),
                },
            };
            remaining_cycles.sub_assign(used);
            proof {
                assert((*self, remaining_cycles.0 as int) == step_spec(
                    *ophandlers,
                    entered.0,
                    entered.1,
                ));
                lemma_run_steps_snoc(*ophandlers, *old(self), cycles as int, steps);
                steps = steps + 1;
            }
        }
        let consumed = if self.processing_state.running() {
            budget.sub(remaining_cycles)
        } else {
            let adjust = if remaining_cycles.0 < 0 {
                remaining_cycles
            } else {
                Cycles(0)
            };
            budget.sub(adjust)
        };
        proof {
            let run = (*ophandlers, *old(self), cycles as int);
            assert(execute_run(run.0, run.1, run.2, steps, *self, consumed.0 as int));
            if !old(self).processing_state.is_running() || cycles <= 0 {
                if steps > 0 {
                    assert(mid_run(run_steps(run.0, run.1, run.2, 0)));
                }
                assert(steps == 0);
            }
        }
        consumed
    }
}

} // verus!
