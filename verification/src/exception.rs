//! The exception taxonomy: in-band control transfers raised during fetch or
//! by an instruction handler, each carrying the context its stack frame
//! needs, and the fixed vector numbers of the 68000 vector table.

use vstd::prelude::*;
use crate::space::AccessType;
use crate::space::AddressSpace;
use crate::state::ProcessingState;

verus! {

pub const EXCEPTION_ADDRESS_ERROR: u8 = 3;

pub const EXCEPTION_ILLEGAL_INSTRUCTION: u8 = 4;

pub const EXCEPTION_ZERO_DIVIDE: u8 = 5;

pub const EXCEPTION_CHK: u8 = 6;

pub const EXCEPTION_TRAPV: u8 = 7;

pub const EXCEPTION_PRIVILEGE_VIOLATION: u8 = 8;

/// An exception raised while fetching or executing an instruction.  These
/// are not errors surfaced to the driver: the execution loop catches them
/// and converts each to a state transition and a cycle cost.
#[derive(Clone, Copy, Debug)]
pub enum Exception {
    /// A misaligned access: the faulting address, the kind of access, the
    /// processing state at the fault, and the space accessed.
    AddressError {
        address: u32,
        access_type: AccessType,
        processing_state: ProcessingState,
        address_space: AddressSpace,
    },
    /// An opcode with no instruction: instruction register, then the address
    /// it was fetched from.
    IllegalInstruction(u16, u32),
    /// A trap instruction: vector number, then the cycles its effective
    /// address calculation consumed.
    Trap(u8, i32),
    /// A privileged opcode in user mode: instruction register, then the
    /// address it was fetched from.
    PrivilegeViolation(u16, u32),
    /// A recognized but unimplemented opcode: instruction register, the
    /// address it was fetched from, then its vector number.
    UnimplementedInstruction(u16, u32, u8),
}

} // verus!
