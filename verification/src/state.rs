//! The processing state of the core: what the processor is doing right now,
//! and the two predicates derived from it.

use vstd::prelude::*;

verus! {

/// One of six disjoint activities the processor can be engaged in.
#[derive(Clone, Copy, Debug, PartialEq, Eq, Structural)]
pub enum ProcessingState {
    /// Fetching and executing instructions.
    Normal,
    /// Servicing a trap, CHK or zero-divide.
    Group2Exception,
    /// Servicing trace, an interrupt, an illegal instruction or a privilege
    /// violation.
    Group1Exception,
    /// Servicing an address error, a bus error or an external reset.
    Group0Exception,
    /// Halted awaiting an interrupt, trace or reset.
    Stopped,
    /// Awaiting an external reset only.
    Halted,
}

impl ProcessingState {
    /// An instruction counts as "processing" exactly in the normal state and
    /// while a group 2 exception is serviced; a group 0 stack frame records
    /// this.
    pub open spec fn is_instruction_processing(self) -> bool {
        self is Normal || self is Group2Exception
    }

    /// The processor keeps executing in every state but `Stopped` and
    /// `Halted`.
    pub open spec fn is_running(self) -> bool {
        !(self is Stopped || self is Halted)
    }

    /// Runtime test for `is_instruction_processing`.
    pub fn instruction_processing(self) -> (r: bool)
        ensures
            r == self.is_instruction_processing(),
    {
        match self {
            ProcessingState::Normal => true,
            ProcessingState::Group2Exception => true,
            _ => false,
        }
    }

    /// Runtime test for `is_running`.
    pub fn running(self) -> (r: bool)
        ensures
            r == self.is_running(),
    {
        match self {
            ProcessingState::Stopped => false,
            ProcessingState::Halted => false,
            _ => true,
        }
    }
}

} // verus!
