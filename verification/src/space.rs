//! Address spaces: the pair of privilege mode and segment an access goes
//! through, with its function-code projection, and the kind of access made.

use vstd::prelude::*;

verus! {

/// Privilege mode of an access.
#[derive(Clone, Copy, Debug, Hash, PartialEq, Eq, Structural)]
pub enum Mode {
    User,
    Supervisor,
}

/// Segment an access goes through.
#[derive(Clone, Copy, Debug, Hash, PartialEq, Eq, Structural)]
pub enum Segment {
    Program,
    Data,
}

/// An address space: a privilege mode paired with a segment.
#[derive(Clone, Copy, Debug, Hash, PartialEq, Eq, Structural)]
pub struct AddressSpace(pub Mode, pub Segment);

impl AddressSpace {
    /// The function code a space is put on the bus as: user data is 1, user
    /// program 2, supervisor data 5 and supervisor program 6.
    pub open spec fn fc_spec(self) -> u32 {
        match (self.0, self.1) {
            (Mode::User, Segment::Data) => 1u32,
            (Mode::User, Segment::Program) => 2u32,
            (Mode::Supervisor, Segment::Data) => 5u32,
            (Mode::Supervisor, Segment::Program) => 6u32,
        }
    }

    /// Runtime function-code projection.
    pub fn fc(&self) -> (r: u32)
        ensures
            r == self.fc_spec(),
    {
        match (self.0, self.1) {
            (Mode::User, Segment::Data) => 1,
            (Mode::User, Segment::Program) => 2,
            (Mode::Supervisor, Segment::Data) => 5,
            (Mode::Supervisor, Segment::Program) => 6,
        }
    }

    /// The space instructions are fetched from: the program segment of the
    /// current privilege mode, supervisor when the flag is set.
    pub open spec fn program_space(s_flag: u32) -> AddressSpace {
        if s_flag != 0 {
            AddressSpace(Mode::Supervisor, Segment::Program)
        } else {
            AddressSpace(Mode::User, Segment::Program)
        }
    }
}

/// Whether an access reads or writes.
#[derive(Clone, Copy, Debug, PartialEq, Eq, Structural)]
pub enum AccessType {
    Read,
    Write,
}

} // verus!
