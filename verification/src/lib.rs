//! Execution core of a cycle-accurate emulator for a 68000-style CISC
//! processor: cycle accounting, the fetch/decode/dispatch loop with its
//! exception semantics, and the prioritized interrupt subsystem.
//!
//! The machine state lives in [`cpu::Core`]; the dispatch table, an
//! external collaborator, is handed to [`cpu::Core::execute`] through the
//! [`cpu::InstructionSet`] trait so that handlers can borrow the whole
//! core.  Interrupt admission is driven through
//! [`interrupt::InterruptCore`] over any [`interrupt::InterruptController`]
//! — the vectored priority encoder or the auto-vectored level bitmap.

pub mod cpu;
pub mod cycles;
pub mod exception;
pub mod interrupt;
pub mod space;
pub mod state;
