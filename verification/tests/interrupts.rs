//! Driving the interrupt subsystem: priority encoding, masking, the
//! non-maskable edge, vector resolution and return-from-interrupt.

use m68k_core::interrupt::AutoInterruptController;
use m68k_core::interrupt::InterruptController;
use m68k_core::interrupt::InterruptCore;
use m68k_core::interrupt::Peripheral;
use m68k_core::interrupt::PeripheralInterruptController;
use m68k_core::interrupt::AUTOVECTOR_BASE;
use m68k_core::interrupt::SPURIOUS_INTERRUPT;
use m68k_core::interrupt::UNINITIALIZED_INTERRUPT;
use vstd::prelude::Seq;

fn assert_auto<T: InterruptController>(core: &mut InterruptCore<T>, prio: u8) {
    assert_next(core, prio, if prio > 0 { Some(AUTOVECTOR_BASE + prio) } else { None })
}

fn assert_next<T: InterruptController>(core: &mut InterruptCore<T>, prio: u8, vector: Option<u8>) {
    assert_eq!(prio, core.int_ctrl.highest_priority());
    // assume still in higher priority handler
    core.process_interrupt();
    assert_eq!(None, core.vector);
    // return from higher priority handler, allow lower prio interrupts
    core.return_from_interrupt();
    core.process_interrupt();
    assert_eq!(vector, core.vector);
}

#[test]
fn highest_priority_is_processed_first() {
    let rtc_vector: u8 = 64;
    let rtc = Peripheral::vectored(7, rtc_vector);
    let disk = Peripheral::autovectored(5);
    let keyboard = Peripheral::vectored_uninitialized(2);

    let int_ctrl = PeripheralInterruptController::new();
    let mut core = InterruptCore::new(0, 0, int_ctrl);
    core.int_ctrl.request_interrupt(rtc);
    core.int_ctrl.request_interrupt(keyboard);
    core.int_ctrl.request_interrupt(disk);

    assert_eq!(7, core.int_ctrl.highest_priority());
    core.process_interrupt();
    assert_eq!(Some(rtc_vector), core.vector);

    assert_auto(&mut core, 5);
    assert_next(&mut core, 2, Some(UNINITIALIZED_INTERRUPT));
    assert_auto(&mut core, 0);
}

#[test]
fn auto_controller() {
    let auto_ctrl = AutoInterruptController::new();
    let mut core = InterruptCore::new(0, 0, auto_ctrl);
    core.int_ctrl.request_interrupt(2);
    core.int_ctrl.request_interrupt(7);
    core.int_ctrl.request_interrupt(5);

    assert_eq!(7, core.int_ctrl.highest_priority());
    core.process_interrupt();
    assert_eq!(Some(AUTOVECTOR_BASE + 7), core.vector);

    assert_auto(&mut core, 5);
    assert_auto(&mut core, 2);
    assert_auto(&mut core, 0);
}

#[test]
fn maskable_interrupts() {
    let auto_ctrl = AutoInterruptController::new();
    let mut core = InterruptCore::new(6, 0, auto_ctrl);
    core.int_ctrl.request_interrupt(2);
    core.int_ctrl.request_interrupt(5);

    assert_eq!(5, core.int_ctrl.highest_priority());
    core.process_interrupt();
    assert_eq!(None, core.vector);
}

#[test]
fn nonmaskable_interrupts() {
    let auto_ctrl = AutoInterruptController::new();
    let mut core = InterruptCore::new(7, 0, auto_ctrl);
    core.int_ctrl.request_interrupt(2);
    core.int_ctrl.request_interrupt(7);

    assert_eq!(7, core.int_ctrl.highest_priority());
    core.process_interrupt();
    assert_eq!(Some(AUTOVECTOR_BASE + 7), core.vector);
}

#[test]
fn nonmaskable_interrupts_in_progress() {
    let auto_ctrl = AutoInterruptController::new();
    let mut core = InterruptCore::new(7, 7, auto_ctrl);
    core.int_ctrl.request_interrupt(2);
    core.int_ctrl.request_interrupt(7);

    assert_eq!(7, core.int_ctrl.highest_priority());
    core.process_interrupt();
    assert_eq!(None, core.vector);
}

#[test]
fn admission_raises_mask_and_return_restores_it() {
    let auto_ctrl = AutoInterruptController::new();
    let mut core = InterruptCore::new(3, 0, auto_ctrl);
    core.int_ctrl.request_interrupt(6);

    core.process_interrupt();
    assert_eq!(Some(AUTOVECTOR_BASE + 6), core.vector);
    assert_eq!(6, core.irq_mask);

    core.return_from_interrupt();
    assert_eq!(3, core.irq_mask);
}

#[test]
fn later_assertion_at_same_level_overwrites() {
    let first = Peripheral::vectored(4, 0x40);
    let second = Peripheral::vectored(4, 0x41);

    let mut int_ctrl = PeripheralInterruptController::new();
    int_ctrl.request_interrupt(first);
    int_ctrl.request_interrupt(second);

    assert_eq!(4, int_ctrl.highest_priority());
    assert_eq!(Some(0x41), int_ctrl.acknowledge_interrupt(4));
    assert_eq!(0, int_ctrl.highest_priority());
}

#[test]
fn acknowledging_an_empty_slot_reports_nothing() {
    let mut int_ctrl = PeripheralInterruptController::new();
    int_ctrl.request_interrupt(Peripheral::vectored(3, 0x50));

    assert_eq!(None, int_ctrl.acknowledge_interrupt(5));
    assert_eq!(3, int_ctrl.highest_priority());
}

/// A controller that reports a level it can never acknowledge, as a bus
/// glitch would.
struct GlitchController;

impl InterruptController for GlitchController {
    fn inv(&self) -> bool {
        true
    }

    // the ghost model of a verified controller; never runs under test
    fn pending(&self) -> Seq<Option<u8>> {
        panic!()
    }

    fn highest_priority(&self) -> u8 {
        3
    }

    fn acknowledge_interrupt(&mut self, _priority: u8) -> Option<u8> {
        None
    }
}

#[test]
fn unacknowledged_admission_is_spurious() {
    let mut core = InterruptCore::new(0, 0, GlitchController);
    core.process_interrupt();
    assert_eq!(Some(SPURIOUS_INTERRUPT), core.vector);
    assert_eq!(3, core.irq_mask);
}
