//! The interrupt subsystem: the controller abstraction the core samples,
//! the vectored priority encoder and the auto-vectored level-bitmap
//! controller that implement it, and the admission front end that compares
//! levels to the mask, detects the non-maskable edge and stacks return
//! masks.

use vstd::prelude::*;

verus! {

/// Vector delivered for a peripheral that is vectored but was never given a
/// vector.
pub const UNINITIALIZED_INTERRUPT: u8 = 0x0F;

/// Vector delivered when a controller reports a level but can produce no
/// peripheral.
pub const SPURIOUS_INTERRUPT: u8 = 0x18;

/// Base of the seven auto-vectors: level `n` is delivered as `0x18 + n`.
pub const AUTOVECTOR_BASE: u8 = 0x18;

/// A controller's state is modelled as its pending map: for each priority
/// level 1 to 7 (index `level - 1`), the vector an acknowledgement of that
/// level would deliver, or `None` when nothing is pending there.
///
/// `top_from(s, i)` is the highest pending level among 1..=i, or 0.
pub open spec fn top_from(s: Seq<Option<u8>>, i: int) -> u8
    decreases i,
{
    if i <= 0 {
        0u8
    } else if s[i - 1] is Some {
        i as u8
    } else {
        top_from(s, i - 1)
    }
}

/// The highest pending level of a seven-level pending map, or 0 when none
/// is pending.
pub open spec fn top_of(s: Seq<Option<u8>>) -> u8 {
    top_from(s, 7)
}

proof fn lemma_top_from_is_max(s: Seq<Option<u8>>, i: int)
    requires
        0 <= i <= 7,
        s.len() == 7,
    ensures
        0 <= top_from(s, i) <= i,
        top_from(s, i) > 0 ==> s[top_from(s, i) - 1] is Some,
        forall|j: int| top_from(s, i) <= j < i ==> s[j] is None,
    decreases i,
{
    if i > 0 && s[i - 1] is None {
        lemma_top_from_is_max(s, i - 1);
    }
}

/// The highest pending level is what its name says: every level above it is
/// idle, and when it is not zero, that level itself is pending.  A zero
/// means the whole map is idle.
pub proof fn lemma_top_is_max(s: Seq<Option<u8>>)
    requires
        s.len() == 7,
    ensures
        top_of(s) <= 7,
        top_of(s) == 0 ==> forall|j: int| 0 <= j < 7 ==> s[j] is None,
        top_of(s) > 0 ==> s[top_of(s) - 1] is Some,
        forall|j: int| top_of(s) <= j < 7 ==> s[j] is None,
{
    lemma_top_from_is_max(s, 7);
}

/// A level with the highest-pending-level character is the highest pending
/// level: the characterization of `lemma_top_is_max` has one solution.
pub proof fn lemma_top_unique(s: Seq<Option<u8>>, h: u8)
    requires
        s.len() == 7,
        h <= 7,
        h > 0 ==> s[h - 1] is Some,
        forall|j: int| h <= j < 7 ==> s[j] is None,
    ensures
        top_of(s) == h,
{
    lemma_top_is_max(s);
    let t = top_of(s);
    if t < h {
        assert(s[h - 1] is None);
    }
    if t > h {
        assert(s[t - 1] is None);
    }
}

/// A peripheral as the vectored controller sees it: its request priority
/// and its vectoring policy.
#[derive(Clone, Copy, Debug)]
pub struct Peripheral {
    pub priority: u8,
    pub autovectored: bool,
    pub vector: Option<u8>,
}

impl Peripheral {
    /// Priorities run from 1 to 7.
    pub open spec fn wf(self) -> bool {
        1 <= self.priority <= 7
    }

    /// The vector an acknowledgement of this peripheral delivers: its own
    /// vector if it has one, its level's auto-vector if it asked for one,
    /// and the uninitialized-interrupt vector otherwise.
    pub open spec fn resolved_vector(self) -> u8 {
        match self.vector {
            Some(v) => v,
            None => if self.autovectored {
                (AUTOVECTOR_BASE + self.priority) as u8
            } else {
                UNINITIALIZED_INTERRUPT
            },
        }
    }

    /// A peripheral that supplies its own vector.
    pub fn vectored(priority: u8, vector: u8) -> (p: Peripheral)
        requires
            0 < priority < 8,
        ensures
            p == (Peripheral { priority, autovectored: false, vector: Some(vector) }),
    {
        Peripheral { priority, autovectored: false, vector: Some(vector) }
    }

    /// A vectored peripheral whose vector was never initialized.
    pub fn vectored_uninitialized(priority: u8) -> (p: Peripheral)
        requires
            0 < priority < 8,
        ensures
            p == (Peripheral { priority, autovectored: false, vector: None }),
    {
        Peripheral { priority, autovectored: false, vector: None }
    }

    /// A peripheral that asks for its level's auto-vector.
    pub fn autovectored(priority: u8) -> (p: Peripheral)
        requires
            0 < priority < 8,
        ensures
            p == (Peripheral { priority, autovectored: true, vector: None }),
    {
        Peripheral { priority, autovectored: true, vector: None }
    }
}

/// What the core asks of an interrupt controller: report the highest
/// pending level, and acknowledge a level by clearing it and delivering its
/// vector.  Each implementation models its state as the pending map
/// `pending()` and keeps its own invariant `inv()`.
pub trait InterruptController: Sized {
    /// The implementation's internal consistency.
    spec fn inv(&self) -> bool;

    /// The pending map: for each level 1..=7 at index `level - 1`, the
    /// vector that acknowledging the level would deliver, or `None`.
    spec fn pending(&self) -> Seq<Option<u8>>;

    /// The highest pending level, or 0 when nothing is pending.
    fn highest_priority(&self) -> (r: u8)
        requires
            self.inv(),
        ensures
            r == top_of(self.pending()),
            r <= 7,
    ;

    /// Clears the level and hands out its vector.  A level that was pending
    /// delivers the vector of its pending map entry; what a controller
    /// reports for an idle level is its own affair (the encoder reports
    /// nothing, the auto-vectored controller its auto-vector either way).
    fn acknowledge_interrupt(&mut self, priority: u8) -> (r: Option<u8>)
        requires
            old(self).inv(),
            1 <= priority <= 7,
        ensures
            final(self).inv(),
            final(self).pending() == old(self).pending().update(priority - 1, None),
            old(self).pending()[priority - 1] matches Some(v) ==> r == Some(v),
    ;
}

/// The slot a priority is kept in: slot 0 holds priority 7, slot 6 holds
/// priority 1.
pub fn priority_to_index(priority: u8) -> (r: usize)
    requires
        priority <= 7,
    ensures
        r == 7 - priority,
{
    7 - priority as usize
}

/// Each occupied slot holds a well-formed peripheral of the slot's own
/// priority.
pub open spec fn slots_wf(s: Seq<Option<Peripheral>>) -> bool {
    forall|i: int|
        0 <= i < 7 ==> ((#[trigger] s[i]) matches Some(p) ==> p.wf() && p.priority == 7 - i)
}

/// The vectored interrupt priority encoder: seven priority slots, each
/// optionally holding an asserted peripheral, with the highest occupied
/// priority cached.  At most one peripheral is held per level; a later
/// assertion at the same level overwrites the earlier.
pub struct PeripheralInterruptController {
    pub highest: u8,
    pub asserted: Vec<Option<Peripheral>>,
}

impl PeripheralInterruptController {
    /// An encoder with every slot empty.
    pub fn new() -> (c: PeripheralInterruptController)
        ensures
            c.inv(),
            c.highest == 0,
            forall|i: int| 0 <= i < 7 ==> c.asserted@[i] is None,
            forall|i: int| 0 <= i < 7 ==> c.pending()[i] is None,
    {
        let mut asserted: Vec<Option<Peripheral>> = Vec::new();
        asserted.push(None);
        asserted.push(None);
        asserted.push(None);
        asserted.push(None);
        asserted.push(None);
        asserted.push(None);
        asserted.push(None);
        let c = PeripheralInterruptController { highest: 0, asserted };
        proof {
            lemma_top_unique(c.pending(), 0);
        }
        c
    }

    /// Stores `value` in the slot and recomputes the cached highest
    /// priority as the first occupied slot's, or 0.
    pub fn update_asserted(&mut self, index: usize, value: Option<Peripheral>) -> (r: u8)
        requires
            old(self).asserted@.len() == 7,
            slots_wf(old(self).asserted@),
            index < 7,
            value matches Some(p) ==> p.wf() && p.priority == 7 - index,
        ensures
            final(self).inv(),
            final(self).asserted@ == old(self).asserted@.update(index as int, value),
            r == final(self).highest,
    {
        self.asserted[index] = value;
        let ghost slots = self.asserted@;
        let mut h: u8 = 0;
        let mut idx: usize = 0;
        while idx < 7
            invariant
                self.asserted@ == slots,
                slots.len() == 7,
                idx <= 7,
                h == 0 ==> forall|j: int| 0 <= j < idx ==> slots[j] is None,
                h > 0 ==> 1 <= h <= 7 && 7 - h < idx && slots[7 - h] is Some && (forall|j: int|
                    0 <= j < 7 - h ==> slots[j] is None),
            decreases 7 - idx,
        {
            if h == 0 && self.asserted[idx].is_some() {
                h = 7 - idx as u8;
            }
            idx += 1;
        }
        self.highest = h;
        proof {
            lemma_top_unique(self.pending(), h);
        }
        h
    }

    /// Asserts a peripheral's request: the peripheral takes its priority's
    /// slot, whatever held it before, and the new highest priority is
    /// reported.
    pub fn request_interrupt(&mut self, p: Peripheral) -> (r: u8)
        requires
            old(self).inv(),
            p.wf(),
        ensures
            final(self).inv(),
            final(self).asserted@ == old(self).asserted@.update(7 - p.priority, Some(p)),
            final(self).pending() == old(self).pending().update(
                p.priority - 1,
                Some(p.resolved_vector()),
            ),
            r == top_of(final(self).pending()),
    {
        let index = priority_to_index(p.priority);
        let r = self.update_asserted(index, Some(p));
        proof {
            assert(self.pending() =~= old(self).pending().update(
                p.priority - 1,
                Some(p.resolved_vector()),
            ));
        }
        r
    }
}

impl InterruptController for PeripheralInterruptController {
    /// Seven well-formed slots, with the highest occupied priority cached.
    open spec fn inv(&self) -> bool {
        &&& self.asserted@.len() == 7
        &&& slots_wf(self.asserted@)
        &&& self.highest == top_of(self.pending())
    }

    /// Level `i + 1` is pending exactly when its slot is occupied, and
    /// delivers the occupant's resolved vector.
    open spec fn pending(&self) -> Seq<Option<u8>> {
        Seq::new(
            7,
            |i: int|
                match self.asserted@[6 - i] {
                    Some(p) => Some(p.resolved_vector()),
                    None => None,
                },
        )
    }

    fn highest_priority(&self) -> (r: u8) {
        proof {
            lemma_top_is_max(self.pending());
        }
        self.highest
    }

    /// Beyond the trait's contract: the level's slot — and nothing else —
    /// is emptied, slot for slot, and acknowledging an idle level reports
    /// `None` (a spurious interrupt, left to the caller to resolve).
    fn acknowledge_interrupt(&mut self, priority: u8) -> (r: Option<u8>)
        ensures
            final(self).asserted@ == old(self).asserted@.update(7 - priority, None),
            old(self).asserted@[7 - priority] is None ==> r is None,
    {
        let ip = priority_to_index(priority);
        let slot = self.asserted[ip];
        match slot {
            Some(peripheral) => {
                self.update_asserted(ip, None);
                let vector = match peripheral.vector {
                    Some(v) => v,
                    None => if peripheral.autovectored {
                        AUTOVECTOR_BASE + priority
                    } else {
                        UNINITIALIZED_INTERRUPT
                    },
                };
                proof {
                    assert(self.pending() =~= old(self).pending().update(
                        priority - 1,
                        None,
                    ));
                }
                Some(vector)
            },
            None => {
                proof {
                    assert(self.asserted@ =~= old(self).asserted@.update(7 - priority, None));
                    assert(self.pending() =~= old(self).pending().update(
                        priority - 1,
                        None,
                    ));
                }
                None
            },
        }
    }
}

/// Whether level `i + 1` is marked in a level bitmap.
pub open spec fn level_bit(level: u8, i: int) -> bool {
    level & (1u8 << (i as u8)) != 0
}

proof fn lemma_set_bit(l: u8, p: u8, i: u8)
    requires
        p < 7,
        i < 7,
    ensures
        ((l | (1u8 << p)) & (1u8 << i) != 0) == (i == p || (l & (1u8 << i) != 0)),
        l < 0x80 ==> (l | (1u8 << p)) < 0x80,
{
    assert(p < 7 && i < 7 ==> (((l | (1u8 << p)) & (1u8 << i) != 0) == (i == p || (l & (1u8
        << i) != 0)))) by (bit_vector);
    assert(p < 7 && l < 0x80 ==> (l | (1u8 << p)) < 0x80) by (bit_vector);
}

proof fn lemma_clear_bit(l: u8, p: u8, i: u8)
    requires
        p < 7,
        i < 7,
    ensures
        ((l & !(1u8 << p)) & (1u8 << i) != 0) == (i != p && (l & (1u8 << i) != 0)),
        l < 0x80 ==> (l & !(1u8 << p)) < 0x80,
{
    assert(p < 7 && i < 7 ==> (((l & !(1u8 << p)) & (1u8 << i) != 0) == (i != p && (l & (1u8
        << i) != 0)))) by (bit_vector);
    assert(p < 7 && l < 0x80 ==> (l & !(1u8 << p)) < 0x80) by (bit_vector);
}

/// The auto-vectored interrupt controller: a seven-bit level bitmap, bit
/// `n - 1` marking level `n` asserted.  Every level is delivered on its
/// auto-vector.
pub struct AutoInterruptController {
    pub level: u8,
}

impl AutoInterruptController {
    /// A controller with no level asserted.
    pub fn new() -> (c: AutoInterruptController)
        ensures
            c.inv(),
            c.level == 0,
    {
        AutoInterruptController { level: 0 }
    }

    /// Marks a level asserted and reports the new bitmap.
    pub fn request_interrupt(&mut self, irq: u8) -> (r: u8)
        requires
            old(self).inv(),
            0 < irq < 8,
        ensures
            final(self).inv(),
            final(self).level == (old(self).level | (1u8 << ((irq - 1) as u8))),
            r == final(self).level,
            final(self).pending() == old(self).pending().update(
                irq - 1,
                Some((AUTOVECTOR_BASE + irq) as u8),
            ),
    {
        self.level = self.level | (1u8 << (irq - 1));
        proof {
            let l = old(self).level;
            let p = (irq - 1) as u8;
            assert(l < 0x80 && p < 7 ==> (l | (1u8 << p)) < 0x80) by (bit_vector);
            assert forall|i: int| 0 <= i < 7 implies self.pending()[i] == old(self).pending().update(
                irq - 1,
                Some((AUTOVECTOR_BASE + irq) as u8),
            )[i] by {
                lemma_set_bit(old(self).level, (irq - 1) as u8, i as u8);
            }
            assert(self.pending() =~= old(self).pending().update(
                irq - 1,
                Some((AUTOVECTOR_BASE + irq) as u8),
            ));
        }
        self.level
    }
}

impl InterruptController for AutoInterruptController {
    /// Only the seven level bits are ever set.
    open spec fn inv(&self) -> bool {
        self.level < 0x80
    }

    /// Level `i + 1` is pending exactly when its bit is set, and delivers
    /// its auto-vector.
    open spec fn pending(&self) -> Seq<Option<u8>> {
        Seq::new(
            7,
            |i: int|
                if level_bit(self.level, i) {
                    Some((AUTOVECTOR_BASE + i + 1) as u8)
                } else {
                    None
                },
        )
    }

    fn highest_priority(&self) -> (r: u8) {
        let l = self.level;
        let r: u8 = if l >= 0x40 {
            7
        } else if l >= 0x20 {
            6
        } else if l >= 0x10 {
            5
        } else if l >= 0x08 {
            4
        } else if l >= 0x04 {
            3
        } else if l >= 0x02 {
            2
        } else if l >= 0x01 {
            1
        } else {
            0
        };
        proof {
            reveal_with_fuel(top_from, 8);
            assert((1u8 << 0u8) == 0x01 && (1u8 << 1u8) == 0x02 && (1u8 << 2u8) == 0x04 && (1u8
                << 3u8) == 0x08 && (1u8 << 4u8) == 0x10 && (1u8 << 5u8) == 0x20 && (1u8 << 6u8)
                == 0x40) by (bit_vector);
            assert(l < 0x80 && l >= 0x40 ==> (l & 0x40u8) != 0) by (bit_vector);
            assert(l < 0x40 && l >= 0x20 ==> (l & 0x20u8) != 0 && (l & 0x40u8) == 0)
                by (bit_vector);
            assert(l < 0x20 && l >= 0x10 ==> (l & 0x10u8) != 0 && (l & 0x20u8) == 0 && (l
                & 0x40u8) == 0) by (bit_vector);
            assert(l < 0x10 && l >= 0x08 ==> (l & 0x08u8) != 0 && (l & 0x10u8) == 0 && (l
                & 0x20u8) == 0 && (l & 0x40u8) == 0) by (bit_vector);
            assert(l < 0x08 && l >= 0x04 ==> (l & 0x04u8) != 0 && (l & 0x08u8) == 0 && (l
                & 0x10u8) == 0 && (l & 0x20u8) == 0 && (l & 0x40u8) == 0) by (bit_vector);
            assert(l < 0x04 && l >= 0x02 ==> (l & 0x02u8) != 0 && (l & 0x04u8) == 0 && (l
                & 0x08u8) == 0 && (l & 0x10u8) == 0 && (l & 0x20u8) == 0 && (l & 0x40u8) == 0)
                by (bit_vector);
            assert(l < 0x02 && l >= 0x01 ==> (l & 0x01u8) != 0 && (l & 0x02u8) == 0 && (l
                & 0x04u8) == 0 && (l & 0x08u8) == 0 && (l & 0x10u8) == 0 && (l & 0x20u8) == 0 && (l
                & 0x40u8) == 0) by (bit_vector);
            assert(l < 0x01 ==> (l & 0x01u8) == 0 && (l & 0x02u8) == 0 && (l & 0x04u8) == 0 && (l
                & 0x08u8) == 0 && (l & 0x10u8) == 0 && (l & 0x20u8) == 0 && (l & 0x40u8) == 0)
                by (bit_vector);
            assert(r == top_of(self.pending()));
        }
        r
    }

    /// Beyond the trait's contract: the level's bit is cleared, and the
    /// level's auto-vector is delivered whether or not the bit was set —
    /// this controller never reports a spurious interrupt.
    fn acknowledge_interrupt(&mut self, priority: u8) -> (r: Option<u8>)
        ensures
            final(self).level == (old(self).level & !(1u8 << ((priority - 1) as u8))),
            r == Some((AUTOVECTOR_BASE + priority) as u8),
    {
        self.level = self.level & !(1u8 << (priority - 1));
        proof {
            let l = old(self).level;
            let p = (priority - 1) as u8;
            assert(l < 0x80 && p < 7 ==> (l & !(1u8 << p)) < 0x80) by (bit_vector);
            assert forall|i: int| 0 <= i < 7 implies self.pending()[i] == old(self).pending().update(
                priority - 1,
                None,
            )[i] by {
                lemma_clear_bit(old(self).level, (priority - 1) as u8, i as u8);
            }
            assert(self.pending() =~= old(self).pending().update(priority - 1, None));
        }
        Some(AUTOVECTOR_BASE + priority)
    }
}

/// The admission front end of the core: samples the controller's highest
/// pending level between instructions, compares it to the interrupt mask,
/// detects the rising edge of the non-maskable level, and stacks the mask
/// of each accepted interrupt until its handler returns.
pub struct InterruptCore<T: InterruptController> {
    /// The level observed on the previous admission step: the memory the
    /// non-maskable edge detection runs on.
    pub irq_level: u8,
    /// Interrupts at or below this level are held back.
    pub irq_mask: u8,
    pub int_ctrl: T,
    /// The masks in force when each accepted-but-not-yet-returned interrupt
    /// was admitted, innermost last.
    pub interrupt_return_stack: Vec<u8>,
    /// The vector of the interrupt the last admission step accepted, if it
    /// accepted one.
    pub vector: Option<u8>,
}

impl<T: InterruptController> InterruptCore<T> {
    /// Levels and mask stay in 0..=7 and the controller keeps its own
    /// invariant.
    pub open spec fn wf(self) -> bool {
        &&& self.irq_level <= 7
        &&& self.irq_mask <= 7
        &&& self.int_ctrl.inv()
        &&& forall|i: int|
            0 <= i < self.interrupt_return_stack@.len() ==> self.interrupt_return_stack@[i] <= 7
    }

    /// Whether an admission step seeing `new_level` accepts: the level
    /// clears the mask, or it is the non-maskable level 7 freshly risen to.
    pub open spec fn admits(self, new_level: u8) -> bool {
        new_level > self.irq_mask || (self.irq_level != 7 && new_level == 7)
    }

    /// A core between instructions, with no interrupt accepted yet.
    pub fn new(irq_mask: u8, irq_level: u8, int_ctrl: T) -> (c: InterruptCore<T>)
        requires
            irq_mask <= 7,
            irq_level <= 7,
            int_ctrl.inv(),
        ensures
            c.wf(),
            c.irq_level == irq_level,
            c.irq_mask == irq_mask,
            c.int_ctrl == int_ctrl,
            c.interrupt_return_stack@ == Seq::<u8>::empty(),
            c.vector is None,
    {
        InterruptCore {
            irq_level,
            irq_mask,
            int_ctrl,
            interrupt_return_stack: Vec::new(),
            vector: None,
        }
    }

    /// One admission step.  The controller's highest pending level is
    /// sampled and remembered.  When it clears the mask, or is a fresh rise
    /// to level 7, the interrupt is accepted: the mask in force is pushed
    /// for the handler's return, the mask is raised to the level, and the
    /// controller's acknowledgement — or the spurious-interrupt vector, if
    /// it produces none — becomes the pending vector.  Otherwise no vector
    /// is pending.
    pub fn process_interrupt(&mut self)
        requires
            old(self).wf(),
        ensures
            final(self).wf(),
            ({
                let sampled = top_of(old(self).int_ctrl.pending());
                &&& final(self).irq_level == sampled
                &&& if old(self).admits(sampled) {
                    &&& final(self).irq_mask == sampled
                    &&& final(self).interrupt_return_stack@
                        == old(self).interrupt_return_stack@.push(old(self).irq_mask)
                    &&& final(self).int_ctrl.pending() == old(self).int_ctrl.pending().update(
                        sampled - 1,
                        None,
                    )
                    &&& final(self).vector is Some
                    &&& (old(self).int_ctrl.pending()[sampled - 1] matches Some(v)
                        ==> final(self).vector == Some(v))
                } else {
                    &&& final(self).irq_mask == old(self).irq_mask
                    &&& final(self).interrupt_return_stack@ == old(self).interrupt_return_stack@
                    &&& final(self).int_ctrl == old(self).int_ctrl
                    &&& final(self).vector is None
                }
            }),
    {
        let old_level = self.irq_level;
        self.irq_level = self.int_ctrl.highest_priority();
        let edge_triggered_nmi = old_level != 7 && self.irq_level == 7;
        let vector = if self.irq_level > self.irq_mask || edge_triggered_nmi {
            self.interrupt_return_stack.push(self.irq_mask);
            self.irq_mask = self.irq_level;
            match self.int_ctrl.acknowledge_interrupt(self.irq_level) {
                Some(v) => Some(v),
                None => Some(SPURIOUS_INTERRUPT),
            }
        } else {
            None
        };
        self.vector = vector;
    }

    /// Returns from the innermost accepted interrupt: the mask in force at
    /// its admission is popped back into place.  The pending vector is left
    /// as it was, for the driver to inspect.
    pub fn return_from_interrupt(&mut self)
        requires
            old(self).wf(),
            old(self).interrupt_return_stack@.len() > 0,
        ensures
            final(self).wf(),
            final(self).irq_mask == old(self).interrupt_return_stack@.last(),
            final(self).interrupt_return_stack@ == old(self).interrupt_return_stack@.drop_last(),
            final(self).irq_level == old(self).irq_level,
            final(self).int_ctrl == old(self).int_ctrl,
            final(self).vector == old(self).vector,
    {
        let popped = self.interrupt_return_stack.pop().unwrap();
        self.irq_mask = popped;
    }
}

} // verus!
