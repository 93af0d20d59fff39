//! The port: the fixed ordered collection of all 32 pins and the
//! demultiplexer that fans the combined event-flag register out to them.
//!
//! One hardware interrupt entry runs drain-and-dispatch to completion: the
//! event-flag register is read once into a snapshot, the snapshot is written
//! straight back (write-1-to-clear, so exactly the observed bits are
//! cleared), and only then is each set bit's callback invoked, in ascending
//! pin order. Edges latched after the write-back — including edges raised by
//! a running callback — stay latched for the next entry. An edge that lands
//! between the read and the write-back as the same bit would be cleared with
//! the snapshot: a known narrow race, documented rather than eliminated,
//! since eliminating it would mean disabling the source during the window.
//! The upstream line is re-armed only after every callback has returned, so
//! a callback can never be re-entered for the interrupt it is handling.

use vstd::prelude::*;

verus! {

use crate::NUM_PINS;
use crate::gpio_regs::GpioRegisters;
use crate::iocfg::IOCFG_RESET;
use crate::pin::{Client, GPIOPin};

/// The top-level interrupt controller's view of the shared GPIO line,
/// modelled by its two observable flags. The controller itself (priority,
/// vectoring) is outside this driver; the driver only clears the pending
/// flag and re-enables the line after a dispatch.
pub struct InterruptLine {
    /// Whether the line's interrupt is latched pending upstream.
    pub pending: bool,
    /// Whether the line is enabled upstream.
    pub enabled: bool,
}

impl InterruptLine {
    /// A line in the given upstream state.
    pub fn new(pending: bool, enabled: bool) -> (r: InterruptLine)
        ensures
            r == (InterruptLine { pending, enabled }),
    {
        InterruptLine { pending, enabled }
    }

    /// Clear the line's pending flag upstream.
    pub fn clear_pending(&mut self)
        ensures
            *final (self) == (InterruptLine { pending: false, ..*old(self) }),
    {
        self.pending = false;
    }

    /// Re-enable the line upstream.
    pub fn enable(&mut self)
        ensures
            *final (self) == (InterruptLine { enabled: true, ..*old(self) }),
    {
        self.enabled = true;
    }
}

/// The port: exactly [`NUM_PINS`] pins, pin `i` owning bit `i` of every
/// shared register, plus the upstream interrupt line. Built once at start
/// and threaded through the process explicitly; pins are never created or
/// destroyed afterwards, only reconfigured.
pub struct Port<'a, C> {
    /// The upstream interrupt line for the whole GPIO peripheral.
    pub nvic: InterruptLine,
    /// The pins, in register-bit order: `pins[i].pin == i`.
    pub pins: Vec<GPIOPin<'a, C>>,
}

impl<'a, C> Port<'a, C> {
    /// Validity of the port: all 32 pins present, each well formed and
    /// holding its own index.
    pub open spec fn wf(self) -> bool {
        &&& self.pins.len() == NUM_PINS
        &&& forall|i: int|
            0 <= i < self.pins.len() ==> (#[trigger] self.pins[i]).wf() && self.pins[i].pin == i
    }

    /// Build the port: 32 pins at their reset configuration, none with a
    /// callback, and the given upstream line.
    pub fn new(nvic: InterruptLine) -> (p: Port<'a, C>)
        ensures
            p.wf(),
            p.nvic == nvic,
            forall|i: int|
                0 <= i < p.pins.len() ==> (#[trigger] p.pins[i]).cfg == IOCFG_RESET && p.pins[i].client is None,
    {
        let mut pins: Vec<GPIOPin<'a, C>> = Vec::new();
        let mut i: usize = 0;
        while i < NUM_PINS
            invariant
                i <= NUM_PINS,
                pins.len() == i,
                forall|j: int|
                    0 <= j < i ==> (#[trigger] pins[j]).wf() && pins[j].pin == j && pins[j].cfg
                        == IOCFG_RESET && pins[j].client is None,
            decreases NUM_PINS - i,
        {
            pins.push(GPIOPin::new(i));
            i = i + 1;
        }
        Port { nvic, pins }
    }

    /// Bounds-checked shared access to one pin.
    pub fn pin(&self, index: usize) -> (p: &GPIOPin<'a, C>)
        requires
            index < self.pins.len(),
        ensures
            *p == self.pins[index as int],
    {
        &self.pins[index]
    }

    /// Bounds-checked mutable access to one pin, for configuring it or
    /// registering its callback.
    pub fn pin_mut(&mut self, index: usize) -> (p: &mut GPIOPin<'a, C>)
        requires
            index < old(self).pins.len(),
        ensures
            *p == old(self).pins[index as int],
            final (self).pins@ == old(self).pins@.update(index as int, *final (p)),
            final (self).nvic == old(self).nvic,
    {
        &mut self.pins[index]
    }
}

/// Law: in a well-formed port, for every index `i` in `0..NUM_PINS`, pin
/// `i`'s mask is `1 << i`.
pub proof fn lemma_port_masks<'a, C>(p: Port<'a, C>)
    requires
        p.wf(),
    ensures
        forall|i: int|
            0 <= i < p.pins.len() ==> (#[trigger] p.pins[i]).pin_mask == 1u32 << (i as u32),
{
    assert forall|i: int| 0 <= i < p.pins.len() implies (#[trigger] p.pins[i]).pin_mask == 1u32 << (
    i as u32) by {
        assert(p.pins[i].wf());
    }
}

impl<'a, C: Client> Port<'a, C> {
    /// Drain-and-dispatch for one hardware interrupt entry.
    ///
    /// Drain: read the combined event-flag register once into a snapshot
    /// and write that same value back, clearing every bit observed and no
    /// other. Dispatch: walk the snapshot's bits from pin 0 to pin 31 and
    /// invoke each fired pin's registered callback synchronously, skipping
    /// pins without one. Afterwards clear the upstream pending flag and
    /// re-enable the line — only after every callback has returned.
    pub fn handle_interrupt(&mut self, gpio: &mut GpioRegisters)
        requires
            old(self).wf(),
        ensures
            final (self).wf(),
            final (self).pins@ == old(self).pins@,
            final (self).nvic == (InterruptLine { pending: false, enabled: true }),
            *final (gpio) == (GpioRegisters { evflags: 0, ..*old(gpio) }),
    {
        let evflags = gpio.read_evflags();
        // Clear exactly the observed bits before any callback runs: an edge
        // latched from here on stays for the next interrupt entry.
        gpio.write_evflags(evflags);
        proof {
            crate::bits::lemma_clear_snapshot(old(gpio).evflags);
        }

        let mut flags = evflags;
        let mut count: usize = 0;
        while flags != 0 && count < NUM_PINS
            invariant
                old(self).wf(),
                self.pins@ == old(self).pins@,
                self.nvic == old(self).nvic,
                *gpio == (GpioRegisters { evflags: 0u32, ..*old(gpio) }),
                count <= NUM_PINS,
            decreases NUM_PINS - count,
        {
            if flags & 1 != 0 {
                self.pins[count].handle_interrupt();
            }
            count = count + 1;
            flags = flags >> 1;
        }

        self.nvic.clear_pending();
        self.nvic.enable();
    }
}

} // verus!
