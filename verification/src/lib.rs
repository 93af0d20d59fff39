//! Driver core for a 32-pin general-purpose I/O (GPIO) controller.
//!
//! The controller owns 32 physical pins. Each pin has a multiplex-control
//! register that selects its function (plain digital I/O, UART lines, a
//! two-wire bus, PWM output, analog I/O, or a 32 kHz clock input) together
//! with its electrical parameters, and the port as a whole has shared
//! set/clear/toggle/data/output-enable registers plus a combined event-flag
//! register that latches edge interrupts, one bit per pin.
//!
//! The hardware registers are modelled as plain values
//! ([`gpio_regs::GpioRegisters`], [`event::EventRouting`],
//! [`port::InterruptLine`], and the per-pin configuration word held by
//! [`pin::GPIOPin`]); every register write the driver performs is a verified
//! state transition on that model. Real memory-mapped I/O sits outside this
//! crate: a harness that owns the actual registers mirrors the model's state
//! into them.

use vstd::prelude::*;

pub mod bits;
pub mod event;
pub mod gpio_regs;
pub mod iocfg;
pub mod pin;
pub mod port;

verus! {

/// Number of physical pins the controller owns.
pub const NUM_PINS: usize = 32;

} // verus!
