//! Model of the timer-to-pin event cross-connect.
//!
//! Eight independent selector registers, one per timer compare channel,
//! each route one event source into the fabric. Connecting channel `n` for
//! PWM writes the code of "port event `n`" into channel `n`'s selector; a
//! pin whose function-select field names that port event then follows the
//! timer's compare output. The timer-to-pin mapping is a fixed 1:1 table.

use vstd::prelude::*;

verus! {

/// The eight general-purpose timer compare channels.
#[derive(Clone, Copy, PartialEq, Eq, Structural, Debug)]
pub enum Timer {
    GPT0A,
    GPT0B,
    GPT1A,
    GPT1B,
    GPT2A,
    GPT2B,
    GPT3A,
    GPT3B,
}

/// Event-source code of "port event 0" in a selector register; port event
/// `n` uses code `EVENT_PORT_EVENT0 + n`.
pub const EVENT_PORT_EVENT0: u32 = 85;

/// Index of a timer channel in the fixed cross-connect table.
pub open spec fn timer_channel(t: Timer) -> u32 {
    match t {
        Timer::GPT0A => 0,
        Timer::GPT0B => 1,
        Timer::GPT1A => 2,
        Timer::GPT1B => 3,
        Timer::GPT2A => 4,
        Timer::GPT2B => 5,
        Timer::GPT3A => 6,
        Timer::GPT3B => 7,
    }
}

/// The event-selector registers, one per timer compare channel.
pub struct EventRouting {
    pub gpt0a_sel: u32,
    pub gpt0b_sel: u32,
    pub gpt1a_sel: u32,
    pub gpt1b_sel: u32,
    pub gpt2a_sel: u32,
    pub gpt2b_sel: u32,
    pub gpt3a_sel: u32,
    pub gpt3b_sel: u32,
}

/// `r` after channel `t`'s selector is written with its own port event's
/// code; the other channels' selectors keep their values.
pub open spec fn connect_spec(r: EventRouting, t: Timer) -> EventRouting {
    match t {
        Timer::GPT0A => EventRouting { gpt0a_sel: (EVENT_PORT_EVENT0 + 0) as u32, ..r },
        Timer::GPT0B => EventRouting { gpt0b_sel: (EVENT_PORT_EVENT0 + 1) as u32, ..r },
        Timer::GPT1A => EventRouting { gpt1a_sel: (EVENT_PORT_EVENT0 + 2) as u32, ..r },
        Timer::GPT1B => EventRouting { gpt1b_sel: (EVENT_PORT_EVENT0 + 3) as u32, ..r },
        Timer::GPT2A => EventRouting { gpt2a_sel: (EVENT_PORT_EVENT0 + 4) as u32, ..r },
        Timer::GPT2B => EventRouting { gpt2b_sel: (EVENT_PORT_EVENT0 + 5) as u32, ..r },
        Timer::GPT3A => EventRouting { gpt3a_sel: (EVENT_PORT_EVENT0 + 6) as u32, ..r },
        Timer::GPT3B => EventRouting { gpt3b_sel: (EVENT_PORT_EVENT0 + 7) as u32, ..r },
    }
}

impl EventRouting {
    /// A routing fabric with every selector at its zero reset value.
    pub fn new() -> (r: EventRouting)
        ensures
            r == (EventRouting {
                gpt0a_sel: 0,
                gpt0b_sel: 0,
                gpt1a_sel: 0,
                gpt1b_sel: 0,
                gpt2a_sel: 0,
                gpt2b_sel: 0,
                gpt3a_sel: 0,
                gpt3b_sel: 0,
            }),
    {
        EventRouting {
            gpt0a_sel: 0,
            gpt0b_sel: 0,
            gpt1a_sel: 0,
            gpt1b_sel: 0,
            gpt2a_sel: 0,
            gpt2b_sel: 0,
            gpt3a_sel: 0,
            gpt3b_sel: 0,
        }
    }

    /// Connect timer channel `t`'s compare event to its port event input.
    pub fn connect(&mut self, t: Timer)
        ensures
            *final (self) == connect_spec(*old(self), t),
    {
        match t {
            Timer::GPT0A => {
                self.gpt0a_sel = EVENT_PORT_EVENT0 + 0;
            },
            Timer::GPT0B => {
                self.gpt0b_sel = EVENT_PORT_EVENT0 + 1;
            },
            Timer::GPT1A => {
                self.gpt1a_sel = EVENT_PORT_EVENT0 + 2;
            },
            Timer::GPT1B => {
                self.gpt1b_sel = EVENT_PORT_EVENT0 + 3;
            },
            Timer::GPT2A => {
                self.gpt2a_sel = EVENT_PORT_EVENT0 + 4;
            },
            Timer::GPT2B => {
                self.gpt2b_sel = EVENT_PORT_EVENT0 + 5;
            },
            Timer::GPT3A => {
                self.gpt3a_sel = EVENT_PORT_EVENT0 + 6;
            },
            Timer::GPT3B => {
                self.gpt3b_sel = EVENT_PORT_EVENT0 + 7;
            },
        }
    }
}

} // verus!
