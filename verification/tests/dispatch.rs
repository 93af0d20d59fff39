//! The port's drain-and-dispatch, run against the register model.

use std::cell::RefCell;
use std::rc::Rc;

use cc26x2_gpio::gpio_regs::GpioRegisters;
use cc26x2_gpio::pin::Client;
use cc26x2_gpio::port::{InterruptLine, Port};

struct Recorder {
    id: usize,
    log: Rc<RefCell<Vec<usize>>>,
}

impl Client for Recorder {
    fn fired(&self) {
        self.log.borrow_mut().push(self.id);
    }
}

#[test]
fn dispatch_order_and_skip() {
    let log: Rc<RefCell<Vec<usize>>> = Rc::new(RefCell::new(Vec::new()));
    let two = Recorder { id: 2, log: log.clone() };
    let nine = Recorder { id: 9, log: log.clone() };

    let mut port: Port<Recorder> = Port::new(InterruptLine::new(true, false));
    port.pin_mut(2).set_client(&two);
    port.pin_mut(9).set_client(&nine);

    let mut g = GpioRegisters::new();
    g.evflags = (1 << 2) | (1 << 5) | (1 << 9);
    port.handle_interrupt(&mut g);

    // Pin 2 before pin 9; pin 5 fired but has no callback and is skipped.
    assert_eq!(*log.borrow(), vec![2, 9]);
    // The observed bits read back cleared, every other bit untouched.
    assert_eq!(g.evflags, 0);
}

#[test]
fn dispatch_clears_only_observed_bits() {
    let mut g = GpioRegisters::new();
    g.evflags = 0b1010;
    g.write_evflags(0b0010);
    assert_eq!(g.evflags, 0b1000);
    g.write_evflags(0b1000);
    assert_eq!(g.evflags, 0);
}

#[test]
fn dispatch_rearms_line() {
    let mut port: Port<Recorder> = Port::new(InterruptLine::new(true, false));
    let mut g = GpioRegisters::new();
    g.evflags = 1 << 31;
    port.handle_interrupt(&mut g);
    assert!(!port.nvic.pending);
    assert!(port.nvic.enabled);
    assert_eq!(g.evflags, 0);
}

#[test]
fn dispatch_without_callbacks() {
    let mut port: Port<Recorder> = Port::new(InterruptLine::new(true, true));
    let mut g = GpioRegisters::new();
    g.doe = 0xFFFF;
    g.dout = 0x1234;
    g.evflags = 0xFFFF_FFFF;
    port.handle_interrupt(&mut g);
    assert_eq!(g.evflags, 0);
    // Dispatch touches no other register and no pin's configuration.
    assert_eq!(g.doe, 0xFFFF);
    assert_eq!(g.dout, 0x1234);
    for i in 0..32 {
        assert_eq!(port.pin(i).cfg, 0x6000);
    }
}

#[test]
fn replacing_a_callback_discards_the_old() {
    let log: Rc<RefCell<Vec<usize>>> = Rc::new(RefCell::new(Vec::new()));
    let first = Recorder { id: 100, log: log.clone() };
    let second = Recorder { id: 200, log: log.clone() };

    let mut port: Port<Recorder> = Port::new(InterruptLine::new(false, true));
    port.pin_mut(4).set_client(&first);
    port.pin_mut(4).set_client(&second);

    let mut g = GpioRegisters::new();
    g.evflags = 1 << 4;
    port.handle_interrupt(&mut g);
    assert_eq!(*log.borrow(), vec![200]);
}

#[test]
fn edges_latched_during_dispatch_stay() {
    // A callback that latches a fresh event while dispatch runs: the new
    // bit must survive this invocation for the next interrupt entry.
    struct Latcher {
        regs: Rc<RefCell<u32>>,
    }
    impl Client for Latcher {
        fn fired(&self) {
            *self.regs.borrow_mut() |= 1 << 7;
        }
    }
    let latched: Rc<RefCell<u32>> = Rc::new(RefCell::new(0));
    let c = Latcher { regs: latched.clone() };

    let mut port: Port<Latcher> = Port::new(InterruptLine::new(true, false));
    port.pin_mut(3).set_client(&c);

    let mut g = GpioRegisters::new();
    g.evflags = 1 << 3;
    port.handle_interrupt(&mut g);
    assert_eq!(g.evflags, 0);
    // The hardware side now latches what the callback raised.
    g.evflags |= *latched.borrow();
    assert_eq!(g.evflags, 1 << 7);
}
