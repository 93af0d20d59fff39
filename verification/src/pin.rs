//! One GPIO pin: multiplexing, digital I/O, and its edge interrupt.
//!
//! A [`GPIOPin`] owns its multiplex-control register (modelled as the plain
//! word `cfg`) and a single replaceable, non-owning callback slot. Operations
//! on the shared port registers take the [`GpioRegisters`] model explicitly;
//! configuration operations rewrite `cfg`, either whole (claiming the pin
//! for a function re-specifies every field) or as a partial update of the
//! one field defined as orthogonal to the function (the pull selector) or
//! of the interrupt fields.

use vstd::prelude::*;

verus! {

use crate::NUM_PINS;
use crate::bits::{bit_is_set, read_field, write_field};
use crate::event::{EventRouting, Timer, connect_spec, timer_channel};
use crate::gpio_regs::GpioRegisters;
use crate::iocfg::{
    CLK32K_CFG, EDGE_DET_BOTH, EDGE_DET_FALLING, EDGE_DET_MASK, EDGE_DET_OFF, EDGE_IRQ_EN_MASK,
    EDGE_IRQ_EN_OFF, INPUT_EN_MASK, INPUT_EN_OFF, IOCFG_RESET, IO_MODE_OFF, IO_MODE_OPEN_DRAIN,
    DRIVE_STRENGTH_MAX, DRIVE_STRENGTH_OFF, EDGE_DET_RISING, PORT_ID_AON_CLK32K,
    PORT_ID_AUX_DOMAIN_IO, PORT_ID_GPIO, PORT_ID_I2C_MSSCL, PORT_ID_I2C_MSSDA, PORT_ID_MASK,
    PORT_ID_OFF, PORT_ID_PORT_EVENT0, PORT_ID_UART0_RX, PORT_ID_UART0_TX, PORT_ID_UART1_RX,
    PORT_ID_UART1_TX, PULL_DOWN, PULL_MASK, PULL_NONE, PULL_OFF, PULL_UP, edge_det, edge_irq_en,
    i2c_cfg, input_enabled,
    lemma_clk32k_cfg_fields, lemma_i2c_cfg_fields, lemma_pwm_cfg_fields, lemma_reset_fields,
    lemma_std_cfg_fields, lemma_with_edge_enabled_fields, lemma_with_input_en_fields,
    lemma_with_irq_disabled_fields, lemma_with_port_id_fields, lemma_with_pull_fields, pull,
    pull_valid, pwm_cfg, std_cfg, with_edge_enabled, with_input_en, with_irq_disabled,
    with_port_id, with_pull,
};

/// What a pin is configured as, read back from the hardware flags. `Other`
/// (neither flag) means the pin is peripheral-driven rather than plain GPIO;
/// `InputOutput` (both flags) is a diagnostic anomaly, representable for
/// uniform querying but never produced by this driver's own operations.
#[derive(Clone, Copy, PartialEq, Eq, Structural, Debug)]
pub enum Configuration {
    Input,
    Output,
    InputOutput,
    Other,
}

/// The pull-resistor state of a pin, orthogonal to its function.
#[derive(Clone, Copy, PartialEq, Eq, Structural, Debug)]
pub enum FloatingState {
    PullUp,
    PullDown,
    PullNone,
}

/// Which edges of a pin's signal raise its interrupt.
#[derive(Clone, Copy, PartialEq, Eq, Structural, Debug)]
pub enum InterruptEdge {
    RisingEdge,
    FallingEdge,
    EitherEdge,
}

/// One of the two independent serial channels.
#[derive(Clone, Copy, PartialEq, Eq, Structural, Debug)]
pub enum UartId {
    Uart0,
    Uart1,
}

/// A functional role a pin can be claimed for. Each variant maps to one
/// fixed combination of the multiplex-control register's fields.
#[derive(Clone, Copy, PartialEq, Eq, Structural, Debug)]
pub enum PinFunction {
    DigitalOutput,
    DigitalInput,
    UartTx(UartId),
    UartRx(UartId),
    I2cSda,
    I2cScl,
    PwmOutput(Timer),
    AnalogInput,
    AnalogOutput,
    ClockInput32k,
}

/// A per-pin interrupt callback. The driver never owns the target: callers
/// register a reference and guarantee the target outlives it.
pub trait Client {
    /// Called synchronously, in interrupt context, when the pin's edge
    /// interrupt fires.
    fn fired(&self);
}

/// One physical pin: its immutable identity (`pin`, with the derived
/// `pin_mask`), its multiplex-control register, and its callback slot.
pub struct GPIOPin<'a, C> {
    /// Index of the pin, `0..NUM_PINS`; bit `pin` of every shared register
    /// belongs to this pin.
    pub pin: usize,
    /// `1 << pin`, the pin's bit in the shared registers.
    pub pin_mask: u32,
    /// The pin's multiplex-control register.
    pub cfg: u32,
    /// Single-slot callback: registering a new one discards the previous.
    pub client: Option<&'a C>,
}

/// The register encoding of an edge selection.
pub open spec fn edge_code(e: InterruptEdge) -> u32 {
    match e {
        InterruptEdge::FallingEdge => EDGE_DET_FALLING,
        InterruptEdge::RisingEdge => EDGE_DET_RISING,
        InterruptEdge::EitherEdge => EDGE_DET_BOTH,
    }
}

/// The register encoding of a pull-resistor state.
pub open spec fn floating_code(f: FloatingState) -> u32 {
    match f {
        FloatingState::PullDown => PULL_DOWN,
        FloatingState::PullUp => PULL_UP,
        FloatingState::PullNone => PULL_NONE,
    }
}

/// The pull-resistor state a defined pull encoding stands for.
pub open spec fn floating_view(p: u32) -> FloatingState {
    if p == PULL_DOWN {
        FloatingState::PullDown
    } else if p == PULL_UP {
        FloatingState::PullUp
    } else {
        FloatingState::PullNone
    }
}

/// Configuration read-back from the two direction flags.
pub open spec fn configuration_from(input: bool, output: bool) -> Configuration {
    if input && output {
        Configuration::InputOutput
    } else if input {
        Configuration::Input
    } else if output {
        Configuration::Output
    } else {
        Configuration::Other
    }
}

/// What `configuration` reads back for a register value: on this hardware
/// a pin is an output exactly when it is not input-enabled.
pub open spec fn configuration_of(cfg: u32) -> Configuration {
    configuration_from(input_enabled(cfg), !input_enabled(cfg))
}

/// The function-select code a pin function is routed to.
pub open spec fn function_port_id(f: PinFunction) -> u32 {
    match f {
        PinFunction::DigitalOutput => PORT_ID_GPIO,
        PinFunction::DigitalInput => PORT_ID_GPIO,
        PinFunction::UartTx(UartId::Uart0) => PORT_ID_UART0_TX,
        PinFunction::UartTx(UartId::Uart1) => PORT_ID_UART1_TX,
        PinFunction::UartRx(UartId::Uart0) => PORT_ID_UART0_RX,
        PinFunction::UartRx(UartId::Uart1) => PORT_ID_UART1_RX,
        PinFunction::I2cSda => PORT_ID_I2C_MSSDA,
        PinFunction::I2cScl => PORT_ID_I2C_MSSCL,
        PinFunction::PwmOutput(t) => (PORT_ID_PORT_EVENT0 + timer_channel(t)) as u32,
        PinFunction::AnalogInput => PORT_ID_AUX_DOMAIN_IO,
        PinFunction::AnalogOutput => PORT_ID_AUX_DOMAIN_IO,
        PinFunction::ClockInput32k => PORT_ID_AON_CLK32K,
    }
}

/// The whole multiplex-control register value written when a pin is
/// claimed for `f`: the exhaustive function-to-fields table.
pub open spec fn cfg_for(f: PinFunction) -> u32 {
    match f {
        PinFunction::DigitalOutput => std_cfg(PORT_ID_GPIO, false),
        PinFunction::DigitalInput => std_cfg(PORT_ID_GPIO, true),
        PinFunction::UartTx(_) => std_cfg(function_port_id(f), false),
        PinFunction::UartRx(_) => std_cfg(function_port_id(f), true),
        PinFunction::I2cSda => i2c_cfg(PORT_ID_I2C_MSSDA),
        PinFunction::I2cScl => i2c_cfg(PORT_ID_I2C_MSSCL),
        PinFunction::PwmOutput(_) => pwm_cfg(function_port_id(f)),
        PinFunction::AnalogInput => std_cfg(PORT_ID_AUX_DOMAIN_IO, true),
        PinFunction::AnalogOutput => std_cfg(PORT_ID_AUX_DOMAIN_IO, false),
        PinFunction::ClockInput32k => CLK32K_CFG,
    }
}

/// The direction a function implies, as `configuration` reports it.
pub open spec fn direction_of(f: PinFunction) -> Configuration {
    match f {
        PinFunction::DigitalOutput => Configuration::Output,
        PinFunction::DigitalInput => Configuration::Input,
        PinFunction::UartTx(_) => Configuration::Output,
        PinFunction::UartRx(_) => Configuration::Input,
        PinFunction::I2cSda => Configuration::Input,
        PinFunction::I2cScl => Configuration::Input,
        PinFunction::PwmOutput(_) => Configuration::Output,
        PinFunction::AnalogInput => Configuration::Input,
        PinFunction::AnalogOutput => Configuration::Output,
        PinFunction::ClockInput32k => Configuration::Input,
    }
}

impl<'a, C> GPIOPin<'a, C> {
    /// Validity of a pin: its index is in range, its mask is derived from
    /// the index, and its pull field holds one of the three defined
    /// encodings (so the encoding space stays closed once written).
    pub open spec fn wf(self) -> bool {
        &&& self.pin < NUM_PINS
        &&& self.pin_mask == 1u32 << (self.pin as u32)
        &&& pull_valid(self.cfg)
    }

    /// A pin at index `pin`, with its register at the reset value and no
    /// callback registered.
    pub fn new(pin: usize) -> (p: GPIOPin<'a, C>)
        requires
            pin < NUM_PINS,
        ensures
            p.wf(),
            p.pin == pin,
            p.pin_mask == 1u32 << (pin as u32),
            p.cfg == IOCFG_RESET,
            p.client is None,
    {
        proof {
            lemma_reset_fields();
        }
        GPIOPin { pin, pin_mask: 1u32 << (pin as u32), cfg: IOCFG_RESET, client: None }
    }

    /// Full replacing write of the multiplex-control register with a
    /// standard I/O configuration for the function code `pid`.
    fn standard_io(&mut self, pid: u32, input: bool)
        requires
            old(self).wf(),
            pid <= PORT_ID_MASK,
        ensures
            final (self).wf(),
            *final (self) == (GPIOPin { cfg: std_cfg(pid, input), ..*old(self) }),
    {
        proof {
            lemma_std_cfg_fields(pid, input);
        }
        self.cfg = pid | (PULL_NONE << PULL_OFF) | (if input {
            1u32 << INPUT_EN_OFF
        } else {
            0u32
        });
    }

    /// Standard input configuration for the function code `pid`.
    fn standard_input(&mut self, pid: u32)
        requires
            old(self).wf(),
            pid <= PORT_ID_MASK,
        ensures
            final (self).wf(),
            *final (self) == (GPIOPin { cfg: std_cfg(pid, true), ..*old(self) }),
    {
        self.standard_io(pid, true);
    }

    /// Standard output configuration for the function code `pid`.
    fn standard_output(&mut self, pid: u32)
        requires
            old(self).wf(),
            pid <= PORT_ID_MASK,
        ensures
            final (self).wf(),
            *final (self) == (GPIOPin { cfg: std_cfg(pid, false), ..*old(self) }),
    {
        self.standard_io(pid, false);
    }

    /// Route the pin to the plain GPIO function, leaving every other field
    /// as it was.
    pub fn enable_gpio(&mut self)
        requires
            old(self).wf(),
        ensures
            final (self).wf(),
            *final (self) == (GPIOPin {
                cfg: with_port_id(old(self).cfg, PORT_ID_GPIO),
                ..*old(self)
            }),
    {
        proof {
            lemma_with_port_id_fields(old(self).cfg, PORT_ID_GPIO);
        }
        self.cfg = write_field(self.cfg, PORT_ID_OFF, PORT_ID_MASK, PORT_ID_GPIO);
    }

    /// Make the pin drive: on this hardware that is done by clearing the
    /// input-enable flag.
    fn enable_output(&mut self)
        requires
            old(self).wf(),
        ensures
            final (self).wf(),
            *final (self) == (GPIOPin { cfg: with_input_en(old(self).cfg, 0), ..*old(self) }),
            !input_enabled(final (self).cfg),
    {
        proof {
            lemma_with_input_en_fields(old(self).cfg, 0);
        }
        self.cfg = write_field(self.cfg, INPUT_EN_OFF, INPUT_EN_MASK, 0);
    }

    /// Set the input-enable flag, leaving every other field as it was.
    fn enable_input(&mut self)
        requires
            old(self).wf(),
        ensures
            final (self).wf(),
            *final (self) == (GPIOPin { cfg: with_input_en(old(self).cfg, 1), ..*old(self) }),
            input_enabled(final (self).cfg),
    {
        proof {
            lemma_with_input_en_fields(old(self).cfg, 1);
        }
        self.cfg = write_field(self.cfg, INPUT_EN_OFF, INPUT_EN_MASK, 1);
    }

    /// Whether the pin is input-enabled.
    pub fn is_input(&self) -> (r: bool)
        ensures
            r == input_enabled(self.cfg),
    {
        read_field(self.cfg, INPUT_EN_OFF, INPUT_EN_MASK) == 1
    }

    /// Whether the pin drives: exactly when it is not input-enabled, since
    /// this hardware has no tri-state.
    pub fn is_output(&self) -> (r: bool)
        ensures
            r == !input_enabled(self.cfg),
    {
        !(read_field(self.cfg, INPUT_EN_OFF, INPUT_EN_MASK) == 1)
    }

    /// Read the pin's configuration back from the direction flags alone.
    pub fn configuration(&self) -> (r: Configuration)
        ensures
            r == configuration_of(self.cfg),
    {
        let input = self.is_input();
        let output = self.is_output();
        match (input, output) {
            (false, false) => Configuration::Other,
            (false, true) => Configuration::Output,
            (true, false) => Configuration::Input,
            (true, true) => Configuration::InputOutput,
        }
    }

    /// Deliberate no-op: with no tri-state, "disabling input" would force
    /// the pin to drive, an unsafe silent side effect. The current
    /// configuration is returned unchanged — and, as the receiver is
    /// shared, nothing about the pin can change.
    pub fn disable_input(&self) -> (r: Configuration)
        ensures
            r == configuration_of(self.cfg),
    {
        self.configuration()
    }
}

impl<'a, C> GPIOPin<'a, C> {
    /// Partial read-modify-write of the pull-resistor selector only: the
    /// one field defined as orthogonal to the pin's function, so function,
    /// direction and drive fields are untouched.
    pub fn set_floating_state(&mut self, mode: FloatingState)
        requires
            old(self).wf(),
        ensures
            final (self).wf(),
            *final (self) == (GPIOPin {
                cfg: with_pull(old(self).cfg, floating_code(mode)),
                ..*old(self)
            }),
            pull(final (self).cfg) == floating_code(mode),
    {
        let code: u32 = match mode {
            FloatingState::PullDown => PULL_DOWN,
            FloatingState::PullUp => PULL_UP,
            FloatingState::PullNone => PULL_NONE,
        };
        proof {
            lemma_with_pull_fields(old(self).cfg, code);
        }
        self.cfg = write_field(self.cfg, PULL_OFF, PULL_MASK, code);
    }

    /// Release the pin's pull resistor: alias for selecting `PullNone`.
    pub fn deactivate_to_low_power(&mut self)
        requires
            old(self).wf(),
        ensures
            final (self).wf(),
            *final (self) == (GPIOPin { cfg: with_pull(old(self).cfg, PULL_NONE), ..*old(self) }),
            pull(final (self).cfg) == PULL_NONE,
    {
        self.set_floating_state(FloatingState::PullNone);
    }

    /// Read the pull-resistor state back. The encoding space of the field
    /// is closed, and validity guarantees the register holds one of the
    /// three defined values, so the read cannot meet an unknown encoding.
    pub fn floating_state(&self) -> (r: FloatingState)
        requires
            self.wf(),
        ensures
            r == floating_view(pull(self.cfg)),
    {
        let p = read_field(self.cfg, PULL_OFF, PULL_MASK);
        if p == PULL_DOWN {
            FloatingState::PullDown
        } else if p == PULL_UP {
            FloatingState::PullUp
        } else {
            FloatingState::PullNone
        }
    }

    /// Program the edge-detect mode and set the edge-interrupt enable,
    /// both fields in one modify.
    fn enable_int(&mut self, mode: InterruptEdge)
        requires
            old(self).wf(),
        ensures
            final (self).wf(),
            *final (self) == (GPIOPin {
                cfg: with_edge_enabled(old(self).cfg, edge_code(mode)),
                ..*old(self)
            }),
            edge_det(final (self).cfg) == edge_code(mode),
            edge_irq_en(final (self).cfg) == 1,
    {
        let m: u32 = match mode {
            InterruptEdge::FallingEdge => EDGE_DET_FALLING,
            InterruptEdge::RisingEdge => EDGE_DET_RISING,
            InterruptEdge::EitherEdge => EDGE_DET_BOTH,
        };
        proof {
            lemma_with_edge_enabled_fields(old(self).cfg, m);
        }
        self.cfg = write_field(
            write_field(self.cfg, EDGE_DET_OFF, EDGE_DET_MASK, m),
            EDGE_IRQ_EN_OFF,
            EDGE_IRQ_EN_MASK,
            1,
        );
    }

    /// Arm the pin's edge interrupt for the given edges.
    pub fn enable_interrupts(&mut self, mode: InterruptEdge)
        requires
            old(self).wf(),
        ensures
            final (self).wf(),
            *final (self) == (GPIOPin {
                cfg: with_edge_enabled(old(self).cfg, edge_code(mode)),
                ..*old(self)
            }),
            edge_det(final (self).cfg) == edge_code(mode),
            edge_irq_en(final (self).cfg) == 1,
    {
        self.enable_int(mode);
    }

    /// Clear only the edge-interrupt enable. The previously selected
    /// edge-detect mode is deliberately left in the register: re-enabling
    /// without re-specifying an edge reuses the last mode.
    pub fn disable_interrupt(&mut self)
        requires
            old(self).wf(),
        ensures
            final (self).wf(),
            *final (self) == (GPIOPin { cfg: with_irq_disabled(old(self).cfg), ..*old(self) }),
            edge_det(final (self).cfg) == edge_det(old(self).cfg),
            edge_irq_en(final (self).cfg) == 0,
    {
        proof {
            lemma_with_irq_disabled_fields(old(self).cfg);
        }
        self.cfg = write_field(self.cfg, EDGE_IRQ_EN_OFF, EDGE_IRQ_EN_MASK, 0);
    }

    /// Disarm the pin's edge interrupt.
    pub fn disable_interrupts(&mut self)
        requires
            old(self).wf(),
        ensures
            final (self).wf(),
            *final (self) == (GPIOPin { cfg: with_irq_disabled(old(self).cfg), ..*old(self) }),
            edge_det(final (self).cfg) == edge_det(old(self).cfg),
            edge_irq_en(final (self).cfg) == 0,
    {
        self.disable_interrupt();
    }

    /// Full replacing write claiming the pin for a two-wire bus role:
    /// open-drain, input enabled.
    fn set_i2c_input(&mut self, pid: u32)
        requires
            old(self).wf(),
            pid <= PORT_ID_MASK,
        ensures
            final (self).wf(),
            *final (self) == (GPIOPin { cfg: i2c_cfg(pid), ..*old(self) }),
    {
        proof {
            lemma_i2c_cfg_fields(pid);
        }
        self.cfg = pid | (PULL_NONE << PULL_OFF) | (IO_MODE_OPEN_DRAIN << IO_MODE_OFF) | (1u32
            << INPUT_EN_OFF);
    }

    /// Claim the pin for the two-wire bus data line.
    pub fn enable_i2c_sda(&mut self)
        requires
            old(self).wf(),
        ensures
            final (self).wf(),
            *final (self) == (GPIOPin { cfg: i2c_cfg(PORT_ID_I2C_MSSDA), ..*old(self) }),
    {
        self.set_i2c_input(PORT_ID_I2C_MSSDA);
    }

    /// Claim the pin for the two-wire bus clock line.
    pub fn enable_i2c_scl(&mut self)
        requires
            old(self).wf(),
        ensures
            final (self).wf(),
            *final (self) == (GPIOPin { cfg: i2c_cfg(PORT_ID_I2C_MSSCL), ..*old(self) }),
    {
        self.set_i2c_input(PORT_ID_I2C_MSSCL);
    }

    /// Full replacing write claiming the pin for a PWM output: maximum
    /// drive strength, output direction.
    fn pwm_output(&mut self, pid: u32)
        requires
            old(self).wf(),
            pid <= PORT_ID_MASK,
        ensures
            final (self).wf(),
            *final (self) == (GPIOPin { cfg: pwm_cfg(pid), ..*old(self) }),
    {
        proof {
            lemma_pwm_cfg_fields(pid);
        }
        self.cfg = pid | (DRIVE_STRENGTH_MAX << DRIVE_STRENGTH_OFF) | (PULL_NONE << PULL_OFF);
    }

    /// Claim the pin for PWM driven by timer channel `pwm`: connect that
    /// channel's compare event to its port event in the cross-connect
    /// fabric, then route the pin to that port event.
    pub fn enable_pwm(&mut self, pwm: Timer, routing: &mut EventRouting)
        requires
            old(self).wf(),
        ensures
            final (self).wf(),
            *final (self) == (GPIOPin {
                cfg: pwm_cfg(function_port_id(PinFunction::PwmOutput(pwm))),
                ..*old(self)
            }),
            *final (routing) == connect_spec(*old(routing), pwm),
    {
        routing.connect(pwm);
        let ch: u32 = match pwm {
            Timer::GPT0A => 0,
            Timer::GPT0B => 1,
            Timer::GPT1A => 2,
            Timer::GPT1B => 3,
            Timer::GPT2A => 4,
            Timer::GPT2B => 5,
            Timer::GPT3A => 6,
            Timer::GPT3B => 7,
        };
        self.pwm_output(PORT_ID_PORT_EVENT0 + ch);
    }

    /// Claim the pin for serial channel 0 receive.
    pub fn enable_uart0_rx(&mut self)
        requires
            old(self).wf(),
        ensures
            final (self).wf(),
            *final (self) == (GPIOPin { cfg: std_cfg(PORT_ID_UART0_RX, true), ..*old(self) }),
    {
        self.standard_input(PORT_ID_UART0_RX);
    }

    /// Claim the pin for serial channel 0 transmit.
    pub fn enable_uart0_tx(&mut self)
        requires
            old(self).wf(),
        ensures
            final (self).wf(),
            *final (self) == (GPIOPin { cfg: std_cfg(PORT_ID_UART0_TX, false), ..*old(self) }),
    {
        self.standard_output(PORT_ID_UART0_TX);
    }

    /// Claim the pin for serial channel 1 receive.
    pub fn enable_uart1_rx(&mut self)
        requires
            old(self).wf(),
        ensures
            final (self).wf(),
            *final (self) == (GPIOPin { cfg: std_cfg(PORT_ID_UART1_RX, true), ..*old(self) }),
    {
        self.standard_input(PORT_ID_UART1_RX);
    }

    /// Claim the pin for serial channel 1 transmit.
    pub fn enable_uart1_tx(&mut self)
        requires
            old(self).wf(),
        ensures
            final (self).wf(),
            *final (self) == (GPIOPin { cfg: std_cfg(PORT_ID_UART1_TX, false), ..*old(self) }),
    {
        self.standard_output(PORT_ID_UART1_TX);
    }

    /// Route the pin into the analog domain as an input.
    pub fn enable_analog_input(&mut self)
        requires
            old(self).wf(),
        ensures
            final (self).wf(),
            *final (self) == (GPIOPin { cfg: std_cfg(PORT_ID_AUX_DOMAIN_IO, true), ..*old(self) }),
    {
        self.standard_input(PORT_ID_AUX_DOMAIN_IO);
    }

    /// Route the pin into the analog domain as an output.
    pub fn enable_analog_output(&mut self)
        requires
            old(self).wf(),
        ensures
            final (self).wf(),
            *final (self) == (GPIOPin { cfg: std_cfg(PORT_ID_AUX_DOMAIN_IO, false), ..*old(self) }),
    {
        self.standard_output(PORT_ID_AUX_DOMAIN_IO);
    }

    /// Claim the pin as the 32 kHz system clock input: hysteresis is
    /// enabled for noise immunity on the slow clock edge.
    pub fn enable_32khz_system_clock_input(&mut self)
        requires
            old(self).wf(),
        ensures
            final (self).wf(),
            *final (self) == (GPIOPin { cfg: CLK32K_CFG, ..*old(self) }),
    {
        proof {
            lemma_clk32k_cfg_fields();
        }
        self.cfg = CLK32K_CFG;
    }

    /// Claim the pin for `f`: one full replacing write of the fixed field
    /// combination of `f` (the table in [`cfg_for`]), plus, for PWM, the
    /// cross-connect side effect on the event-routing fabric.
    pub fn configure_for(&mut self, f: PinFunction, routing: &mut EventRouting)
        requires
            old(self).wf(),
        ensures
            final (self).wf(),
            *final (self) == (GPIOPin { cfg: cfg_for(f), ..*old(self) }),
            *final (routing) == (match f {
                PinFunction::PwmOutput(t) => connect_spec(*old(routing), t),
                _ => *old(routing),
            }),
    {
        match f {
            PinFunction::DigitalOutput => self.standard_output(PORT_ID_GPIO),
            PinFunction::DigitalInput => self.standard_input(PORT_ID_GPIO),
            PinFunction::UartTx(UartId::Uart0) => self.enable_uart0_tx(),
            PinFunction::UartTx(UartId::Uart1) => self.enable_uart1_tx(),
            PinFunction::UartRx(UartId::Uart0) => self.enable_uart0_rx(),
            PinFunction::UartRx(UartId::Uart1) => self.enable_uart1_rx(),
            PinFunction::I2cSda => self.enable_i2c_sda(),
            PinFunction::I2cScl => self.enable_i2c_scl(),
            PinFunction::PwmOutput(t) => self.enable_pwm(t, routing),
            PinFunction::AnalogInput => self.enable_analog_input(),
            PinFunction::AnalogOutput => self.enable_analog_output(),
            PinFunction::ClockInput32k => self.enable_32khz_system_clock_input(),
        }
    }

    /// Make the pin a plain digital output. The function and input-enable
    /// fields are written first; only then is the pin's bit asserted in the
    /// shared output-enable register, so the pin never drives before its
    /// electrical parameters are settled.
    pub fn make_output(&mut self, gpio: &mut GpioRegisters) -> (r: Configuration)
        requires
            old(self).wf(),
        ensures
            final (self).wf(),
            *final (self) == (GPIOPin {
                cfg: with_input_en(with_port_id(old(self).cfg, PORT_ID_GPIO), 0),
                ..*old(self)
            }),
            *final (gpio) == (GpioRegisters {
                doe: old(gpio).doe | old(self).pin_mask,
                ..*old(gpio)
            }),
            r == Configuration::Output,
            configuration_of(final (self).cfg) == Configuration::Output,
    {
        self.enable_gpio();
        self.enable_output();
        let doe = gpio.read_doe();
        gpio.write_doe(doe | self.pin_mask);
        Configuration::Output
    }

    /// Make the pin a plain digital input: select the GPIO function and
    /// set input-enable.
    pub fn make_input(&mut self) -> (r: Configuration)
        requires
            old(self).wf(),
        ensures
            final (self).wf(),
            *final (self) == (GPIOPin {
                cfg: with_input_en(with_port_id(old(self).cfg, PORT_ID_GPIO), 1),
                ..*old(self)
            }),
            r == Configuration::Input,
            configuration_of(final (self).cfg) == Configuration::Input,
    {
        self.enable_gpio();
        self.enable_input();
        Configuration::Input
    }

    /// Stop driving. The only way to do that on this hardware is to become
    /// a plain digital input — the GPIO function is selected and
    /// input-enable set, exactly as [`Self::make_input`] does — so the
    /// read-back is always `Input` afterwards.
    pub fn disable_output(&mut self) -> (r: Configuration)
        requires
            old(self).wf(),
        ensures
            final (self).wf(),
            *final (self) == (GPIOPin {
                cfg: with_input_en(with_port_id(old(self).cfg, PORT_ID_GPIO), 1),
                ..*old(self)
            }),
            r == Configuration::Input,
            configuration_of(final (self).cfg) == Configuration::Input,
    {
        self.enable_gpio();
        self.enable_input();
        self.configuration()
    }

    /// Sample the pin's electrical level from the shared data-in register.
    pub fn read(&self, gpio: &GpioRegisters) -> (r: bool)
        requires
            self.wf(),
        ensures
            r == bit_is_set(gpio.din(), self.pin as u32),
    {
        gpio.read_din() & self.pin_mask != 0
    }

    /// Drive the pin high: one write of the pin's mask to the dedicated
    /// "set" register, so no read-modify-write and no race with other pins.
    pub fn set(&self, gpio: &mut GpioRegisters)
        requires
            self.wf(),
        ensures
            *final (gpio) == (GpioRegisters {
                dout: old(gpio).dout | self.pin_mask,
                ..*old(gpio)
            }),
    {
        gpio.write_dout_set(self.pin_mask);
    }

    /// Drive the pin low: one write of the pin's mask to the dedicated
    /// "clear" register.
    pub fn clear(&self, gpio: &mut GpioRegisters)
        requires
            self.wf(),
        ensures
            *final (gpio) == (GpioRegisters {
                dout: old(gpio).dout & !self.pin_mask,
                ..*old(gpio)
            }),
    {
        gpio.write_dout_clr(self.pin_mask);
    }

    /// Flip the pin's output latch through the dedicated "toggle" register
    /// and return the level read back afterwards.
    pub fn toggle(&self, gpio: &mut GpioRegisters) -> (r: bool)
        requires
            self.wf(),
        ensures
            *final (gpio) == (GpioRegisters {
                dout: old(gpio).dout ^ self.pin_mask,
                ..*old(gpio)
            }),
            r == bit_is_set(final (gpio).din(), self.pin as u32),
    {
        gpio.write_dout_tgl(self.pin_mask);
        self.read(gpio)
    }

    /// Replace the pin's single callback slot; the previous reference is
    /// silently discarded.
    pub fn set_client(&mut self, client: &'a C)
        ensures
            *final (self) == (GPIOPin { client: Some(client), ..*old(self) }),
    {
        self.client = Some(client);
    }

    /// Whether an edge interrupt is pending on this pin alone: unsupported
    /// on this hardware, which has no queryable per-pin pending bit apart
    /// from the combined event-flag register. The missing capability is
    /// signalled explicitly rather than by a misleading `false`.
    pub fn is_pending(&self) -> (r: Option<bool>)
        ensures
            r is None,
    {
        None
    }
}

impl<'a, C: Client> GPIOPin<'a, C> {
    /// Invoke the registered callback, if any, synchronously. A pin whose
    /// event bit fired with no callback registered is silently skipped.
    pub fn handle_interrupt(&self) {
        match self.client {
            Some(c) => c.fired(),
            None => {},
        }
    }
}

/// Law: the edge-mode mapping is a bijection on its three inputs — no two
/// distinct edge selections produce the same register encoding.
pub proof fn lemma_edge_code_injective(a: InterruptEdge, b: InterruptEdge)
    ensures
        edge_code(a) == edge_code(b) ==> a == b,
{
}

/// Law: disabling a pin's interrupt never touches the edge-detect mode
/// field, so disabling twice in a row leaves the mode unchanged from its
/// value before the first call.
pub proof fn lemma_disable_interrupt_preserves_edge(cfg: u32)
    ensures
        edge_det(with_irq_disabled(cfg)) == edge_det(cfg),
        edge_det(with_irq_disabled(with_irq_disabled(cfg))) == edge_det(cfg),
{
    lemma_with_irq_disabled_fields(cfg);
    lemma_with_irq_disabled_fields(with_irq_disabled(cfg));
}

/// Law: claiming a pin for a function leaves the configuration read-back
/// at the direction that function implies.
pub proof fn lemma_configure_direction(f: PinFunction)
    ensures
        configuration_of(cfg_for(f)) == direction_of(f),
{
    match f {
        PinFunction::DigitalOutput => lemma_std_cfg_fields(PORT_ID_GPIO, false),
        PinFunction::DigitalInput => lemma_std_cfg_fields(PORT_ID_GPIO, true),
        PinFunction::UartTx(UartId::Uart0) => lemma_std_cfg_fields(PORT_ID_UART0_TX, false),
        PinFunction::UartTx(UartId::Uart1) => lemma_std_cfg_fields(PORT_ID_UART1_TX, false),
        PinFunction::UartRx(UartId::Uart0) => lemma_std_cfg_fields(PORT_ID_UART0_RX, true),
        PinFunction::UartRx(UartId::Uart1) => lemma_std_cfg_fields(PORT_ID_UART1_RX, true),
        PinFunction::I2cSda => lemma_i2c_cfg_fields(PORT_ID_I2C_MSSDA),
        PinFunction::I2cScl => lemma_i2c_cfg_fields(PORT_ID_I2C_MSSCL),
        PinFunction::PwmOutput(t) => lemma_pwm_cfg_fields(function_port_id(f)),
        PinFunction::AnalogInput => lemma_std_cfg_fields(PORT_ID_AUX_DOMAIN_IO, true),
        PinFunction::AnalogOutput => lemma_std_cfg_fields(PORT_ID_AUX_DOMAIN_IO, false),
        PinFunction::ClockInput32k => lemma_clk32k_cfg_fields(),
    }
}

/// Every well-formed pin's mask is one shifted left by its index.
pub proof fn lemma_pin_mask<'a, C>(p: GPIOPin<'a, C>)
    requires
        p.wf(),
    ensures
        p.pin_mask == 1u32 << (p.pin as u32),
{
}

/// Law: from the hardware's perspective a pin is exclusively input-enabled
/// or output-enabled. The read-back can represent `InputOutput` and `Other`
/// for diagnosing external interference, but no register value this driver
/// can hold reads back as either.
pub proof fn lemma_direction_exclusive(cfg: u32)
    ensures
        configuration_of(cfg) == Configuration::Input || configuration_of(cfg)
            == Configuration::Output,
{
}

} // verus!
