//! Pin multiplexing and digital I/O, run against the register model.

use cc26x2_gpio::NUM_PINS;
use cc26x2_gpio::event::{EventRouting, Timer};
use cc26x2_gpio::gpio_regs::GpioRegisters;
use cc26x2_gpio::pin::{
    Client, Configuration, FloatingState, GPIOPin, InterruptEdge, PinFunction, UartId,
};
use cc26x2_gpio::port::{InterruptLine, Port};

struct NoClient;

impl Client for NoClient {
    fn fired(&self) {}
}

fn fresh_pin(i: usize) -> GPIOPin<'static, NoClient> {
    GPIOPin::new(i)
}

fn edge_field(cfg: u32) -> u32 {
    (cfg >> 16) & 0x3
}

fn irq_en_field(cfg: u32) -> u32 {
    (cfg >> 18) & 0x1
}

fn port_id_field(cfg: u32) -> u32 {
    cfg & 0x3F
}

fn io_mode_field(cfg: u32) -> u32 {
    (cfg >> 24) & 0x7
}

fn drive_field(cfg: u32) -> u32 {
    (cfg >> 8) & 0x3
}

fn input_en_field(cfg: u32) -> u32 {
    (cfg >> 29) & 0x1
}

fn hyst_field(cfg: u32) -> u32 {
    (cfg >> 30) & 0x1
}

#[test]
fn masks_follow_indices() {
    let port: Port<NoClient> = Port::new(InterruptLine::new(false, true));
    for i in 0..NUM_PINS {
        assert_eq!(port.pin(i).pin, i);
        assert_eq!(port.pin(i).pin_mask, 1u32 << i);
    }
}

#[test]
fn reset_state() {
    let p = fresh_pin(0);
    assert_eq!(p.cfg, 0x6000);
    assert_eq!(p.floating_state(), FloatingState::PullNone);
    assert!(p.client.is_none());
}

#[test]
fn digital_output_set_clear_toggle() {
    let mut g = GpioRegisters::new();
    let mut p = fresh_pin(5);
    assert_eq!(p.make_output(&mut g), Configuration::Output);
    assert_eq!(g.doe, 1 << 5);

    p.set(&mut g);
    assert!(p.read(&g));
    p.clear(&mut g);
    assert!(!p.read(&g));

    assert!(p.toggle(&mut g));
    assert!(p.read(&g));
    assert!(!p.toggle(&mut g));
    assert!(!p.read(&g));
}

#[test]
fn set_and_clear_touch_only_their_pin() {
    let mut g = GpioRegisters::new();
    let mut p3 = fresh_pin(3);
    let mut p7 = fresh_pin(7);
    p3.make_output(&mut g);
    p7.make_output(&mut g);
    p3.set(&mut g);
    p7.set(&mut g);
    assert_eq!(g.dout, (1 << 3) | (1 << 7));
    p3.clear(&mut g);
    assert_eq!(g.dout, 1 << 7);
    assert!(p7.read(&g));
    assert!(!p3.read(&g));
}

#[test]
fn digital_input_reads_external() {
    let mut g = GpioRegisters::new();
    let mut p = fresh_pin(9);
    assert_eq!(p.make_input(), Configuration::Input);
    assert!(!p.read(&g));
    g.ext_in = 1 << 9;
    assert!(p.read(&g));
}

#[test]
fn configure_directions() {
    let mut routing = EventRouting::new();
    let cases = [
        (PinFunction::DigitalOutput, Configuration::Output),
        (PinFunction::DigitalInput, Configuration::Input),
        (PinFunction::UartTx(UartId::Uart0), Configuration::Output),
        (PinFunction::UartRx(UartId::Uart0), Configuration::Input),
        (PinFunction::UartTx(UartId::Uart1), Configuration::Output),
        (PinFunction::UartRx(UartId::Uart1), Configuration::Input),
        (PinFunction::I2cSda, Configuration::Input),
        (PinFunction::I2cScl, Configuration::Input),
        (PinFunction::PwmOutput(Timer::GPT1A), Configuration::Output),
        (PinFunction::AnalogInput, Configuration::Input),
        (PinFunction::AnalogOutput, Configuration::Output),
        (PinFunction::ClockInput32k, Configuration::Input),
    ];
    for (f, want) in cases {
        let mut p = fresh_pin(4);
        p.configure_for(f, &mut routing);
        assert_eq!(p.configuration(), want, "direction of {:?}", f);
    }
}

#[test]
fn uart_and_analog_codes() {
    let mut p = fresh_pin(1);
    p.enable_uart0_rx();
    assert_eq!(port_id_field(p.cfg), 15);
    assert_eq!(input_en_field(p.cfg), 1);
    p.enable_uart0_tx();
    assert_eq!(port_id_field(p.cfg), 16);
    assert_eq!(input_en_field(p.cfg), 0);
    p.enable_uart1_rx();
    assert_eq!(port_id_field(p.cfg), 19);
    p.enable_uart1_tx();
    assert_eq!(port_id_field(p.cfg), 20);
    p.enable_analog_input();
    assert_eq!(port_id_field(p.cfg), 8);
    assert_eq!(input_en_field(p.cfg), 1);
    p.enable_analog_output();
    assert_eq!(port_id_field(p.cfg), 8);
    assert_eq!(input_en_field(p.cfg), 0);
}

#[test]
fn i2c_open_drain() {
    let mut p = fresh_pin(2);
    p.enable_i2c_sda();
    assert_eq!(port_id_field(p.cfg), 13);
    assert_eq!(io_mode_field(p.cfg), 4);
    assert_eq!(input_en_field(p.cfg), 1);
    p.enable_i2c_scl();
    assert_eq!(port_id_field(p.cfg), 14);
    assert_eq!(io_mode_field(p.cfg), 4);
    assert_eq!(input_en_field(p.cfg), 1);
}

#[test]
fn pwm_cross_connect() {
    let mut routing = EventRouting::new();
    let mut p = fresh_pin(11);
    p.enable_pwm(Timer::GPT2B, &mut routing);
    assert_eq!(routing.gpt2b_sel, 90);
    assert_eq!(routing.gpt0a_sel, 0);
    assert_eq!(port_id_field(p.cfg), 28);
    assert_eq!(drive_field(p.cfg), 3);
    assert_eq!(input_en_field(p.cfg), 0);

    let mut q = fresh_pin(12);
    q.enable_pwm(Timer::GPT0A, &mut routing);
    assert_eq!(routing.gpt0a_sel, 85);
    assert_eq!(routing.gpt2b_sel, 90);
    assert_eq!(port_id_field(q.cfg), 23);
}

#[test]
fn clock_input_hysteresis() {
    let mut p = fresh_pin(24);
    p.enable_32khz_system_clock_input();
    assert_eq!(port_id_field(p.cfg), 7);
    assert_eq!(input_en_field(p.cfg), 1);
    assert_eq!(hyst_field(p.cfg), 1);
}

#[test]
fn floating_state_roundtrip() {
    let mut p = fresh_pin(6);
    p.set_floating_state(FloatingState::PullUp);
    assert_eq!(p.floating_state(), FloatingState::PullUp);
    p.set_floating_state(FloatingState::PullDown);
    assert_eq!(p.floating_state(), FloatingState::PullDown);
    p.set_floating_state(FloatingState::PullNone);
    assert_eq!(p.floating_state(), FloatingState::PullNone);
}

#[test]
fn pull_orthogonal_to_function() {
    let mut p = fresh_pin(6);
    p.enable_uart0_tx();
    let before = p.cfg;
    p.set_floating_state(FloatingState::PullUp);
    assert_eq!(port_id_field(p.cfg), port_id_field(before));
    assert_eq!(input_en_field(p.cfg), input_en_field(before));
    assert_eq!(p.floating_state(), FloatingState::PullUp);
    assert_eq!(p.configuration(), Configuration::Output);
}

#[test]
fn low_power_releases_pull() {
    let mut p = fresh_pin(8);
    p.set_floating_state(FloatingState::PullDown);
    p.deactivate_to_low_power();
    assert_eq!(p.floating_state(), FloatingState::PullNone);
}

#[test]
fn disable_input_keeps_configuration() {
    let mut g = GpioRegisters::new();
    let mut p = fresh_pin(14);
    p.make_output(&mut g);
    let before = p.cfg;
    assert_eq!(p.disable_input(), Configuration::Output);
    assert_eq!(p.cfg, before);
    assert_eq!(p.configuration(), Configuration::Output);

    let mut q = fresh_pin(15);
    q.make_input();
    assert_eq!(q.disable_input(), Configuration::Input);
    assert_eq!(q.configuration(), Configuration::Input);
}

#[test]
fn disable_output_yields_input() {
    let mut g = GpioRegisters::new();
    let mut p = fresh_pin(16);
    p.make_output(&mut g);
    assert_eq!(p.disable_output(), Configuration::Input);
    assert_eq!(p.configuration(), Configuration::Input);

    let mut q = fresh_pin(17);
    q.make_input();
    assert_eq!(q.disable_output(), Configuration::Input);
    assert_eq!(q.configuration(), Configuration::Input);
}

#[test]
fn disable_output_routes_back_to_gpio() {
    // Stopping the drive behaves as becoming a plain digital input: a pin
    // claimed by a peripheral is routed back to the GPIO function, not
    // left on the peripheral with input-enable set.
    let mut p = fresh_pin(18);
    p.enable_uart0_tx();
    assert_eq!(port_id_field(p.cfg), 16);
    assert_eq!(p.disable_output(), Configuration::Input);
    assert_eq!(port_id_field(p.cfg), 0);
    assert_eq!(input_en_field(p.cfg), 1);
}

#[test]
fn is_pending_unsupported() {
    let p = fresh_pin(30);
    assert_eq!(p.is_pending(), None);
}

#[test]
fn edge_encodings_distinct() {
    let modes = [
        InterruptEdge::FallingEdge,
        InterruptEdge::RisingEdge,
        InterruptEdge::EitherEdge,
    ];
    let mut codes = Vec::new();
    for m in modes {
        let mut p = fresh_pin(21);
        p.enable_interrupts(m);
        assert_eq!(irq_en_field(p.cfg), 1);
        codes.push(edge_field(p.cfg));
    }
    assert_eq!(codes, vec![1, 2, 3]);
    assert_ne!(codes[0], codes[1]);
    assert_ne!(codes[0], codes[2]);
    assert_ne!(codes[1], codes[2]);
}

#[test]
fn disable_interrupt_idempotent() {
    let mut p = fresh_pin(22);
    p.enable_interrupts(InterruptEdge::EitherEdge);
    let edge_before = edge_field(p.cfg);
    p.disable_interrupt();
    p.disable_interrupt();
    assert_eq!(edge_field(p.cfg), edge_before);
    assert_eq!(irq_en_field(p.cfg), 0);
    p.disable_interrupts();
    assert_eq!(edge_field(p.cfg), edge_before);
}
