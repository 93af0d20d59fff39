//! Layout of the per-pin multiplex-control register.
//!
//! One 32-bit register per pin selects the pin's function and its electrical
//! parameters. The closed set of field positions and encodings is declared
//! here once, together with spec-level views of each field, the composed
//! whole-register values the driver writes, and lemmas that read the fields
//! back out of those values.

use vstd::prelude::*;

verus! {

use crate::bits::{field_get, field_set};

// Field positions and width masks.

/// Function-select code: which peripheral (or plain GPIO) the pin is routed to.
pub const PORT_ID_OFF: u32 = 0;

pub const PORT_ID_MASK: u32 = 0x3F;

/// Output driver strength.
pub const DRIVE_STRENGTH_OFF: u32 = 8;

pub const DRIVE_STRENGTH_MASK: u32 = 0x3;

/// Current limit of the driver.
pub const CURRENT_MODE_OFF: u32 = 10;

pub const CURRENT_MODE_MASK: u32 = 0x3;

/// Slew-rate reduction flag.
pub const SLEW_RED_OFF: u32 = 12;

pub const SLEW_RED_MASK: u32 = 0x1;

/// Pull-resistor selector.
pub const PULL_OFF: u32 = 13;

pub const PULL_MASK: u32 = 0x3;

/// Edge-detect mode for the pin's interrupt.
pub const EDGE_DET_OFF: u32 = 16;

pub const EDGE_DET_MASK: u32 = 0x3;

/// Edge-interrupt enable flag.
pub const EDGE_IRQ_EN_OFF: u32 = 18;

pub const EDGE_IRQ_EN_MASK: u32 = 0x1;

/// I/O mode (normal or open-drain).
pub const IO_MODE_OFF: u32 = 24;

pub const IO_MODE_MASK: u32 = 0x7;

/// Wake-up configuration.
pub const WAKEUP_CFG_OFF: u32 = 27;

pub const WAKEUP_CFG_MASK: u32 = 0x3;

/// Input-enable flag: the pin is an input when set, an output when clear.
pub const INPUT_EN_OFF: u32 = 29;

pub const INPUT_EN_MASK: u32 = 0x1;

/// Hysteresis-enable flag on the input stage.
pub const HYST_EN_OFF: u32 = 30;

pub const HYST_EN_MASK: u32 = 0x1;

// Function-select codes.

pub const PORT_ID_GPIO: u32 = 0;

pub const PORT_ID_AON_CLK32K: u32 = 7;

pub const PORT_ID_AUX_DOMAIN_IO: u32 = 8;

pub const PORT_ID_I2C_MSSDA: u32 = 13;

pub const PORT_ID_I2C_MSSCL: u32 = 14;

pub const PORT_ID_UART0_RX: u32 = 15;

pub const PORT_ID_UART0_TX: u32 = 16;

pub const PORT_ID_UART1_RX: u32 = 19;

pub const PORT_ID_UART1_TX: u32 = 20;

/// Port-event inputs 0..7, consumed by the timer cross-connect; event `n`
/// uses code `PORT_ID_PORT_EVENT0 + n`.
pub const PORT_ID_PORT_EVENT0: u32 = 23;

// Field encodings.

pub const DRIVE_STRENGTH_AUTO: u32 = 0;

pub const DRIVE_STRENGTH_MAX: u32 = 3;

pub const CURRENT_MODE_LOW: u32 = 0;

/// Pull encodings form a closed set; `0` is never written by this driver.
pub const PULL_DOWN: u32 = 1;

pub const PULL_UP: u32 = 2;

pub const PULL_NONE: u32 = 3;

pub const EDGE_DET_NONE: u32 = 0;

pub const EDGE_DET_FALLING: u32 = 1;

pub const EDGE_DET_RISING: u32 = 2;

pub const EDGE_DET_BOTH: u32 = 3;

pub const IO_MODE_NORMAL: u32 = 0;

pub const IO_MODE_OPEN_DRAIN: u32 = 4;

/// Reset value of the multiplex-control register: every field zero except
/// the pull selector, which resets to `PULL_NONE`.
pub const IOCFG_RESET: u32 = PULL_NONE << PULL_OFF;

// Views of the individual fields of a register value.

pub open spec fn port_id(cfg: u32) -> u32 {
    field_get(cfg, PORT_ID_OFF, PORT_ID_MASK)
}

pub open spec fn drive_strength(cfg: u32) -> u32 {
    field_get(cfg, DRIVE_STRENGTH_OFF, DRIVE_STRENGTH_MASK)
}

pub open spec fn current_mode(cfg: u32) -> u32 {
    field_get(cfg, CURRENT_MODE_OFF, CURRENT_MODE_MASK)
}

pub open spec fn slew_red(cfg: u32) -> u32 {
    field_get(cfg, SLEW_RED_OFF, SLEW_RED_MASK)
}

pub open spec fn pull(cfg: u32) -> u32 {
    field_get(cfg, PULL_OFF, PULL_MASK)
}

pub open spec fn edge_det(cfg: u32) -> u32 {
    field_get(cfg, EDGE_DET_OFF, EDGE_DET_MASK)
}

pub open spec fn edge_irq_en(cfg: u32) -> u32 {
    field_get(cfg, EDGE_IRQ_EN_OFF, EDGE_IRQ_EN_MASK)
}

pub open spec fn io_mode(cfg: u32) -> u32 {
    field_get(cfg, IO_MODE_OFF, IO_MODE_MASK)
}

pub open spec fn wakeup_cfg(cfg: u32) -> u32 {
    field_get(cfg, WAKEUP_CFG_OFF, WAKEUP_CFG_MASK)
}

pub open spec fn input_enabled(cfg: u32) -> bool {
    field_get(cfg, INPUT_EN_OFF, INPUT_EN_MASK) == 1
}

pub open spec fn hyst_en(cfg: u32) -> u32 {
    field_get(cfg, HYST_EN_OFF, HYST_EN_MASK)
}

/// The pull field holds one of its three defined encodings.
pub open spec fn pull_valid(cfg: u32) -> bool {
    pull(cfg) == PULL_DOWN || pull(cfg) == PULL_UP || pull(cfg) == PULL_NONE
}

// Composed whole-register values: a full replacing write re-specifies every
// field, so none can retain a stale value from a previous function.

/// Standard I/O configuration: the given function, automatic drive strength,
/// no pull, normal I/O mode, no slew reduction, no hysteresis, no wake-up,
/// input enabled or not per `input`.
pub open spec fn std_cfg(pid: u32, input: bool) -> u32 {
    pid | (PULL_NONE << PULL_OFF) | (if input {
        1u32 << INPUT_EN_OFF
    } else {
        0u32
    })
}

/// Two-wire bus configuration: as standard input, but open-drain.
pub open spec fn i2c_cfg(pid: u32) -> u32 {
    pid | (PULL_NONE << PULL_OFF) | (IO_MODE_OPEN_DRAIN << IO_MODE_OFF) | (1u32 << INPUT_EN_OFF)
}

/// PWM output configuration: as standard output, but maximum drive strength.
pub open spec fn pwm_cfg(pid: u32) -> u32 {
    pid | (DRIVE_STRENGTH_MAX << DRIVE_STRENGTH_OFF) | (PULL_NONE << PULL_OFF)
}

/// 32 kHz clock input configuration: clock function, low current, input
/// enabled, hysteresis on for noise immunity on the slow edge.
pub const CLK32K_CFG: u32 = PORT_ID_AON_CLK32K | (CURRENT_MODE_LOW << CURRENT_MODE_OFF) | (
PULL_NONE << PULL_OFF) | (1u32 << INPUT_EN_OFF) | (1u32 << HYST_EN_OFF);

// Partial field updates.

/// `cfg` with only the function-select code replaced.
pub open spec fn with_port_id(cfg: u32, pid: u32) -> u32 {
    field_set(cfg, PORT_ID_OFF, PORT_ID_MASK, pid)
}

/// `cfg` with only the input-enable flag replaced.
pub open spec fn with_input_en(cfg: u32, ie: u32) -> u32 {
    field_set(cfg, INPUT_EN_OFF, INPUT_EN_MASK, ie)
}

/// `cfg` with only the pull selector replaced.
pub open spec fn with_pull(cfg: u32, p: u32) -> u32 {
    field_set(cfg, PULL_OFF, PULL_MASK, p)
}

/// `cfg` with the edge-detect mode set to `m` and the edge interrupt
/// enabled, both in one modify.
pub open spec fn with_edge_enabled(cfg: u32, m: u32) -> u32 {
    field_set(field_set(cfg, EDGE_DET_OFF, EDGE_DET_MASK, m), EDGE_IRQ_EN_OFF, EDGE_IRQ_EN_MASK, 1)
}

/// `cfg` with only the edge-interrupt enable flag cleared; the edge-detect
/// mode is deliberately left as it was.
pub open spec fn with_irq_disabled(cfg: u32) -> u32 {
    field_set(cfg, EDGE_IRQ_EN_OFF, EDGE_IRQ_EN_MASK, 0)
}

// Field values of the composed writes.

/// Every field of a standard I/O configuration.
pub proof fn lemma_std_cfg_fields(pid: u32, input: bool)
    requires
        pid <= PORT_ID_MASK,
    ensures
        port_id(std_cfg(pid, input)) == pid,
        drive_strength(std_cfg(pid, input)) == DRIVE_STRENGTH_AUTO,
        current_mode(std_cfg(pid, input)) == CURRENT_MODE_LOW,
        slew_red(std_cfg(pid, input)) == 0,
        pull(std_cfg(pid, input)) == PULL_NONE,
        edge_det(std_cfg(pid, input)) == EDGE_DET_NONE,
        edge_irq_en(std_cfg(pid, input)) == 0,
        io_mode(std_cfg(pid, input)) == IO_MODE_NORMAL,
        wakeup_cfg(std_cfg(pid, input)) == 0,
        input_enabled(std_cfg(pid, input)) == input,
        hyst_en(std_cfg(pid, input)) == 0,
{
    assert(port_id(std_cfg(pid, input)) == pid && drive_strength(std_cfg(pid, input)) == 0
        && current_mode(std_cfg(pid, input)) == 0 && slew_red(std_cfg(pid, input)) == 0 && pull(
        std_cfg(pid, input),
    ) == 3 && edge_det(std_cfg(pid, input)) == 0 && edge_irq_en(std_cfg(pid, input)) == 0
        && io_mode(std_cfg(pid, input)) == 0 && wakeup_cfg(std_cfg(pid, input)) == 0
        && input_enabled(std_cfg(pid, input)) == input && hyst_en(std_cfg(pid, input)) == 0)
        by (bit_vector)
        requires
            pid <= 0x3Fu32,
    ;
}

/// Every field of a two-wire bus configuration.
pub proof fn lemma_i2c_cfg_fields(pid: u32)
    requires
        pid <= PORT_ID_MASK,
    ensures
        port_id(i2c_cfg(pid)) == pid,
        drive_strength(i2c_cfg(pid)) == DRIVE_STRENGTH_AUTO,
        current_mode(i2c_cfg(pid)) == CURRENT_MODE_LOW,
        slew_red(i2c_cfg(pid)) == 0,
        pull(i2c_cfg(pid)) == PULL_NONE,
        edge_det(i2c_cfg(pid)) == EDGE_DET_NONE,
        edge_irq_en(i2c_cfg(pid)) == 0,
        io_mode(i2c_cfg(pid)) == IO_MODE_OPEN_DRAIN,
        wakeup_cfg(i2c_cfg(pid)) == 0,
        input_enabled(i2c_cfg(pid)),
        hyst_en(i2c_cfg(pid)) == 0,
{
    assert(port_id(i2c_cfg(pid)) == pid && drive_strength(i2c_cfg(pid)) == 0 && current_mode(
        i2c_cfg(pid),
    ) == 0 && slew_red(i2c_cfg(pid)) == 0 && pull(i2c_cfg(pid)) == 3 && edge_det(i2c_cfg(pid)) == 0
        && edge_irq_en(i2c_cfg(pid)) == 0 && io_mode(i2c_cfg(pid)) == 4 && wakeup_cfg(i2c_cfg(pid))
        == 0 && input_enabled(i2c_cfg(pid)) && hyst_en(i2c_cfg(pid)) == 0) by (bit_vector)
        requires
            pid <= 0x3Fu32,
    ;
}

/// Every field of a PWM output configuration.
pub proof fn lemma_pwm_cfg_fields(pid: u32)
    requires
        pid <= PORT_ID_MASK,
    ensures
        port_id(pwm_cfg(pid)) == pid,
        drive_strength(pwm_cfg(pid)) == DRIVE_STRENGTH_MAX,
        current_mode(pwm_cfg(pid)) == CURRENT_MODE_LOW,
        slew_red(pwm_cfg(pid)) == 0,
        pull(pwm_cfg(pid)) == PULL_NONE,
        edge_det(pwm_cfg(pid)) == EDGE_DET_NONE,
        edge_irq_en(pwm_cfg(pid)) == 0,
        io_mode(pwm_cfg(pid)) == IO_MODE_NORMAL,
        wakeup_cfg(pwm_cfg(pid)) == 0,
        !input_enabled(pwm_cfg(pid)),
        hyst_en(pwm_cfg(pid)) == 0,
{
    assert(port_id(pwm_cfg(pid)) == pid && drive_strength(pwm_cfg(pid)) == 3 && current_mode(
        pwm_cfg(pid),
    ) == 0 && slew_red(pwm_cfg(pid)) == 0 && pull(pwm_cfg(pid)) == 3 && edge_det(pwm_cfg(pid)) == 0
        && edge_irq_en(pwm_cfg(pid)) == 0 && io_mode(pwm_cfg(pid)) == 0 && wakeup_cfg(pwm_cfg(pid))
        == 0 && !input_enabled(pwm_cfg(pid)) && hyst_en(pwm_cfg(pid)) == 0) by (bit_vector)
        requires
            pid <= 0x3Fu32,
    ;
}

/// Every field of the 32 kHz clock input configuration.
pub proof fn lemma_clk32k_cfg_fields()
    ensures
        port_id(CLK32K_CFG) == PORT_ID_AON_CLK32K,
        drive_strength(CLK32K_CFG) == DRIVE_STRENGTH_AUTO,
        current_mode(CLK32K_CFG) == CURRENT_MODE_LOW,
        slew_red(CLK32K_CFG) == 0,
        pull(CLK32K_CFG) == PULL_NONE,
        edge_det(CLK32K_CFG) == EDGE_DET_NONE,
        edge_irq_en(CLK32K_CFG) == 0,
        io_mode(CLK32K_CFG) == IO_MODE_NORMAL,
        wakeup_cfg(CLK32K_CFG) == 0,
        input_enabled(CLK32K_CFG),
        hyst_en(CLK32K_CFG) == 1,
{
    assert(port_id(CLK32K_CFG) == 7 && drive_strength(CLK32K_CFG) == 0 && current_mode(CLK32K_CFG)
        == 0 && slew_red(CLK32K_CFG) == 0 && pull(CLK32K_CFG) == 3 && edge_det(CLK32K_CFG) == 0
        && edge_irq_en(CLK32K_CFG) == 0 && io_mode(CLK32K_CFG) == 0 && wakeup_cfg(CLK32K_CFG) == 0
        && input_enabled(CLK32K_CFG) && hyst_en(CLK32K_CFG) == 1) by (bit_vector);
}

/// Every field of the reset value.
pub proof fn lemma_reset_fields()
    ensures
        port_id(IOCFG_RESET) == PORT_ID_GPIO,
        drive_strength(IOCFG_RESET) == DRIVE_STRENGTH_AUTO,
        pull(IOCFG_RESET) == PULL_NONE,
        edge_det(IOCFG_RESET) == EDGE_DET_NONE,
        edge_irq_en(IOCFG_RESET) == 0,
        io_mode(IOCFG_RESET) == IO_MODE_NORMAL,
        !input_enabled(IOCFG_RESET),
        hyst_en(IOCFG_RESET) == 0,
{
    assert(port_id(IOCFG_RESET) == 0 && drive_strength(IOCFG_RESET) == 0 && pull(IOCFG_RESET) == 3
        && edge_det(IOCFG_RESET) == 0 && edge_irq_en(IOCFG_RESET) == 0 && io_mode(IOCFG_RESET) == 0
        && !input_enabled(IOCFG_RESET) && hyst_en(IOCFG_RESET) == 0) by (bit_vector);
}

// Field values after the partial updates: the named field takes the written
// value and every other field keeps its old one.

/// Replacing the function-select code touches no other field.
pub proof fn lemma_with_port_id_fields(cfg: u32, pid: u32)
    requires
        pid <= PORT_ID_MASK,
    ensures
        port_id(with_port_id(cfg, pid)) == pid,
        drive_strength(with_port_id(cfg, pid)) == drive_strength(cfg),
        current_mode(with_port_id(cfg, pid)) == current_mode(cfg),
        slew_red(with_port_id(cfg, pid)) == slew_red(cfg),
        pull(with_port_id(cfg, pid)) == pull(cfg),
        edge_det(with_port_id(cfg, pid)) == edge_det(cfg),
        edge_irq_en(with_port_id(cfg, pid)) == edge_irq_en(cfg),
        io_mode(with_port_id(cfg, pid)) == io_mode(cfg),
        wakeup_cfg(with_port_id(cfg, pid)) == wakeup_cfg(cfg),
        input_enabled(with_port_id(cfg, pid)) == input_enabled(cfg),
        hyst_en(with_port_id(cfg, pid)) == hyst_en(cfg),
{
    assert(port_id(with_port_id(cfg, pid)) == pid && drive_strength(with_port_id(cfg, pid))
        == drive_strength(cfg) && current_mode(with_port_id(cfg, pid)) == current_mode(cfg)
        && slew_red(with_port_id(cfg, pid)) == slew_red(cfg) && pull(with_port_id(cfg, pid))
        == pull(cfg) && edge_det(with_port_id(cfg, pid)) == edge_det(cfg) && edge_irq_en(
        with_port_id(cfg, pid),
    ) == edge_irq_en(cfg) && io_mode(with_port_id(cfg, pid)) == io_mode(cfg) && wakeup_cfg(
        with_port_id(cfg, pid),
    ) == wakeup_cfg(cfg) && input_enabled(with_port_id(cfg, pid)) == input_enabled(cfg) && hyst_en(
        with_port_id(cfg, pid),
    ) == hyst_en(cfg)) by (bit_vector)
        requires
            pid <= 0x3Fu32,
    ;
}

/// Replacing the input-enable flag touches no other field.
pub proof fn lemma_with_input_en_fields(cfg: u32, ie: u32)
    requires
        ie <= 1,
    ensures
        input_enabled(with_input_en(cfg, ie)) == (ie == 1),
        port_id(with_input_en(cfg, ie)) == port_id(cfg),
        drive_strength(with_input_en(cfg, ie)) == drive_strength(cfg),
        current_mode(with_input_en(cfg, ie)) == current_mode(cfg),
        slew_red(with_input_en(cfg, ie)) == slew_red(cfg),
        pull(with_input_en(cfg, ie)) == pull(cfg),
        edge_det(with_input_en(cfg, ie)) == edge_det(cfg),
        edge_irq_en(with_input_en(cfg, ie)) == edge_irq_en(cfg),
        io_mode(with_input_en(cfg, ie)) == io_mode(cfg),
        wakeup_cfg(with_input_en(cfg, ie)) == wakeup_cfg(cfg),
        hyst_en(with_input_en(cfg, ie)) == hyst_en(cfg),
{
    assert(input_enabled(with_input_en(cfg, ie)) == (ie == 1) && port_id(with_input_en(cfg, ie))
        == port_id(cfg) && drive_strength(with_input_en(cfg, ie)) == drive_strength(cfg)
        && current_mode(with_input_en(cfg, ie)) == current_mode(cfg) && slew_red(
        with_input_en(cfg, ie),
    ) == slew_red(cfg) && pull(with_input_en(cfg, ie)) == pull(cfg) && edge_det(
        with_input_en(cfg, ie),
    ) == edge_det(cfg) && edge_irq_en(with_input_en(cfg, ie)) == edge_irq_en(cfg) && io_mode(
        with_input_en(cfg, ie),
    ) == io_mode(cfg) && wakeup_cfg(with_input_en(cfg, ie)) == wakeup_cfg(cfg) && hyst_en(
        with_input_en(cfg, ie),
    ) == hyst_en(cfg)) by (bit_vector)
        requires
            ie <= 1u32,
    ;
}

/// Replacing the pull selector touches no other field: the pull state is
/// orthogonal to the pin's function.
pub proof fn lemma_with_pull_fields(cfg: u32, p: u32)
    requires
        p <= PULL_MASK,
    ensures
        pull(with_pull(cfg, p)) == p,
        port_id(with_pull(cfg, p)) == port_id(cfg),
        drive_strength(with_pull(cfg, p)) == drive_strength(cfg),
        current_mode(with_pull(cfg, p)) == current_mode(cfg),
        slew_red(with_pull(cfg, p)) == slew_red(cfg),
        edge_det(with_pull(cfg, p)) == edge_det(cfg),
        edge_irq_en(with_pull(cfg, p)) == edge_irq_en(cfg),
        io_mode(with_pull(cfg, p)) == io_mode(cfg),
        wakeup_cfg(with_pull(cfg, p)) == wakeup_cfg(cfg),
        input_enabled(with_pull(cfg, p)) == input_enabled(cfg),
        hyst_en(with_pull(cfg, p)) == hyst_en(cfg),
{
    assert(pull(with_pull(cfg, p)) == p && port_id(with_pull(cfg, p)) == port_id(cfg)
        && drive_strength(with_pull(cfg, p)) == drive_strength(cfg) && current_mode(
        with_pull(cfg, p),
    ) == current_mode(cfg) && slew_red(with_pull(cfg, p)) == slew_red(cfg) && edge_det(
        with_pull(cfg, p),
    ) == edge_det(cfg) && edge_irq_en(with_pull(cfg, p)) == edge_irq_en(cfg) && io_mode(
        with_pull(cfg, p),
    ) == io_mode(cfg) && wakeup_cfg(with_pull(cfg, p)) == wakeup_cfg(cfg) && input_enabled(
        with_pull(cfg, p),
    ) == input_enabled(cfg) && hyst_en(with_pull(cfg, p)) == hyst_en(cfg)) by (bit_vector)
        requires
            p <= 0x3u32,
    ;
}

/// Setting the edge-detect mode and the interrupt enable together touches
/// no other field.
pub proof fn lemma_with_edge_enabled_fields(cfg: u32, m: u32)
    requires
        m <= EDGE_DET_MASK,
    ensures
        edge_det(with_edge_enabled(cfg, m)) == m,
        edge_irq_en(with_edge_enabled(cfg, m)) == 1,
        port_id(with_edge_enabled(cfg, m)) == port_id(cfg),
        drive_strength(with_edge_enabled(cfg, m)) == drive_strength(cfg),
        current_mode(with_edge_enabled(cfg, m)) == current_mode(cfg),
        slew_red(with_edge_enabled(cfg, m)) == slew_red(cfg),
        pull(with_edge_enabled(cfg, m)) == pull(cfg),
        io_mode(with_edge_enabled(cfg, m)) == io_mode(cfg),
        wakeup_cfg(with_edge_enabled(cfg, m)) == wakeup_cfg(cfg),
        input_enabled(with_edge_enabled(cfg, m)) == input_enabled(cfg),
        hyst_en(with_edge_enabled(cfg, m)) == hyst_en(cfg),
{
    assert(edge_det(with_edge_enabled(cfg, m)) == m && edge_irq_en(with_edge_enabled(cfg, m)) == 1
        && port_id(with_edge_enabled(cfg, m)) == port_id(cfg) && drive_strength(
        with_edge_enabled(cfg, m),
    ) == drive_strength(cfg) && current_mode(with_edge_enabled(cfg, m)) == current_mode(cfg)
        && slew_red(with_edge_enabled(cfg, m)) == slew_red(cfg) && pull(with_edge_enabled(cfg, m))
        == pull(cfg) && io_mode(with_edge_enabled(cfg, m)) == io_mode(cfg) && wakeup_cfg(
        with_edge_enabled(cfg, m),
    ) == wakeup_cfg(cfg) && input_enabled(with_edge_enabled(cfg, m)) == input_enabled(cfg)
        && hyst_en(with_edge_enabled(cfg, m)) == hyst_en(cfg)) by (bit_vector)
        requires
            m <= 0x3u32,
    ;
}

/// Clearing the edge-interrupt enable touches no other field; in particular
/// the previously selected edge-detect mode stays in the register.
pub proof fn lemma_with_irq_disabled_fields(cfg: u32)
    ensures
        edge_irq_en(with_irq_disabled(cfg)) == 0,
        edge_det(with_irq_disabled(cfg)) == edge_det(cfg),
        port_id(with_irq_disabled(cfg)) == port_id(cfg),
        drive_strength(with_irq_disabled(cfg)) == drive_strength(cfg),
        current_mode(with_irq_disabled(cfg)) == current_mode(cfg),
        slew_red(with_irq_disabled(cfg)) == slew_red(cfg),
        pull(with_irq_disabled(cfg)) == pull(cfg),
        io_mode(with_irq_disabled(cfg)) == io_mode(cfg),
        wakeup_cfg(with_irq_disabled(cfg)) == wakeup_cfg(cfg),
        input_enabled(with_irq_disabled(cfg)) == input_enabled(cfg),
        hyst_en(with_irq_disabled(cfg)) == hyst_en(cfg),
{
    assert(edge_irq_en(with_irq_disabled(cfg)) == 0 && edge_det(with_irq_disabled(cfg)) == edge_det(
        cfg,
    ) && port_id(with_irq_disabled(cfg)) == port_id(cfg) && drive_strength(with_irq_disabled(cfg))
        == drive_strength(cfg) && current_mode(with_irq_disabled(cfg)) == current_mode(cfg)
        && slew_red(with_irq_disabled(cfg)) == slew_red(cfg) && pull(with_irq_disabled(cfg))
        == pull(cfg) && io_mode(with_irq_disabled(cfg)) == io_mode(cfg) && wakeup_cfg(
        with_irq_disabled(cfg),
    ) == wakeup_cfg(cfg) && input_enabled(with_irq_disabled(cfg)) == input_enabled(cfg) && hyst_en(
        with_irq_disabled(cfg),
    ) == hyst_en(cfg)) by (bit_vector);
}

} // verus!
