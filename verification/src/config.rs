//! Master and slave configuration, built from defaults with chained setters.

use vstd::prelude::*;
use crate::timeout::APBTickType;
use crate::units::Hertz;

verus! {

/// Default bus clock of a master: 1 MHz.
pub const DEFAULT_BAUDRATE_HZ: u32 = 1_000_000;

/// I2C master configuration.
#[derive(Debug, Clone, Copy)]
pub struct Config {
    pub baudrate: Hertz,
    pub sda_pullup_enabled: bool,
    pub scl_pullup_enabled: bool,
    pub timeout: Option<APBTickType>,
    /// Interrupt allocation flags (`ESP_INTR_FLAG_*` bits).
    pub intr_flags: u32,
}

/// The default master configuration: 1 MHz, both pull-ups on, no timeout,
/// no interrupt flags.
pub open spec fn default_config() -> Config {
    Config {
        baudrate: Hertz(DEFAULT_BAUDRATE_HZ),
        sda_pullup_enabled: true,
        scl_pullup_enabled: true,
        timeout: None,
        intr_flags: 0,
    }
}

impl Config {
    /// The default configuration.
    pub fn new() -> (r: Self)
        ensures
            r == default_config(),
            r.baudrate.0 == 1_000_000,
            r.sda_pullup_enabled && r.scl_pullup_enabled,
            r.timeout is None,
            r.intr_flags == 0,
    {
        Self::default()
    }

    /// Sets the bus clock.
    #[must_use]
    pub fn baudrate(self, baudrate: Hertz) -> (r: Self)
        ensures
            r == (Config { baudrate, ..self }),
    {
        let mut c = self;
        c.baudrate = baudrate;
        c
    }

    /// Turns the internal SDA pull-up on or off.
    #[must_use]
    pub fn sda_enable_pullup(self, enable: bool) -> (r: Self)
        ensures
            r == (Config { sda_pullup_enabled: enable, ..self }),
    {
        let mut c = self;
        c.sda_pullup_enabled = enable;
        c
    }

    /// Turns the internal SCL pull-up on or off.
    #[must_use]
    pub fn scl_enable_pullup(self, enable: bool) -> (r: Self)
        ensures
            r == (Config { scl_pullup_enabled: enable, ..self }),
    {
        let mut c = self;
        c.scl_pullup_enabled = enable;
        c
    }

    /// Sets the bus timeout.
    #[must_use]
    pub fn timeout(self, timeout: APBTickType) -> (r: Self)
        ensures
            r == (Config { timeout: Some(timeout), ..self }),
    {
        let mut c = self;
        c.timeout = Some(timeout);
        c
    }

    /// Sets the interrupt allocation flags.
    #[must_use]
    pub fn intr_flags(self, flags: u32) -> (r: Self)
        ensures
            r == (Config { intr_flags: flags, ..self }),
    {
        let mut c = self;
        c.intr_flags = flags;
        c
    }
}

impl Default for Config {
    fn default() -> (r: Self)
        ensures
            r == default_config(),
            r.baudrate.0 == 1_000_000,
            r.sda_pullup_enabled && r.scl_pullup_enabled,
            r.timeout is None,
            r.intr_flags == 0,
    {
        Config {
            baudrate: Hertz(DEFAULT_BAUDRATE_HZ),
            sda_pullup_enabled: true,
            scl_pullup_enabled: true,
            timeout: None,
            intr_flags: 0,
        }
    }
}

/// The master configuration under the name the driver uses for it.
pub type I2cConfig = Config;

/// The slave configuration under the name the driver uses for it.
pub type I2cSlaveConfig = SlaveConfig;

/// I2C slave configuration.
#[derive(Debug, Clone, Copy)]
pub struct SlaveConfig {
    pub sda_pullup_enabled: bool,
    pub scl_pullup_enabled: bool,
    pub rx_buf_len: usize,
    pub tx_buf_len: usize,
    /// Interrupt allocation flags (`ESP_INTR_FLAG_*` bits).
    pub intr_flags: u32,
}

/// The default slave configuration: both pull-ups on, buffer lengths left to
/// the driver (0), no interrupt flags.
pub open spec fn default_slave_config() -> SlaveConfig {
    SlaveConfig {
        sda_pullup_enabled: true,
        scl_pullup_enabled: true,
        rx_buf_len: 0,
        tx_buf_len: 0,
        intr_flags: 0,
    }
}

impl SlaveConfig {
    /// The default configuration.
    pub fn new() -> (r: Self)
        ensures
            r == default_slave_config(),
            r.sda_pullup_enabled && r.scl_pullup_enabled,
            r.rx_buf_len == 0 && r.tx_buf_len == 0,
            r.intr_flags == 0,
    {
        Self::default()
    }

    /// Turns the internal SDA pull-up on or off.
    #[must_use]
    pub fn sda_enable_pullup(self, enable: bool) -> (r: Self)
        ensures
            r == (SlaveConfig { sda_pullup_enabled: enable, ..self }),
    {
        let mut c = self;
        c.sda_pullup_enabled = enable;
        c
    }

    /// Turns the internal SCL pull-up on or off.
    #[must_use]
    pub fn scl_enable_pullup(self, enable: bool) -> (r: Self)
        ensures
            r == (SlaveConfig { scl_pullup_enabled: enable, ..self }),
    {
        let mut c = self;
        c.scl_pullup_enabled = enable;
        c
    }

    /// Sets the receive buffer length.
    #[must_use]
    pub fn rx_buffer_length(self, len: usize) -> (r: Self)
        ensures
            r == (SlaveConfig { rx_buf_len: len, ..self }),
    {
        let mut c = self;
        c.rx_buf_len = len;
        c
    }

    /// Sets the transmit buffer length.
    #[must_use]
    pub fn tx_buffer_length(self, len: usize) -> (r: Self)
        ensures
            r == (SlaveConfig { tx_buf_len: len, ..self }),
    {
        let mut c = self;
        c.tx_buf_len = len;
        c
    }

    /// Sets the interrupt allocation flags.
    #[must_use]
    pub fn intr_flags(self, flags: u32) -> (r: Self)
        ensures
            r == (SlaveConfig { intr_flags: flags, ..self }),
    {
        let mut c = self;
        c.intr_flags = flags;
        c
    }
}

impl Default for SlaveConfig {
    fn default() -> (r: Self)
        ensures
            r == default_slave_config(),
            r.sda_pullup_enabled && r.scl_pullup_enabled,
            r.rx_buf_len == 0 && r.tx_buf_len == 0,
            r.intr_flags == 0,
    {
        SlaveConfig {
            sda_pullup_enabled: true,
            scl_pullup_enabled: true,
            rx_buf_len: 0,
            tx_buf_len: 0,
            intr_flags: 0,
        }
    }
}

} // verus!
