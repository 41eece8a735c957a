use esp_i2c::config::{Config, SlaveConfig};
use esp_i2c::error::{
    to_i2c_err, ErrorKind, EspError, I2cError, NoAcknowledgeSource, ESP_ERR_NO_MEM, ESP_ERR_TIMEOUT,
    ESP_FAIL, ESP_OK,
};
use esp_i2c::timeout::{
    tick_period_ns, APBTickType, APB_TICK_PERIOD_NS, XTAL_26M_TICK_PERIOD_NS, XTAL_32M_TICK_PERIOD_NS,
    XTAL_40M_TICK_PERIOD_NS, XTAL_48M_TICK_PERIOD_NS,
};
use esp_i2c::units::{ticks_as_c_int, Hertz, BLOCK};

#[test]
fn config_defaults() {
    let c = Config::new();
    assert_eq!(c.baudrate, Hertz(1_000_000));
    assert!(c.sda_pullup_enabled);
    assert!(c.scl_pullup_enabled);
    assert!(c.timeout.is_none());
    assert_eq!(c.intr_flags, 0);
    let d: Config = Default::default();
    assert_eq!(d.baudrate, c.baudrate);
}

#[test]
fn config_setters_change_one_field() {
    let t = APBTickType::from_xtal_nanos(1_000_000, XTAL_40M_TICK_PERIOD_NS);
    let c = Config::new()
        .baudrate(Hertz(100_000))
        .sda_enable_pullup(false)
        .timeout(t)
        .intr_flags(0x4);
    assert_eq!(c.baudrate, Hertz(100_000));
    assert!(!c.sda_pullup_enabled);
    assert!(c.scl_pullup_enabled);
    assert_eq!(c.timeout, Some(t));
    assert_eq!(c.intr_flags, 0x4);
    let c = c.scl_enable_pullup(false);
    assert!(!c.scl_pullup_enabled);
    assert_eq!(c.baudrate, Hertz(100_000));
}

#[test]
fn slave_config_defaults_and_setters() {
    let c = SlaveConfig::new();
    assert!(c.sda_pullup_enabled && c.scl_pullup_enabled);
    assert_eq!((c.rx_buf_len, c.tx_buf_len, c.intr_flags), (0, 0, 0));
    let c = c.rx_buffer_length(64).tx_buffer_length(128).sda_enable_pullup(false).intr_flags(2);
    assert_eq!((c.rx_buf_len, c.tx_buf_len, c.intr_flags), (64, 128, 2));
    assert!(!c.sda_pullup_enabled && c.scl_pullup_enabled);
    let c = c.scl_enable_pullup(false);
    assert!(!c.scl_pullup_enabled);
}

#[test]
fn tick_periods() {
    assert_eq!(APB_TICK_PERIOD_NS, 12);
    assert_eq!(XTAL_48M_TICK_PERIOD_NS, 20);
    assert_eq!(XTAL_40M_TICK_PERIOD_NS, 25);
    assert_eq!(XTAL_32M_TICK_PERIOD_NS, 31);
    assert_eq!(XTAL_26M_TICK_PERIOD_NS, 38);
    assert_eq!(tick_period_ns(40_000_000), 25);
    assert_eq!(tick_period_ns(80_000_000), 12);
}

#[test]
fn apb_ticks_round_up() {
    assert_eq!(APBTickType::from_apb_nanos(1_000_000, 12).value(), 83_334);
    assert_eq!(APBTickType::from_apb_nanos(12, 12).value(), 1);
    assert_eq!(APBTickType::from_apb_nanos(13, 12).value(), 2);
    assert_eq!(APBTickType::from_apb_nanos(0, 12).value(), 0);
}

#[test]
fn apb_ticks_wrap_as_c_int() {
    let nanos: u128 = 12 * (1u128 << 31);
    assert_eq!(APBTickType::from_apb_nanos(nanos, 12).value(), i32::MIN);
}

#[test]
fn xtal_register_is_next_power_of_two_exponent() {
    assert_eq!(APBTickType::from_xtal_nanos(25, 25).value(), 0);
    assert_eq!(APBTickType::from_xtal_nanos(50, 25).value(), 1);
    assert_eq!(APBTickType::from_xtal_nanos(75, 25).value(), 2);
    assert_eq!(APBTickType::from_xtal_nanos(100, 25).value(), 2);
    assert_eq!(APBTickType::from_xtal_nanos(124, 25).value(), 3);
    assert_eq!(APBTickType::from_xtal_nanos(125, 25).value(), 3);
    assert_eq!(APBTickType::from_xtal_nanos(1_000_000, 25).value(), 16);
}

#[test]
fn xtal_register_saturates_beyond_two_to_the_22() {
    let limit: u128 = (1u128 << 22) * 25;
    assert_eq!(APBTickType::from_xtal_nanos(limit, 25).value(), 22);
    assert_eq!(APBTickType::from_xtal_nanos(limit + 25, 25).value(), 32);
    assert_eq!(APBTickType::from_xtal_nanos(limit + 1, 25).value(), 32);
    assert_eq!(APBTickType::from_xtal_nanos(1_000_000_000_000, 25).value(), 32);
}

#[test]
fn xtal_register_monotone_on_samples() {
    let mut last = 0;
    let mut nanos: u128 = 25;
    while nanos < 400_000_000 {
        let v = APBTickType::from_xtal_nanos(nanos, 25).value();
        assert!(v >= last);
        last = v;
        nanos = nanos * 3 / 2 + 7;
    }
}

#[test]
fn xtal_timeout_is_never_shorter_than_asked() {
    // 25_624 ns is 1025 ticks rounded up: 2^11 ticks, not the 2^10 (25_600 ns) below it.
    assert_eq!(APBTickType::from_xtal_nanos(25_624, 25).value(), 11);
    assert_eq!(APBTickType::from_xtal_nanos(25_600, 25).value(), 10);
    assert_eq!(APBTickType::from_xtal_nanos(25_601, 25).value(), 11);
    let mut nanos: u128 = 1;
    while nanos < 100_000_000 {
        let v = APBTickType::from_xtal_nanos(nanos, 25).value();
        assert!(v <= 22);
        assert!(25u128 << v >= nanos);
        if v > 0 {
            assert!(25u128 << (v - 1) < nanos);
        }
        nanos = nanos * 7 / 5 + 3;
    }
}

#[test]
fn xtal_timeout_under_one_tick_is_zero() {
    assert_eq!(APBTickType::from_xtal_nanos(0, 25).value(), 0);
    assert_eq!(APBTickType::from_xtal_nanos(1, 25).value(), 0);
    assert_eq!(APBTickType::from_xtal_nanos(24, 25).value(), 0);
}

#[test]
fn xtal_timeout_beyond_u64_nanos_is_out_of_range() {
    let nanos: u128 = (1u128 << 64) + 50;
    assert_eq!(APBTickType::from_xtal_nanos(nanos, 25).value(), 32);
}

#[test]
fn ticks_as_c_int_reinterprets() {
    assert_eq!(ticks_as_c_int(BLOCK), -1);
    assert_eq!(ticks_as_c_int(1000), 1000);
    assert_eq!(ticks_as_c_int(0x8000_0000), i32::MIN);
}

#[test]
fn esp_error_conversions() {
    assert!(EspError::convert(ESP_OK).is_ok());
    assert_eq!(EspError::convert(ESP_ERR_TIMEOUT).unwrap_err().code(), ESP_ERR_TIMEOUT);
    assert!(EspError::from_code(ESP_OK).is_none());
    assert_eq!(EspError::from_code(ESP_ERR_NO_MEM).unwrap().code(), 0x101);
    assert_eq!(EspError::from_non_zero(-1).code(), ESP_FAIL);
}

#[test]
fn fail_maps_to_no_acknowledge() {
    let e = to_i2c_err(EspError::from_non_zero(ESP_FAIL));
    assert_eq!(e.kind(), ErrorKind::NoAcknowledge(NoAcknowledgeSource::Unknown));
    assert_eq!(e.cause().code(), ESP_FAIL);
}

#[test]
fn other_codes_map_to_other() {
    let e = to_i2c_err(EspError::from_non_zero(ESP_ERR_TIMEOUT));
    assert_eq!(e.kind(), ErrorKind::Other);
    assert_eq!(e.cause().code(), ESP_ERR_TIMEOUT);
    let o = I2cError::other(EspError::from_non_zero(5));
    assert_eq!(o.kind(), ErrorKind::Other);
    let n = I2cError::new(ErrorKind::Bus, EspError::from_non_zero(5));
    assert_eq!(n.kind(), ErrorKind::Bus);
}
