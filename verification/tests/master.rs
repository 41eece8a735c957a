use esp_i2c::config::Config;
use esp_i2c::error::{EspError, ESP_ERR_INVALID_ARG, ESP_FAIL, ESP_OK};
use esp_i2c::master::{
    AddressLength, BusCall, ClockSource, DeviceConfig, I2C0, I2C1, I2cDriver, MasterAction, MasterSession, Operation,
    GLITCH_IGNORE_COUNT,
};
use esp_i2c::units::{Hertz, BLOCK};

fn driver(baud: u32) -> I2cDriver<u8> {
    let config = Config::new().baudrate(Hertz(baud));
    I2cDriver::<u8>::new(I2C0, 21, 22, &config)
        .unwrap()
        .finish(ESP_OK, 7u8)
        .unwrap()
}

/// Runs a transfer, answering the calls with `statuses` in turn.
fn run(mut session: MasterSession, statuses: &[i32]) -> Vec<MasterAction> {
    let mut actions = vec![session.start()];
    let mut next = 0;
    while !matches!(actions.last(), Some(MasterAction::Complete(_))) {
        let status = statuses[next];
        next += 1;
        actions.push(session.resume(status));
    }
    assert!(session.is_done());
    actions
}

fn err(code: i32) -> Result<(), EspError> {
    Err(EspError::from_non_zero(code))
}

fn device(address: u16, baud: u32) -> DeviceConfig {
    DeviceConfig {
        dev_addr_length: AddressLength::SevenBits,
        device_address: address,
        scl_speed_hz: baud,
        scl_wait_us: 0,
        disable_ack_check: false,
    }
}

#[test]
fn new_accepts_one_megahertz() {
    let config = Config::new();
    let init = I2cDriver::<u8>::new(I2C1, 4, 5, &config).unwrap();
    assert_eq!(init.port, 1);
    assert_eq!(init.baudrate, 1_000_000);
    assert_eq!(init.bus_config.i2c_port, 1);
    assert_eq!(init.bus_config.clk_source, ClockSource::Default);
    assert_eq!(init.bus_config.sda_io_num, 4);
    assert_eq!(init.bus_config.scl_io_num, 5);
    assert_eq!(init.bus_config.glitch_ignore_cnt, GLITCH_IGNORE_COUNT);
    assert_eq!(init.bus_config.glitch_ignore_cnt, 7);
    assert_eq!(init.bus_config.intr_priority, 0);
    assert_eq!(init.bus_config.trans_queue_depth, 0);
    assert!(init.bus_config.enable_internal_pullup);
    assert!(!init.bus_config.allow_pd);
}

#[test]
fn new_refuses_more_than_one_megahertz() {
    let config = Config::new().baudrate(Hertz(1_000_001));
    let r = I2cDriver::<u8>::new(I2C0, 21, 22, &config);
    assert_eq!(r.unwrap_err().code(), ESP_ERR_INVALID_ARG);
}

#[test]
fn pullup_is_enabled_when_either_line_asks_for_it() {
    let both_off = Config::new().sda_enable_pullup(false).scl_enable_pullup(false);
    let init = I2cDriver::<u8>::new(I2C0, 1, 2, &both_off).unwrap();
    assert!(!init.bus_config.enable_internal_pullup);
    let scl_only = Config::new().sda_enable_pullup(false);
    let init = I2cDriver::<u8>::new(I2C0, 1, 2, &scl_only).unwrap();
    assert!(init.bus_config.enable_internal_pullup);
}

#[test]
fn finish_keeps_handle_and_port() {
    let init = I2cDriver::<u8>::new(I2C1, 4, 5, &Config::new()).unwrap();
    let d = init.finish(ESP_OK, 42u8).unwrap();
    assert_eq!(d.bus_handle, 42);
    assert_eq!(d.port(), 1);
}

#[test]
fn finish_reports_bus_creation_error() {
    let init = I2cDriver::<u8>::new(I2C0, 4, 5, &Config::new()).unwrap();
    let r = init.finish(0x103, 42u8);
    assert_eq!(r.err().unwrap().code(), 0x103);
}

#[test]
fn read_all_calls_succeed() {
    let d = driver(400_000);
    let acts = run(d.read(0x48, 4, 100), &[ESP_OK, ESP_OK, ESP_OK]);
    assert_eq!(
        acts,
        vec![
            MasterAction::AddDevice(device(0x48, 400_000)),
            MasterAction::Call { index: 0, call: BusCall::Receive(4), timeout: 100 },
            MasterAction::RemoveDevice,
            MasterAction::Complete(Ok(())),
        ]
    );
}

#[test]
fn empty_read_does_not_touch_the_bus() {
    let d = driver(400_000);
    assert_eq!(run(d.read(0x48, 0, 100), &[]), vec![MasterAction::Complete(Ok(()))]);
}

#[test]
fn empty_write_does_not_touch_the_bus() {
    let d = driver(400_000);
    assert_eq!(run(d.write(0x48, 0, 100), &[]), vec![MasterAction::Complete(Ok(()))]);
}

#[test]
fn write_failure_removes_device_and_reports_error() {
    let d = driver(100_000);
    let acts = run(d.write(0x10, 3, 5), &[ESP_OK, ESP_FAIL, 0x105]);
    assert_eq!(
        acts,
        vec![
            MasterAction::AddDevice(device(0x10, 100_000)),
            MasterAction::Call { index: 0, call: BusCall::Transmit(3), timeout: 5 },
            MasterAction::RemoveDevice,
            MasterAction::Complete(err(ESP_FAIL)),
        ]
    );
}

#[test]
fn failed_device_addition_ends_without_removal() {
    let d = driver(100_000);
    let acts = run(d.write(0x10, 3, 5), &[0x101]);
    assert_eq!(acts, vec![MasterAction::AddDevice(device(0x10, 100_000)), MasterAction::Complete(err(0x101))]);
}

#[test]
fn write_read_of_empty_buffers_still_calls() {
    let d = driver(100_000);
    let acts = run(d.write_read(0x20, 0, 0, 9), &[ESP_OK, ESP_OK, ESP_OK]);
    assert_eq!(
        acts,
        vec![
            MasterAction::AddDevice(device(0x20, 100_000)),
            MasterAction::Call { index: 0, call: BusCall::TransmitReceive(0, 0), timeout: 9 },
            MasterAction::RemoveDevice,
            MasterAction::Complete(Ok(())),
        ]
    );
}

#[test]
fn transaction_skips_empty_operations_in_order() {
    let d = driver(100_000);
    let ops = [Operation::Write(2), Operation::Read(0), Operation::Write(0), Operation::Read(3)];
    let acts = run(d.transaction(0x30, &ops, 1), &[ESP_OK; 8]);
    assert_eq!(
        acts,
        vec![
            MasterAction::AddDevice(device(0x30, 100_000)),
            MasterAction::Call { index: 0, call: BusCall::Transmit(2), timeout: 1 },
            MasterAction::Call { index: 3, call: BusCall::Receive(3), timeout: 1 },
            MasterAction::RemoveDevice,
            MasterAction::Complete(Ok(())),
        ]
    );
}

#[test]
fn transaction_stops_at_first_failure() {
    let d = driver(100_000);
    let ops = [Operation::Write(1), Operation::Read(2), Operation::Write(3)];
    let acts = run(d.transaction(0x30, &ops, 1), &[ESP_OK, ESP_OK, 0x107, ESP_OK, ESP_OK]);
    assert_eq!(
        acts,
        vec![
            MasterAction::AddDevice(device(0x30, 100_000)),
            MasterAction::Call { index: 0, call: BusCall::Transmit(1), timeout: 1 },
            MasterAction::Call { index: 1, call: BusCall::Receive(2), timeout: 1 },
            MasterAction::RemoveDevice,
            MasterAction::Complete(err(0x107)),
        ]
    );
}

#[test]
fn empty_transaction_still_adds_and_removes_device() {
    let d = driver(100_000);
    let acts = run(d.transaction(0x30, &[], 1), &[ESP_OK, ESP_OK]);
    assert_eq!(
        acts,
        vec![
            MasterAction::AddDevice(device(0x30, 100_000)),
            MasterAction::RemoveDevice,
            MasterAction::Complete(Ok(())),
        ]
    );
}

#[test]
fn removal_status_is_ignored() {
    let d = driver(100_000);
    let acts = run(d.read(0x30, 1, 1), &[ESP_OK, ESP_OK, ESP_FAIL]);
    assert_eq!(acts.last(), Some(&MasterAction::Complete(Ok(()))));
}

#[test]
fn block_timeout_becomes_minus_one() {
    let d = driver(100_000);
    let acts = run(d.read(0x30, 1, BLOCK), &[ESP_OK, ESP_OK, ESP_OK]);
    assert_eq!(acts[1], MasterAction::Call { index: 0, call: BusCall::Receive(1), timeout: -1 });
}

#[test]
fn device_address_and_speed_follow_driver() {
    let d = driver(250_000);
    let acts = run(d.read(0x7f, 1, 0), &[0x101]);
    assert_eq!(acts[0], MasterAction::AddDevice(device(0x7f, 250_000)));
}

#[test]
fn driver_port_numbers() {
    let d0 = I2cDriver::<u8>::new(I2C0, 1, 2, &Config::new()).unwrap().finish(ESP_OK, 0u8).unwrap();
    let d1 = I2cDriver::<u8>::new(I2C1, 1, 2, &Config::new()).unwrap().finish(ESP_OK, 0u8).unwrap();
    assert_eq!(d0.port(), 0);
    assert_eq!(d1.port(), 1);
}
