use esp_i2c::config::SlaveConfig;
use esp_i2c::error::{EspError, ESP_ERR_NO_MEM, ESP_ERR_TIMEOUT, ESP_FAIL, ESP_OK};
use esp_i2c::master::{AddressLength, ClockSource, I2C0, I2C1};
use esp_i2c::slave::{
    CallbackRegistration, I2cSlaveDriver, SlaveDeviceConfig, SlaveInit, SlaveInitAction, SlaveReadAction,
    RX_QUEUE_LENGTH, RX_QUEUE_TYPE_BASE,
};
use esp_i2c::units::BLOCK;

const EVENT_SIZE: u32 = 12;

fn queue() -> SlaveInitAction {
    SlaveInitAction::CreateQueue { length: RX_QUEUE_LENGTH, item_size: EVENT_SIZE, queue_type: RX_QUEUE_TYPE_BASE }
}

fn callbacks() -> CallbackRegistration {
    CallbackRegistration { on_recv_done: true, on_stretch_occur: false, queue_as_user_data: true }
}

fn setup(config: &SlaveConfig) -> SlaveInit {
    I2cSlaveDriver::<u8, u16>::new(I2C1, 6, 7, 0x28, config, EVENT_SIZE)
}

/// Runs a slave setup: `statuses` answers the calls, `queue` the queue creation.
fn run(mut init: SlaveInit, statuses: &[i32], queue: bool) -> Vec<SlaveInitAction> {
    let mut actions = vec![init.start()];
    let mut next = 0;
    while !init.is_done() {
        let a = if init.awaits_queue() {
            init.queue_created(queue)
        } else {
            let s = statuses[next];
            next += 1;
            init.resume(s)
        };
        actions.push(a);
    }
    actions
}

fn device(depth: u32) -> SlaveDeviceConfig {
    SlaveDeviceConfig {
        i2c_port: 1,
        sda_io_num: 6,
        scl_io_num: 7,
        clk_source: ClockSource::Default,
        slave_addr: 0x28,
        addr_bit_len: AddressLength::SevenBits,
        send_buf_depth: depth,
        intr_priority: 0,
        stretch_en: false,
        broadcast_en: false,
        access_ram_en: false,
        slave_unmatch_en: false,
        allow_pd: false,
    }
}

fn err(code: i32) -> Result<(), EspError> {
    Err(EspError::from_non_zero(code))
}

#[test]
fn default_send_buffer_depth() {
    let acts = run(setup(&SlaveConfig::new()), &[ESP_OK, ESP_OK], true);
    assert_eq!(acts[0], SlaveInitAction::NewSlaveDevice(device(256)));
}

#[test]
fn configured_send_buffer_depth() {
    let acts = run(setup(&SlaveConfig::new().tx_buffer_length(128)), &[ESP_OK, ESP_OK], true);
    assert_eq!(acts[0], SlaveInitAction::NewSlaveDevice(device(128)));
}

#[test]
fn setup_succeeds() {
    let acts = run(setup(&SlaveConfig::new()), &[ESP_OK, ESP_OK], true);
    assert_eq!(
        acts,
        vec![
            SlaveInitAction::NewSlaveDevice(device(256)),
            queue(),
            SlaveInitAction::RegisterCallbacks(callbacks()),
            SlaveInitAction::Complete(Ok(())),
        ]
    );
}

#[test]
fn device_creation_failure() {
    let acts = run(setup(&SlaveConfig::new()), &[0x103], true);
    assert_eq!(acts, vec![SlaveInitAction::NewSlaveDevice(device(256)), SlaveInitAction::Complete(err(0x103))]);
}

#[test]
fn missing_queue_deletes_device() {
    let acts = run(setup(&SlaveConfig::new()), &[ESP_OK, ESP_FAIL], false);
    assert_eq!(
        acts,
        vec![
            SlaveInitAction::NewSlaveDevice(device(256)),
            queue(),
            SlaveInitAction::DeleteSlaveDevice,
            SlaveInitAction::Complete(err(ESP_ERR_NO_MEM)),
        ]
    );
}

#[test]
fn registration_failure_deletes_queue_then_device() {
    let acts = run(setup(&SlaveConfig::new()), &[ESP_OK, 0x102, ESP_OK, ESP_FAIL], true);
    assert_eq!(
        acts,
        vec![
            SlaveInitAction::NewSlaveDevice(device(256)),
            queue(),
            SlaveInitAction::RegisterCallbacks(callbacks()),
            SlaveInitAction::DeleteQueue,
            SlaveInitAction::DeleteSlaveDevice,
            SlaveInitAction::Complete(err(0x102)),
        ]
    );
}

#[test]
fn driver_keeps_handles_and_port() {
    let mut init = I2cSlaveDriver::<u8, u16>::new(I2C0, 6, 7, 0x28, &SlaveConfig::new(), EVENT_SIZE);
    init.start();
    init.resume(ESP_OK);
    init.queue_created(true);
    init.resume(ESP_OK);
    let d = init.into_driver(3u8, 9u16);
    assert_eq!(d.handle, 3);
    assert_eq!(d.rx_queue, 9);
    assert_eq!(d.port(), 0);
}

fn driver() -> I2cSlaveDriver<u8, u16> {
    let mut init = I2cSlaveDriver::<u8, u16>::new(I2C0, 6, 7, 0x28, &SlaveConfig::new(), EVENT_SIZE);
    init.start();
    init.resume(ESP_OK);
    init.queue_created(true);
    init.resume(ESP_OK);
    init.into_driver(3u8, 9u16)
}

#[test]
fn slave_read_receives_whole_buffer() {
    let d = driver();
    let mut r = d.read(16, 50);
    assert_eq!(r.start(), SlaveReadAction::StartReceive { len: 16 });
    assert_eq!(r.receive_started(ESP_OK), SlaveReadAction::WaitForData { timeout: 50 });
    assert_eq!(r.data_received(true), Ok(16));
}

#[test]
fn slave_read_times_out() {
    let d = driver();
    let mut r = d.read(16, 50);
    r.start();
    r.receive_started(ESP_OK);
    assert_eq!(r.data_received(false).unwrap_err().code(), ESP_ERR_TIMEOUT);
}

#[test]
fn slave_read_reports_receive_error() {
    let d = driver();
    let mut r = d.read(16, BLOCK);
    r.start();
    assert_eq!(
        r.receive_started(0x103),
        SlaveReadAction::Complete(Err(EspError::from_non_zero(0x103)))
    );
}

#[test]
fn slave_write_reports_length_or_error() {
    let d = driver();
    let w = d.write(5, BLOCK);
    assert_eq!((w.len, w.size, w.timeout), (5, 5, -1));
    assert_eq!(w.finish(ESP_OK), Ok(5));
    assert_eq!(w.finish(ESP_FAIL).unwrap_err().code(), ESP_FAIL);
}

#[test]
fn queue_and_callbacks_requested() {
    let acts = run(setup(&SlaveConfig::new()), &[ESP_OK, ESP_OK], true);
    assert_eq!(acts[1], SlaveInitAction::CreateQueue { length: 1, item_size: 12, queue_type: 0 });
    assert_eq!(
        acts[2],
        SlaveInitAction::RegisterCallbacks(CallbackRegistration {
            on_recv_done: true,
            on_stretch_occur: false,
            queue_as_user_data: true,
        })
    );
}

#[test]
fn config_aliases_name_the_same_types() {
    let c: esp_i2c::config::I2cSlaveConfig = SlaveConfig::new();
    assert_eq!(c.tx_buf_len, 0);
    let m: esp_i2c::config::I2cConfig = esp_i2c::config::Config::new();
    assert!(m.sda_pullup_enabled);
}
