//! The I2C slave driver: the sequence of ESP-IDF calls that sets a slave up,
//! and the calls of its reads and writes.
//!
//! Setting up a slave creates the slave device, a queue that the receive
//! callback posts to, and registers that callback. When a step fails, what
//! was created before is deleted again, newest first, and the error is
//! returned.

use vstd::prelude::*;
use crate::config::SlaveConfig;
use crate::error::{EspError, esp_error, ESP_OK, ESP_ERR_NO_MEM, ESP_ERR_TIMEOUT};
use crate::master::{AddressLength, ClockSource, I2c};
use crate::units::{TickType, ticks_as_c_int, c_int_of_ticks};

verus! {

/// Transmit buffer depth used when the configuration leaves it at 0.
pub const DEFAULT_SEND_BUF_DEPTH: u32 = 256;

/// Number of receive notifications the queue holds.
pub const RX_QUEUE_LENGTH: u32 = 1;

/// FreeRTOS queue type of the receive queue: a plain queue (`queueQUEUE_TYPE_BASE`).
pub const RX_QUEUE_TYPE_BASE: u8 = 0;

/// The event callbacks registered on a slave device.
#[derive(Clone, Copy, Debug, PartialEq, Eq, Structural)]
pub struct CallbackRegistration {
    /// Whether the receive-done callback, which posts the event to the
    /// receive queue, is set.
    pub on_recv_done: bool,
    /// Whether a clock-stretch callback is set.
    pub on_stretch_occur: bool,
    /// Whether the receive queue is the callbacks' user data.
    pub queue_as_user_data: bool,
}

/// The callbacks a slave registers: the receive-done callback only, with the
/// receive queue as its user data.
pub open spec fn rx_callbacks() -> CallbackRegistration {
    CallbackRegistration { on_recv_done: true, on_stretch_occur: false, queue_as_user_data: true }
}

/// The receive queue a slave creates, for notifications of `item_size` bytes.
pub open spec fn rx_queue_request(item_size: u32) -> SlaveInitAction {
    SlaveInitAction::CreateQueue { length: RX_QUEUE_LENGTH, item_size, queue_type: RX_QUEUE_TYPE_BASE }
}

/// The fields of `i2c_slave_config_t` that the driver sets.
#[derive(Clone, Copy, Debug, PartialEq, Eq, Structural)]
pub struct SlaveDeviceConfig {
    pub i2c_port: i32,
    pub sda_io_num: i32,
    pub scl_io_num: i32,
    pub clk_source: ClockSource,
    pub slave_addr: u16,
    pub addr_bit_len: AddressLength,
    pub send_buf_depth: u32,
    pub intr_priority: i32,
    pub stretch_en: bool,
    pub broadcast_en: bool,
    pub access_ram_en: bool,
    pub slave_unmatch_en: bool,
    pub allow_pd: bool,
}

/// The transmit buffer depth for a configured length: the length as a
/// `u32`, or the default when it is 0.
pub open spec fn send_buf_depth(tx_buf_len: usize) -> u32 {
    if tx_buf_len > 0 {
        tx_buf_len as u32
    } else {
        DEFAULT_SEND_BUF_DEPTH
    }
}

/// The transmit buffer is as deep as configured, and 256 bytes only when the
/// configuration leaves it at 0.
pub proof fn law_send_buf_depth(tx_buf_len: usize)
    ensures
        tx_buf_len == 0 ==> send_buf_depth(tx_buf_len) == 256,
        0 < tx_buf_len <= u32::MAX ==> send_buf_depth(tx_buf_len) == tx_buf_len,
{
}

/// The slave device configuration for `port`, the pins and `slave_addr`.
pub open spec fn slave_device_config(
    port: i32,
    sda: i32,
    scl: i32,
    slave_addr: u8,
    config: SlaveConfig,
) -> SlaveDeviceConfig {
    SlaveDeviceConfig {
        i2c_port: port,
        sda_io_num: sda,
        scl_io_num: scl,
        clk_source: ClockSource::Default,
        slave_addr: slave_addr as u16,
        addr_bit_len: AddressLength::SevenBits,
        send_buf_depth: send_buf_depth(config.tx_buf_len),
        intr_priority: 0,
        stretch_en: false,
        broadcast_en: false,
        access_ram_en: false,
        slave_unmatch_en: false,
        allow_pd: false,
    }
}

/// Where the setup of a slave stands.
#[derive(Clone, Copy, Debug, PartialEq, Eq, Structural)]
pub enum SlaveInitStage {
    Ready,
    /// Waiting for `i2c_new_slave_device`.
    CreatingDevice,
    /// Waiting for the receive queue.
    CreatingQueue,
    /// Waiting for `i2c_slave_register_event_callbacks`.
    RegisteringCallbacks,
    /// Deleting the queue after this error.
    DeletingQueue(EspError),
    /// Deleting the slave device after this error.
    DeletingDevice(EspError),
    /// Completed; with success when the flag is set.
    Done(bool),
}

/// The next ESP-IDF call of a slave setup, or its result.
#[derive(Clone, Copy, Debug, PartialEq, Eq)]
pub enum SlaveInitAction {
    /// `i2c_new_slave_device` with this configuration.
    NewSlaveDevice(SlaveDeviceConfig),
    /// Create a FreeRTOS queue of `length` items of `item_size` bytes, of
    /// type `queue_type`.
    CreateQueue { length: u32, item_size: u32, queue_type: u8 },
    /// Register these callbacks on the slave device.
    RegisterCallbacks(CallbackRegistration),
    /// Delete the queue.
    DeleteQueue,
    /// `i2c_del_slave_device`.
    DeleteSlaveDevice,
    /// The setup is over, with this result.
    Complete(Result<(), EspError>),
}

/// The state of a slave setup.
pub struct SlaveInitView {
    pub port: i32,
    /// Size of one receive notification in bytes.
    pub rx_event_size: u32,
    pub device: SlaveDeviceConfig,
    pub stage: SlaveInitStage,
}

/// The first action: create the slave device.
pub open spec fn init_start_step(v: SlaveInitView) -> (SlaveInitView, SlaveInitAction) {
    (
        SlaveInitView { stage: SlaveInitStage::CreatingDevice, ..v },
        SlaveInitAction::NewSlaveDevice(v.device),
    )
}

/// Whether the setup waits for the status of a call other than the queue creation.
pub open spec fn init_awaits_status(v: SlaveInitView) -> bool {
    match v.stage {
        SlaveInitStage::CreatingDevice => true,
        SlaveInitStage::RegisteringCallbacks => true,
        SlaveInitStage::DeletingQueue(_) => true,
        SlaveInitStage::DeletingDevice(_) => true,
        _ => false,
    }
}

/// The next state and action once the pending call returned `status`; the
/// status of a deletion is not looked at.
pub open spec fn init_resume_step(v: SlaveInitView, status: i32) -> (SlaveInitView, SlaveInitAction) {
    match v.stage {
        SlaveInitStage::CreatingDevice => {
            if status != ESP_OK {
                (
                    SlaveInitView { stage: SlaveInitStage::Done(false), ..v },
                    SlaveInitAction::Complete(Err(esp_error(status))),
                )
            } else {
                (
                    SlaveInitView { stage: SlaveInitStage::CreatingQueue, ..v },
                    rx_queue_request(v.rx_event_size),
                )
            }
        },
        SlaveInitStage::RegisteringCallbacks => {
            if status != ESP_OK {
                (
                    SlaveInitView { stage: SlaveInitStage::DeletingQueue(esp_error(status)), ..v },
                    SlaveInitAction::DeleteQueue,
                )
            } else {
                (
                    SlaveInitView { stage: SlaveInitStage::Done(true), ..v },
                    SlaveInitAction::Complete(Ok(())),
                )
            }
        },
        SlaveInitStage::DeletingQueue(e) => (
            SlaveInitView { stage: SlaveInitStage::DeletingDevice(e), ..v },
            SlaveInitAction::DeleteSlaveDevice,
        ),
        SlaveInitStage::DeletingDevice(e) => (
            SlaveInitView { stage: SlaveInitStage::Done(false), ..v },
            SlaveInitAction::Complete(Err(e)),
        ),
        _ => (v, SlaveInitAction::Complete(Ok(()))),
    }
}

/// The next state and action once the queue creation returned a queue
/// (`created`) or none; without a queue the device is deleted and the setup
/// fails with `ESP_ERR_NO_MEM`.
pub open spec fn init_queue_step(v: SlaveInitView, created: bool) -> (SlaveInitView, SlaveInitAction) {
    if created {
        (
            SlaveInitView { stage: SlaveInitStage::RegisteringCallbacks, ..v },
            SlaveInitAction::RegisterCallbacks(rx_callbacks()),
        )
    } else {
        (
            SlaveInitView { stage: SlaveInitStage::DeletingDevice(esp_error(ESP_ERR_NO_MEM)), ..v },
            SlaveInitAction::DeleteSlaveDevice,
        )
    }
}

/// The setup of an I2C slave in progress.
pub struct SlaveInit {
    port: i32,
    rx_event_size: u32,
    device: SlaveDeviceConfig,
    stage: SlaveInitStage,
}

impl View for SlaveInit {
    type V = SlaveInitView;

    closed spec fn view(&self) -> SlaveInitView {
        SlaveInitView {
            port: self.port,
            rx_event_size: self.rx_event_size,
            device: self.device,
            stage: self.stage,
        }
    }
}

impl SlaveInit {
    /// The first action of the setup.
    pub fn start(&mut self) -> (a: SlaveInitAction)
        requires
            old(self)@.stage is Ready,
        ensures
            (final(self)@, a) == init_start_step(old(self)@),
    {
        self.stage = SlaveInitStage::CreatingDevice;
        SlaveInitAction::NewSlaveDevice(self.device)
    }

    /// Whether the setup waits for the queue creation.
    pub fn awaits_queue(&self) -> (r: bool)
        ensures
            r == (self@.stage is CreatingQueue),
    {
        matches!(self.stage, SlaveInitStage::CreatingQueue)
    }

    /// Whether the setup has completed.
    pub fn is_done(&self) -> (r: bool)
        ensures
            r == (self@.stage is Done),
    {
        matches!(self.stage, SlaveInitStage::Done(_))
    }

    /// The next action, given the status that the last call returned.
    pub fn resume(&mut self, status: i32) -> (a: SlaveInitAction)
        requires
            init_awaits_status(old(self)@),
        ensures
            (final(self)@, a) == init_resume_step(old(self)@, status),
            a is Complete <==> final(self)@.stage is Done,
    {
        match self.stage {
            SlaveInitStage::CreatingDevice => {
                if status != ESP_OK {
                    self.stage = SlaveInitStage::Done(false);
                    SlaveInitAction::Complete(Err(EspError::from_non_zero(status)))
                } else {
                    self.stage = SlaveInitStage::CreatingQueue;
                    SlaveInitAction::CreateQueue {
                        length: RX_QUEUE_LENGTH,
                        item_size: self.rx_event_size,
                        queue_type: RX_QUEUE_TYPE_BASE,
                    }
                }
            },
            SlaveInitStage::RegisteringCallbacks => {
                if status != ESP_OK {
                    self.stage = SlaveInitStage::DeletingQueue(EspError::from_non_zero(status));
                    SlaveInitAction::DeleteQueue
                } else {
                    self.stage = SlaveInitStage::Done(true);
                    SlaveInitAction::Complete(Ok(()))
                }
            },
            SlaveInitStage::DeletingQueue(e) => {
                self.stage = SlaveInitStage::DeletingDevice(e);
                SlaveInitAction::DeleteSlaveDevice
            },
            SlaveInitStage::DeletingDevice(e) => {
                self.stage = SlaveInitStage::Done(false);
                SlaveInitAction::Complete(Err(e))
            },
            _ => SlaveInitAction::Complete(Ok(())),
        }
    }

    /// The next action, given whether the queue creation returned a queue.
    pub fn queue_created(&mut self, created: bool) -> (a: SlaveInitAction)
        requires
            old(self)@.stage is CreatingQueue,
        ensures
            (final(self)@, a) == init_queue_step(old(self)@, created),
    {
        if created {
            self.stage = SlaveInitStage::RegisteringCallbacks;
            SlaveInitAction::RegisterCallbacks(
                CallbackRegistration { on_recv_done: true, on_stretch_occur: false, queue_as_user_data: true },
            )
        } else {
            self.stage = SlaveInitStage::DeletingDevice(EspError::from_non_zero(ESP_ERR_NO_MEM));
            SlaveInitAction::DeleteSlaveDevice
        }
    }

    /// The slave, once the setup succeeded, holding the device handle and
    /// the receive queue that were created.
    pub fn into_driver<H, Q>(self, handle: H, rx_queue: Q) -> (r: I2cSlaveDriver<H, Q>)
        requires
            self@.stage == SlaveInitStage::Done(true),
        ensures
            r.port_byte() == self@.port as u8,
            r.device_handle() == handle,
            r.queue() == rx_queue,
    {
        I2cSlaveDriver { i2c: self.port as u8, handle, rx_queue }
    }
}

/// An I2C slave, holding its ESP-IDF device handle and receive queue.
pub struct I2cSlaveDriver<H, Q> {
    i2c: u8,
    pub handle: H,
    pub rx_queue: Q,
}

/// Where a slave read stands.
#[derive(Clone, Copy, Debug, PartialEq, Eq, Structural)]
pub enum SlaveReadStage {
    Ready,
    /// Waiting for `i2c_slave_receive`.
    StartingReceive,
    /// Waiting for the receive callback's notification.
    WaitingForData,
    Done,
}

/// The next call of a slave read, or its result.
#[derive(Clone, Copy, Debug, PartialEq, Eq)]
pub enum SlaveReadAction {
    /// `i2c_slave_receive` into the buffer of `len` bytes.
    StartReceive { len: usize },
    /// Wait up to `timeout` ticks for the queue to receive a notification.
    WaitForData { timeout: TickType },
    /// The read is over: the number of bytes received, or an error.
    Complete(Result<usize, EspError>),
}

/// A slave read in progress.
pub struct SlaveRead {
    len: usize,
    timeout: TickType,
    stage: SlaveReadStage,
}

/// The state of a slave read.
pub struct SlaveReadView {
    pub len: usize,
    pub timeout: TickType,
    pub stage: SlaveReadStage,
}

impl View for SlaveRead {
    type V = SlaveReadView;

    closed spec fn view(&self) -> SlaveReadView {
        SlaveReadView { len: self.len, timeout: self.timeout, stage: self.stage }
    }
}

impl SlaveRead {
    /// The first action: start receiving into the whole buffer.
    pub fn start(&mut self) -> (a: SlaveReadAction)
        requires
            old(self)@.stage is Ready,
        ensures
            final(self)@ == (SlaveReadView { stage: SlaveReadStage::StartingReceive, ..old(self)@ }),
            a == (SlaveReadAction::StartReceive { len: old(self)@.len }),
    {
        self.stage = SlaveReadStage::StartingReceive;
        SlaveReadAction::StartReceive { len: self.len }
    }

    /// The next action once `i2c_slave_receive` returned `status`: its error,
    /// or the wait for the data.
    pub fn receive_started(&mut self, status: i32) -> (a: SlaveReadAction)
        requires
            old(self)@.stage is StartingReceive,
        ensures
            status != ESP_OK ==> final(self)@ == (SlaveReadView { stage: SlaveReadStage::Done, ..old(self)@ })
                && a == SlaveReadAction::Complete(Err(esp_error(status))),
            status == ESP_OK ==> final(self)@ == (SlaveReadView {
                stage: SlaveReadStage::WaitingForData,
                ..old(self)@
            }) && a == (SlaveReadAction::WaitForData { timeout: old(self)@.timeout }),
    {
        if status != ESP_OK {
            self.stage = SlaveReadStage::Done;
            SlaveReadAction::Complete(Err(EspError::from_non_zero(status)))
        } else {
            self.stage = SlaveReadStage::WaitingForData;
            SlaveReadAction::WaitForData { timeout: self.timeout }
        }
    }

    /// The result once the wait ended: the whole buffer was received when a
    /// notification came, else the read timed out.
    pub fn data_received(&mut self, received: bool) -> (r: Result<usize, EspError>)
        requires
            old(self)@.stage is WaitingForData,
        ensures
            final(self)@ == (SlaveReadView { stage: SlaveReadStage::Done, ..old(self)@ }),
            received ==> r == Ok::<usize, EspError>(old(self)@.len),
            !received ==> r == Err::<usize, EspError>(esp_error(ESP_ERR_TIMEOUT)),
    {
        self.stage = SlaveReadStage::Done;
        if received {
            Ok(self.len)
        } else {
            Err(EspError::from_non_zero(ESP_ERR_TIMEOUT))
        }
    }
}

/// The arguments of one `i2c_slave_transmit` call.
#[derive(Clone, Copy, Debug, PartialEq, Eq, Structural)]
pub struct SlaveTransmit {
    /// Bytes handed to the driver.
    pub len: usize,
    /// The length as the C `int` the call takes.
    pub size: i32,
    /// The timeout: its tick count taken as a C `int`.
    pub timeout: i32,
}

impl SlaveTransmit {
    /// The result of the write once `i2c_slave_transmit` returned `status`:
    /// the number of bytes handed over, or the error.
    pub fn finish(&self, status: i32) -> (r: Result<usize, EspError>)
        ensures
            status == ESP_OK ==> r == Ok::<usize, EspError>(self.len),
            status != ESP_OK ==> r == Err::<usize, EspError>(esp_error(status)),
    {
        if status != ESP_OK {
            return Err(EspError::from_non_zero(status));
        }
        Ok(self.len)
    }
}

impl<H, Q> I2cSlaveDriver<H, Q> {
    /// The port number the slave was created for, as a byte.
    pub closed spec fn port_byte(&self) -> u8 {
        self.i2c
    }

    /// The ESP-IDF slave device handle.
    pub closed spec fn device_handle(&self) -> H {
        self.handle
    }

    /// The queue the receive callback posts to.
    pub closed spec fn queue(&self) -> Q {
        self.rx_queue
    }

    /// Starts the setup of a slave with address `slave_addr` on the
    /// peripheral `_i2c` with the given SDA and SCL pins; a receive
    /// notification (`i2c_slave_rx_done_event_data_t`) takes `rx_event_size` bytes.
    pub fn new<I: I2c>(
        _i2c: I,
        sda: i32,
        scl: i32,
        slave_addr: u8,
        config: &SlaveConfig,
        rx_event_size: u32,
    ) -> (r: SlaveInit)
        ensures
            r@ == (SlaveInitView {
                port: I::port_spec(),
                rx_event_size,
                device: slave_device_config(I::port_spec(), sda, scl, slave_addr, *config),
                stage: SlaveInitStage::Ready,
            }),
            config.tx_buf_len == 0 ==> r@.device.send_buf_depth == 256,
            0 < config.tx_buf_len <= u32::MAX ==> r@.device.send_buf_depth == config.tx_buf_len,
            r@.device.slave_addr == slave_addr,
            r@.device.i2c_port == I::port_spec() && r@.device.sda_io_num == sda && r@.device.scl_io_num == scl,
    {
        let port = I::port();
        let depth = if config.tx_buf_len > 0 {
            config.tx_buf_len as u32
        } else {
            DEFAULT_SEND_BUF_DEPTH
        };
        let device = SlaveDeviceConfig {
            i2c_port: port,
            sda_io_num: sda,
            scl_io_num: scl,
            clk_source: ClockSource::Default,
            slave_addr: slave_addr as u16,
            addr_bit_len: AddressLength::SevenBits,
            send_buf_depth: depth,
            intr_priority: 0,
            stretch_en: false,
            broadcast_en: false,
            access_ram_en: false,
            slave_unmatch_en: false,
            allow_pd: false,
        };
        SlaveInit { port, rx_event_size, device, stage: SlaveInitStage::Ready }
    }

    /// Reads into a buffer of `len` bytes, waiting up to `timeout` ticks.
    pub fn read(&self, len: usize, timeout: TickType) -> (r: SlaveRead)
        ensures
            r@ == (SlaveReadView { len, timeout, stage: SlaveReadStage::Ready }),
    {
        SlaveRead { len, timeout, stage: SlaveReadStage::Ready }
    }

    /// Writes `len` bytes with the given timeout, handed to the call as a C `int`.
    pub fn write(&self, len: usize, timeout: TickType) -> (r: SlaveTransmit)
        ensures
            r.len == len,
            r.size == len as i32,
            len <= i32::MAX ==> r.size == len,
            r.timeout as int == c_int_of_ticks(timeout),
    {
        SlaveTransmit { len, size: len as i32, timeout: ticks_as_c_int(timeout) }
    }

    /// The port number.
    pub fn port(&self) -> (r: i32)
        ensures
            r == self.port_byte() as i32,
    {
        self.i2c as i32
    }
}

/// The slave device is on the given port and pins with the default clock
/// source, answers the 7-bit address `slave_addr`, has the transmit buffer
/// depth of `send_buf_depth`, and has clock stretching, broadcast, RAM
/// access, unmatched-address events and power-down off.
pub proof fn law_slave_device_config(port: i32, sda: i32, scl: i32, slave_addr: u8, config: SlaveConfig)
    ensures
        ({
            let d = slave_device_config(port, sda, scl, slave_addr, config);
            &&& d.i2c_port == port && d.sda_io_num == sda && d.scl_io_num == scl
            &&& d.clk_source == ClockSource::Default
            &&& d.slave_addr == slave_addr && d.addr_bit_len == AddressLength::SevenBits
            &&& d.send_buf_depth == send_buf_depth(config.tx_buf_len)
            &&& d.intr_priority == 0
            &&& !d.stretch_en && !d.broadcast_en && !d.access_ram_en && !d.slave_unmatch_en && !d.allow_pd
        }),
{
}

/// The receive queue holds one notification of the given size in a plain
/// queue, and the only callback registered is the receive-done one, with the
/// queue as its user data.
pub proof fn law_rx_queue_and_callbacks(item_size: u32)
    ensures
        rx_queue_request(item_size) == (SlaveInitAction::CreateQueue {
            length: 1,
            item_size,
            queue_type: 0,
        }),
        rx_callbacks().on_recv_done,
        !rx_callbacks().on_stretch_occur,
        rx_callbacks().queue_as_user_data,
{
}

/// All actions of a slave setup started from `v` when the device creation
/// returns `device_status`, the queue creation gives a queue or not
/// (`queue_created`), the callback registration returns `register_status`
/// and the deletions return `delete_statuses`.
pub open spec fn init_run(
    v: SlaveInitView,
    device_status: i32,
    queue_created: bool,
    register_status: i32,
    delete_statuses: (i32, i32),
) -> Seq<SlaveInitAction> {
    let (v1, a1) = init_start_step(v);
    let (v2, a2) = init_resume_step(v1, device_status);
    if a2 is Complete {
        seq![a1, a2]
    } else {
        let (v3, a3) = init_queue_step(v2, queue_created);
        if !queue_created {
            let (v4, a4) = init_resume_step(v3, delete_statuses.1);
            seq![a1, a2, a3, a4]
        } else {
            let (v4, a4) = init_resume_step(v3, register_status);
            if a4 is Complete {
                seq![a1, a2, a3, a4]
            } else {
                let (v5, a5) = init_resume_step(v4, delete_statuses.0);
                let (v6, a6) = init_resume_step(v5, delete_statuses.1);
                seq![a1, a2, a3, a4, a5, a6]
            }
        }
    }
}

/// What a slave setup does. It creates the device, then the receive queue,
/// then registers the callback. When a step fails, everything created before
/// it is deleted, newest first, whatever the deletions return, and the setup
/// fails with the step's error (`ESP_ERR_NO_MEM` for a missing queue). When
/// every step succeeds, nothing is deleted and the setup succeeds.
pub proof fn law_slave_init_run(
    v: SlaveInitView,
    device_status: i32,
    queue_created: bool,
    register_status: i32,
    delete_statuses: (i32, i32),
)
    requires
        v.stage is Ready,
    ensures
        ({
            let acts = init_run(v, device_status, queue_created, register_status, delete_statuses);
            &&& device_status != ESP_OK ==> acts == seq![
                SlaveInitAction::NewSlaveDevice(v.device),
                SlaveInitAction::Complete(Err(esp_error(device_status))),
            ]
            &&& device_status == ESP_OK && !queue_created ==> acts == seq![
                SlaveInitAction::NewSlaveDevice(v.device),
                rx_queue_request(v.rx_event_size),
                SlaveInitAction::DeleteSlaveDevice,
                SlaveInitAction::Complete(Err(esp_error(ESP_ERR_NO_MEM))),
            ]
            &&& device_status == ESP_OK && queue_created && register_status != ESP_OK ==> acts == seq![
                SlaveInitAction::NewSlaveDevice(v.device),
                rx_queue_request(v.rx_event_size),
                SlaveInitAction::RegisterCallbacks(rx_callbacks()),
                SlaveInitAction::DeleteQueue,
                SlaveInitAction::DeleteSlaveDevice,
                SlaveInitAction::Complete(Err(esp_error(register_status))),
            ]
            &&& device_status == ESP_OK && queue_created && register_status == ESP_OK ==> acts == seq![
                SlaveInitAction::NewSlaveDevice(v.device),
                rx_queue_request(v.rx_event_size),
                SlaveInitAction::RegisterCallbacks(rx_callbacks()),
                SlaveInitAction::Complete(Ok(())),
            ]
        }),
{
}

} // verus!
