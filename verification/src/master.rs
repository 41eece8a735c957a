//! The I2C master driver: bus setup, and the sequence of ESP-IDF calls that
//! each transfer makes.
//!
//! A transfer is a [`MasterSession`]. It tells its caller which ESP-IDF call
//! to make next ([`MasterAction`]) and takes back the status that call
//! returned, until it completes with the transfer's result. Every transfer
//! adds a temporary device for the target address to the bus, makes its
//! calls in order, stops at the first failure, and removes the device again.

use vstd::prelude::*;
use crate::config::Config;
use crate::error::{EspError, esp_error, ESP_OK, ESP_ERR_INVALID_ARG};
use crate::units::{TickType, ticks_as_c_int, c_int_of_ticks};

verus! {

/// Highest bus clock the ESP-IDF master accepts, in Hz.
pub const MAX_BAUDRATE_HZ: u32 = 1_000_000;

/// Glitches on SDA/SCL shorter than this many cycles of the source clock are ignored.
pub const GLITCH_IGNORE_COUNT: u8 = 7;

/// An I2C peripheral, known by its port number.
pub trait I2c: Send {
    /// The port number of the peripheral.
    spec fn port_spec() -> i32;

    /// The port number of the peripheral.
    fn port() -> (p: i32)
        ensures
            p == Self::port_spec(),
    ;
}

/// The first I2C peripheral.
pub struct I2C0;

/// The second I2C peripheral (not on the ESP32-C2, -C3 and -C6).
pub struct I2C1;

impl I2c for I2C0 {
    open spec fn port_spec() -> i32 {
        0
    }

    fn port() -> (p: i32) {
        0
    }
}

impl I2c for I2C1 {
    open spec fn port_spec() -> i32 {
        1
    }

    fn port() -> (p: i32) {
        1
    }
}

/// Length of an I2C device address.
#[derive(Clone, Copy, Debug, PartialEq, Eq, Structural)]
pub enum AddressLength {
    SevenBits,
    TenBits,
}

/// Clock source of an I2C controller.
#[derive(Clone, Copy, Debug, PartialEq, Eq, Structural)]
pub enum ClockSource {
    /// The chip's default I2C clock source.
    Default,
}

/// The fields of `i2c_master_bus_config_t` that the driver sets.
#[derive(Clone, Copy, Debug, PartialEq, Eq, Structural)]
pub struct MasterBusConfig {
    pub i2c_port: i32,
    pub clk_source: ClockSource,
    pub sda_io_num: i32,
    pub scl_io_num: i32,
    pub glitch_ignore_cnt: u8,
    pub intr_priority: i32,
    pub trans_queue_depth: usize,
    pub enable_internal_pullup: bool,
    pub allow_pd: bool,
}

/// The bus configuration for a master on `port` with the given pins.
pub open spec fn master_bus_config(port: i32, sda: i32, scl: i32, config: Config) -> MasterBusConfig {
    MasterBusConfig {
        i2c_port: port,
        clk_source: ClockSource::Default,
        sda_io_num: sda,
        scl_io_num: scl,
        glitch_ignore_cnt: GLITCH_IGNORE_COUNT,
        intr_priority: 0,
        trans_queue_depth: 0,
        enable_internal_pullup: config.sda_pullup_enabled || config.scl_pullup_enabled,
        allow_pd: false,
    }
}

/// The fields of `i2c_device_config_t` that the driver sets.
#[derive(Clone, Copy, Debug, PartialEq, Eq, Structural)]
pub struct DeviceConfig {
    pub dev_addr_length: AddressLength,
    pub device_address: u16,
    pub scl_speed_hz: u32,
    pub scl_wait_us: u32,
    pub disable_ack_check: bool,
}

/// The configuration of a temporary device for `address` on a bus clocked at `baudrate`.
pub open spec fn device_config(address: u8, baudrate: u32) -> DeviceConfig {
    DeviceConfig {
        dev_addr_length: AddressLength::SevenBits,
        device_address: address as u16,
        scl_speed_hz: baudrate,
        scl_wait_us: 0,
        disable_ack_check: false,
    }
}

/// A master bus that has been validated and is ready to be created.
#[derive(Clone, Copy, Debug, PartialEq, Eq, Structural)]
pub struct MasterInit {
    /// What to pass to `i2c_new_master_bus`.
    pub bus_config: MasterBusConfig,
    pub port: i32,
    pub baudrate: u32,
}

/// An I2C master, holding the handle of its ESP-IDF bus.
pub struct I2cDriver<H> {
    i2c: u8,
    pub bus_handle: H,
    baudrate: u32,
}

/// An operation of a transaction, known by the length of its buffer.
#[derive(Clone, Copy, Debug, PartialEq, Eq, Structural)]
pub enum Operation {
    /// Read into a buffer of this many bytes.
    Read(usize),
    /// Write a buffer of this many bytes.
    Write(usize),
}

/// A data transfer on the bus, as an ESP-IDF master call.
#[derive(Clone, Copy, Debug, PartialEq, Eq, Structural)]
pub enum BusCall {
    /// `i2c_master_receive` into a buffer of this many bytes.
    Receive(usize),
    /// `i2c_master_transmit` of this many bytes.
    Transmit(usize),
    /// `i2c_master_transmit_receive` of a write and a read buffer.
    TransmitReceive(usize, usize),
}

/// The bus call that carries out a transaction operation.
pub open spec fn call_of(op: Operation) -> BusCall {
    match op {
        Operation::Read(n) => BusCall::Receive(n),
        Operation::Write(n) => BusCall::Transmit(n),
    }
}

/// A read or a write of nothing is skipped: no call is made for it.
pub open spec fn is_skipped(c: BusCall) -> bool {
    match c {
        BusCall::Receive(n) => n == 0,
        BusCall::Transmit(n) => n == 0,
        BusCall::TransmitReceive(_, _) => false,
    }
}

/// Where a master transfer stands.
#[derive(Clone, Copy, Debug, PartialEq, Eq)]
pub enum MasterStage {
    /// Not started.
    Ready,
    /// Waiting for the status of adding the device.
    AddingDevice,
    /// Waiting for the status of the call at this index.
    Calling(usize),
    /// Waiting for the device to be removed; then completes with this result.
    RemovingDevice(Result<(), EspError>),
    /// Completed.
    Done,
}

/// The next ESP-IDF call of a master transfer, or its result.
#[derive(Clone, Copy, Debug, PartialEq, Eq)]
pub enum MasterAction {
    /// `i2c_master_bus_add_device` with this configuration.
    AddDevice(DeviceConfig),
    /// The call at `index` of the transfer, with the transfer's timeout: its
    /// tick count taken as a C `int`.
    Call { index: usize, call: BusCall, timeout: i32 },
    /// `i2c_master_bus_rm_device` of the device added before.
    RemoveDevice,
    /// The transfer is over, with this result.
    Complete(Result<(), EspError>),
}

/// The state of a master transfer.
pub struct MasterSessionView {
    pub device: DeviceConfig,
    pub calls: Seq<BusCall>,
    pub timeout: i32,
    /// Whether the transfer talks to the bus at all.
    pub opens_device: bool,
    pub stage: MasterStage,
}

/// The first call at or after `from` that is not skipped, or the number of calls.
pub open spec fn next_call(calls: Seq<BusCall>, from: int) -> int
    decreases calls.len() - from,
{
    if from >= calls.len() {
        calls.len() as int
    } else if !is_skipped(calls[from]) {
        from
    } else {
        next_call(calls, from + 1)
    }
}

/// The call `next_call` picks is not skipped, and none before it from `from` on is taken.
pub proof fn lemma_next_call(calls: Seq<BusCall>, from: int)
    requires
        0 <= from,
    ensures
        from <= next_call(calls, from) || from > calls.len(),
        next_call(calls, from) <= calls.len() || from > calls.len(),
        next_call(calls, from) < calls.len() ==> !is_skipped(calls[next_call(calls, from)]),
        forall|k: int| from <= k < next_call(calls, from) ==> is_skipped(#[trigger] calls[k]),
    decreases calls.len() - from,
{
    if from < calls.len() && is_skipped(calls[from]) {
        lemma_next_call(calls, from + 1);
    }
}

/// Moves on to the first call at or after `from` that is not skipped, or,
/// when none is left, to removing the device with success.
pub open spec fn advance(v: MasterSessionView, from: int) -> (MasterSessionView, MasterAction) {
    let j = next_call(v.calls, from);
    if j < v.calls.len() {
        (
            MasterSessionView { stage: MasterStage::Calling(j as usize), ..v },
            MasterAction::Call { index: j as usize, call: v.calls[j], timeout: v.timeout },
        )
    } else {
        (
            MasterSessionView { stage: MasterStage::RemovingDevice(Ok(())), ..v },
            MasterAction::RemoveDevice,
        )
    }
}

/// The first action of a transfer: add the device, or, for a transfer that
/// does not touch the bus, complete at once with success.
pub open spec fn start_step(v: MasterSessionView) -> (MasterSessionView, MasterAction) {
    if v.opens_device {
        (MasterSessionView { stage: MasterStage::AddingDevice, ..v }, MasterAction::AddDevice(v.device))
    } else {
        (MasterSessionView { stage: MasterStage::Done, ..v }, MasterAction::Complete(Ok(())))
    }
}

/// Whether the transfer waits for the status of a call.
pub open spec fn awaiting(v: MasterSessionView) -> bool {
    match v.stage {
        MasterStage::AddingDevice => true,
        MasterStage::Calling(_) => true,
        MasterStage::RemovingDevice(_) => true,
        _ => false,
    }
}

/// The next state and action once the pending call returned `status`.
/// A failed device addition ends the transfer with its error; a failed call
/// removes the device and then ends with the call's error; the status of
/// the removal is not looked at.
pub open spec fn resume_step(v: MasterSessionView, status: i32) -> (MasterSessionView, MasterAction) {
    match v.stage {
        MasterStage::AddingDevice => {
            if status != ESP_OK {
                (
                    MasterSessionView { stage: MasterStage::Done, ..v },
                    MasterAction::Complete(Err(esp_error(status))),
                )
            } else {
                advance(v, 0)
            }
        },
        MasterStage::Calling(i) => {
            if status != ESP_OK {
                (
                    MasterSessionView { stage: MasterStage::RemovingDevice(Err(esp_error(status))), ..v },
                    MasterAction::RemoveDevice,
                )
            } else {
                advance(v, i + 1)
            }
        },
        MasterStage::RemovingDevice(r) => (
            MasterSessionView { stage: MasterStage::Done, ..v },
            MasterAction::Complete(r),
        ),
        _ => (v, MasterAction::Complete(Ok(()))),
    }
}

/// A master transfer in progress.
pub struct MasterSession {
    device: DeviceConfig,
    calls: Vec<BusCall>,
    timeout: i32,
    opens_device: bool,
    stage: MasterStage,
}

impl View for MasterSession {
    type V = MasterSessionView;

    closed spec fn view(&self) -> MasterSessionView {
        MasterSessionView {
            device: self.device,
            calls: self.calls@,
            timeout: self.timeout,
            opens_device: self.opens_device,
            stage: self.stage,
        }
    }
}

fn bus_call_is_skipped(c: BusCall) -> (r: bool)
    ensures
        r == is_skipped(c),
{
    match c {
        BusCall::Receive(n) => n == 0,
        BusCall::Transmit(n) => n == 0,
        BusCall::TransmitReceive(_, _) => false,
    }
}

impl MasterSession {
    #[verifier::type_invariant]
    spec fn calling_valid(self) -> bool {
        self.stage matches MasterStage::Calling(i) ==> i < self.calls.len() && !is_skipped(
            self.calls@[i as int],
        )
    }

    fn new(device: DeviceConfig, calls: Vec<BusCall>, timeout: i32, opens_device: bool) -> (r: Self)
        ensures
            r@ == (MasterSessionView {
                device,
                calls: calls@,
                timeout,
                opens_device,
                stage: MasterStage::Ready,
            }),
    {
        MasterSession { device, calls, timeout, opens_device, stage: MasterStage::Ready }
    }

    fn find_next_call(&self, from: usize) -> (j: usize)
        requires
            from <= self.calls.len(),
        ensures
            j as int == next_call(self@.calls, from as int),
            j <= self.calls.len(),
    {
        let mut i = from;
        while i < self.calls.len() && bus_call_is_skipped(self.calls[i])
            invariant
                from <= i <= self.calls.len(),
                next_call(self@.calls, from as int) == next_call(self@.calls, i as int),
            decreases self.calls.len() - i,
        {
            i = i + 1;
        }
        i
    }

    fn advance_from(&mut self, from: usize) -> (a: MasterAction)
        requires
            from <= old(self).calls.len(),
        ensures
            (final(self)@, a) == advance(old(self)@, from as int),
    {
        let j = self.find_next_call(from);
        proof {
            lemma_next_call(self@.calls, from as int);
        }
        if j < self.calls.len() {
            let call = self.calls[j];
            self.stage = MasterStage::Calling(j);
            MasterAction::Call { index: j, call, timeout: self.timeout }
        } else {
            self.stage = MasterStage::RemovingDevice(Ok(()));
            MasterAction::RemoveDevice
        }
    }

    /// Whether the transfer has completed.
    pub fn is_done(&self) -> (r: bool)
        ensures
            r == (self@.stage is Done),
    {
        matches!(self.stage, MasterStage::Done)
    }

    /// The first action of the transfer.
    pub fn start(&mut self) -> (a: MasterAction)
        requires
            old(self)@.stage is Ready,
        ensures
            (final(self)@, a) == start_step(old(self)@),
            a is Complete <==> final(self)@.stage is Done,
            !(a is Complete) ==> awaiting(final(self)@),
    {
        if self.opens_device {
            self.stage = MasterStage::AddingDevice;
            MasterAction::AddDevice(self.device)
        } else {
            self.stage = MasterStage::Done;
            MasterAction::Complete(Ok(()))
        }
    }

    /// The next action, given the status that the last action's call returned.
    pub fn resume(&mut self, status: i32) -> (a: MasterAction)
        requires
            awaiting(old(self)@),
        ensures
            (final(self)@, a) == resume_step(old(self)@, status),
            a is Complete <==> final(self)@.stage is Done,
            !(a is Complete) ==> awaiting(final(self)@),
    {
        proof {
            use_type_invariant(&*self);
        }
        match self.stage {
            MasterStage::AddingDevice => {
                if status != ESP_OK {
                    self.stage = MasterStage::Done;
                    MasterAction::Complete(Err(EspError::from_non_zero(status)))
                } else {
                    self.advance_from(0)
                }
            },
            MasterStage::Calling(i) => {
                if status != ESP_OK {
                    self.stage = MasterStage::RemovingDevice(Err(EspError::from_non_zero(status)));
                    MasterAction::RemoveDevice
                } else {
                    self.advance_from(i + 1)
                }
            },
            MasterStage::RemovingDevice(r) => {
                self.stage = MasterStage::Done;
                MasterAction::Complete(r)
            },
            _ => {
                MasterAction::Complete(Ok(()))
            },
        }
    }
}

/// The view of the transfer `driver` would start: the device for
/// `address` at the bus clock, these calls, the timeout as a C `int`.
pub open spec fn session_for(
    address: u8,
    baudrate: u32,
    calls: Seq<BusCall>,
    timeout: TickType,
    opens_device: bool,
) -> MasterSessionView {
    MasterSessionView {
        device: device_config(address, baudrate),
        calls,
        timeout: c_int_of_ticks(timeout) as i32,
        opens_device,
        stage: MasterStage::Ready,
    }
}

/// A transfer's temporary device has the target address, 7-bit addressing,
/// the bus clock as its SCL speed, no extra SCL wait and the acknowledgement
/// check on.
pub proof fn law_device_config(address: u8, baudrate: u32)
    ensures
        device_config(address, baudrate).scl_speed_hz == baudrate,
        device_config(address, baudrate).device_address == address,
        device_config(address, baudrate).dev_addr_length == AddressLength::SevenBits,
        device_config(address, baudrate).scl_wait_us == 0,
        !device_config(address, baudrate).disable_ack_check,
{
}

/// A read of `n` bytes is a receive of `n` bytes, and a write of `n` bytes a
/// transmit of `n` bytes.
pub proof fn law_call_of(n: usize)
    ensures
        call_of(Operation::Read(n)) == BusCall::Receive(n),
        call_of(Operation::Write(n)) == BusCall::Transmit(n),
{
}

/// The master bus is on the given port and pins, with the default clock
/// source, a glitch filter of 7 cycles, default interrupt priority, no
/// transaction queue, no power-down, and its internal pull-ups on exactly
/// when the SDA or the SCL pull-up is asked for.
pub proof fn law_master_bus_config(port: i32, sda: i32, scl: i32, config: Config)
    ensures
        master_bus_config(port, sda, scl, config).i2c_port == port,
        master_bus_config(port, sda, scl, config).sda_io_num == sda,
        master_bus_config(port, sda, scl, config).scl_io_num == scl,
        master_bus_config(port, sda, scl, config).clk_source == ClockSource::Default,
        master_bus_config(port, sda, scl, config).glitch_ignore_cnt == 7,
        master_bus_config(port, sda, scl, config).intr_priority == 0,
        master_bus_config(port, sda, scl, config).trans_queue_depth == 0,
        master_bus_config(port, sda, scl, config).enable_internal_pullup == (config.sda_pullup_enabled
            || config.scl_pullup_enabled),
        !master_bus_config(port, sda, scl, config).allow_pd,
{
}

impl<H> I2cDriver<H> {
    /// The port number the driver was created for, as a byte.
    pub closed spec fn port_byte(&self) -> u8 {
        self.i2c
    }

    /// The ESP-IDF bus handle.
    pub closed spec fn handle(&self) -> H {
        self.bus_handle
    }

    /// The bus clock in Hz.
    pub closed spec fn baudrate_hz(&self) -> u32 {
        self.baudrate
    }

    /// Validates `config` for a master on the peripheral `_i2c` with the given
    /// SDA and SCL pins, and gives the configuration of the bus to create.
    /// A bus clock above 1 MHz is refused with `ESP_ERR_INVALID_ARG`.
    pub fn new<I: I2c>(_i2c: I, sda: i32, scl: i32, config: &Config) -> (r: Result<MasterInit, EspError>)
        ensures
            r is Err <==> config.baudrate.0 > MAX_BAUDRATE_HZ,
            r matches Err(e) ==> e == esp_error(ESP_ERR_INVALID_ARG),
            r matches Ok(init) ==> init.bus_config == master_bus_config(I::port_spec(), sda, scl, *config)
                && init.port == I::port_spec() && init.baudrate == config.baudrate.0,
            r matches Ok(init) ==> init.bus_config.enable_internal_pullup == (config.sda_pullup_enabled
                || config.scl_pullup_enabled),
            r matches Ok(init) ==> init.bus_config.i2c_port == I::port_spec() && init.bus_config.sda_io_num
                == sda && init.bus_config.scl_io_num == scl,
    {
        if config.baudrate.0 > MAX_BAUDRATE_HZ {
            return Err(EspError::from_non_zero(ESP_ERR_INVALID_ARG));
        }
        let port = I::port();
        let bus_config = MasterBusConfig {
            i2c_port: port,
            clk_source: ClockSource::Default,
            sda_io_num: sda,
            scl_io_num: scl,
            glitch_ignore_cnt: GLITCH_IGNORE_COUNT,
            intr_priority: 0,
            trans_queue_depth: 0,
            enable_internal_pullup: config.sda_pullup_enabled || config.scl_pullup_enabled,
            allow_pd: false,
        };
        Ok(MasterInit { bus_config, port, baudrate: config.baudrate.0 })
    }

    /// The port number.
    pub fn port(&self) -> (r: i32)
        ensures
            r == self.port_byte() as i32,
    {
        self.i2c as i32
    }

    fn device_config(&self, address: u8) -> (r: DeviceConfig)
        ensures
            r == device_config(address, self.baudrate_hz()),
    {
        DeviceConfig {
            dev_addr_length: AddressLength::SevenBits,
            device_address: address as u16,
            scl_speed_hz: self.baudrate,
            scl_wait_us: 0,
            disable_ack_check: false,
        }
    }

    /// Reads `len` bytes from the device at `address`; an empty read
    /// completes at once without touching the bus.
    pub fn read(&self, address: u8, len: usize, timeout: TickType) -> (r: MasterSession)
        ensures
            r@ == session_for(address, self.baudrate_hz(), seq![BusCall::Receive(len)], timeout, len > 0),
            r@.device.scl_speed_hz == self.baudrate_hz(),
            r@.device.device_address == address,
            r@.calls == seq![BusCall::Receive(len)],
            r@.opens_device == (len > 0),
    {
        let mut calls: Vec<BusCall> = Vec::new();
        calls.push(BusCall::Receive(len));
        MasterSession::new(self.device_config(address), calls, ticks_as_c_int(timeout), len > 0)
    }

    /// Writes `len` bytes to the device at `address`; an empty write
    /// completes at once without touching the bus.
    pub fn write(&self, address: u8, len: usize, timeout: TickType) -> (r: MasterSession)
        ensures
            r@ == session_for(address, self.baudrate_hz(), seq![BusCall::Transmit(len)], timeout, len > 0),
            r@.device.scl_speed_hz == self.baudrate_hz(),
            r@.device.device_address == address,
            r@.calls == seq![BusCall::Transmit(len)],
            r@.opens_device == (len > 0),
    {
        let mut calls: Vec<BusCall> = Vec::new();
        calls.push(BusCall::Transmit(len));
        MasterSession::new(self.device_config(address), calls, ticks_as_c_int(timeout), len > 0)
    }

    /// Writes `write_len` bytes to the device at `address` and reads
    /// `read_len` bytes back in one call.
    pub fn write_read(&self, address: u8, write_len: usize, read_len: usize, timeout: TickType) -> (r: MasterSession)
        ensures
            r@ == session_for(
                address,
                self.baudrate_hz(),
                seq![BusCall::TransmitReceive(write_len, read_len)],
                timeout,
                true,
            ),
            r@.device.scl_speed_hz == self.baudrate_hz(),
            r@.device.device_address == address,
            r@.calls == seq![BusCall::TransmitReceive(write_len, read_len)],
            r@.opens_device,
    {
        let mut calls: Vec<BusCall> = Vec::new();
        calls.push(BusCall::TransmitReceive(write_len, read_len));
        MasterSession::new(self.device_config(address), calls, ticks_as_c_int(timeout), true)
    }

    /// Carries out `operations` in order on the device at `address`; reads and
    /// writes of nothing are skipped.
    pub fn transaction(&self, address: u8, operations: &[Operation], timeout: TickType) -> (r: MasterSession)
        ensures
            r@ == session_for(
                address,
                self.baudrate_hz(),
                operations@.map_values(|op: Operation| call_of(op)),
                timeout,
                true,
            ),
            r@.device.scl_speed_hz == self.baudrate_hz(),
            r@.device.device_address == address,
            r@.opens_device,
            r@.calls.len() == operations@.len(),
            forall|k: int|
                0 <= k < operations@.len() ==> (operations@[k] matches Operation::Read(n) ==> #[trigger] r@.calls[k]
                    == BusCall::Receive(n)),
            forall|k: int|
                0 <= k < operations@.len() ==> (operations@[k] matches Operation::Write(n) ==> #[trigger] r@.calls[k]
                    == BusCall::Transmit(n)),
    {
        let mut calls: Vec<BusCall> = Vec::new();
        let mut i: usize = 0;
        while i < operations.len()
            invariant
                i <= operations.len(),
                calls@ == operations@.take(i as int).map_values(|op: Operation| call_of(op)),
            decreases operations.len() - i,
        {
            let call = match operations[i] {
                Operation::Read(n) => BusCall::Receive(n),
                Operation::Write(n) => BusCall::Transmit(n),
            };
            calls.push(call);
            assert(operations@.take(i + 1) == operations@.take(i as int).push(operations@[i as int]));
            i = i + 1;
        }
        assert(operations@.take(operations.len() as int) == operations@);
        MasterSession::new(self.device_config(address), calls, ticks_as_c_int(timeout), true)
    }
}

impl MasterInit {
    /// The master once `i2c_new_master_bus` returned `status` and, on success,
    /// `bus_handle`: the status's error, or a driver that holds the handle.
    pub fn finish<H>(self, status: i32, bus_handle: H) -> (r: Result<I2cDriver<H>, EspError>)
        ensures
            r is Ok <==> status == ESP_OK,
            r matches Err(e) ==> e == esp_error(status),
            r matches Ok(d) ==> d.handle() == bus_handle && d.port_byte() == self.port as u8
                && d.baudrate_hz() == self.baudrate,
    {
        if status != ESP_OK {
            return Err(EspError::from_non_zero(status));
        }
        Ok(I2cDriver { i2c: self.port as u8, bus_handle, baudrate: self.baudrate })
    }
}

/// The actions a transfer in state `v` takes when the calls it waits for
/// return `statuses`, one after the other, until it completes.
pub open spec fn run_from(v: MasterSessionView, statuses: Seq<i32>) -> Seq<MasterAction>
    decreases statuses.len(),
{
    if statuses.len() == 0 || !awaiting(v) {
        seq![]
    } else {
        let (w, a) = resume_step(v, statuses[0]);
        seq![a] + run_from(w, statuses.drop_first())
    }
}

/// All actions of a transfer started from `v` whose calls return `statuses`.
pub open spec fn run(v: MasterSessionView, statuses: Seq<i32>) -> Seq<MasterAction> {
    let (w, a) = start_step(v);
    seq![a] + run_from(w, statuses)
}

/// The data calls of a transfer from index `from` on, in order, skipping
/// reads and writes of nothing.
pub open spec fn issued_calls(v: MasterSessionView, from: int) -> Seq<MasterAction>
    decreases v.calls.len() - from,
{
    let j = next_call(v.calls, from);
    if from < 0 || from > v.calls.len() || j >= v.calls.len() {
        seq![]
    } else {
        proof {
            lemma_next_call(v.calls, from);
        }
        seq![MasterAction::Call { index: j as usize, call: v.calls[j], timeout: v.timeout }]
            + issued_calls(v, j + 1)
    }
}

/// Index of the first status in the first `n` that is not `ESP_OK`, or `n`.
pub open spec fn first_failure(statuses: Seq<i32>, n: nat) -> nat
    decreases n,
{
    if n == 0 || statuses.len() == 0 {
        0
    } else if statuses[0] != ESP_OK {
        0
    } else {
        1 + first_failure(statuses.drop_first(), (n - 1) as nat)
    }
}

/// How many of `n` data calls are made when they return `statuses`: up to
/// and including the first that fails.
pub open spec fn calls_made(statuses: Seq<i32>, n: nat) -> nat {
    let f = first_failure(statuses, n);
    if f < n {
        f + 1
    } else {
        n
    }
}

/// The result of `n` data calls that return `statuses`: the first failure,
/// or success.
pub open spec fn calls_outcome(statuses: Seq<i32>, n: nat) -> Result<(), EspError> {
    let f = first_failure(statuses, n);
    if f < n {
        Err(esp_error(statuses[f as int]))
    } else {
        Ok(())
    }
}

proof fn lemma_run_from_done(v: MasterSessionView, statuses: Seq<i32>)
    requires
        v.stage is Done,
    ensures
        run_from(v, statuses) == Seq::<MasterAction>::empty(),
{
}

proof fn lemma_run_from_removing(v: MasterSessionView, statuses: Seq<i32>, r: Result<(), EspError>)
    requires
        v.stage == MasterStage::RemovingDevice(r),
        statuses.len() >= 1,
    ensures
        run_from(v, statuses) == seq![MasterAction::Complete(r)],
{
    let (w, a) = resume_step(v, statuses[0]);
    lemma_run_from_done(w, statuses.drop_first());
    assert(run_from(v, statuses) == seq![a] + run_from(w, statuses.drop_first()));
    assert(seq![a] + Seq::<MasterAction>::empty() =~= seq![a]);
}

proof fn lemma_run_from_advance(v: MasterSessionView, from: int, statuses: Seq<i32>)
    requires
        0 <= from <= v.calls.len(),
        v.calls.len() <= usize::MAX,
        statuses.len() >= issued_calls(v, from).len() + 1,
    ensures
        ({
            let (w, a) = advance(v, from);
            let n = issued_calls(v, from).len();
            seq![a] + run_from(w, statuses) == issued_calls(v, from).take(calls_made(statuses, n) as int)
                + seq![MasterAction::RemoveDevice, MasterAction::Complete(calls_outcome(statuses, n))]
        }),
    decreases v.calls.len() - from,
{
    lemma_next_call(v.calls, from);
    let j = next_call(v.calls, from);
    let (w, a) = advance(v, from);
    let rest = issued_calls(v, from);
    let n = rest.len();
    if j >= v.calls.len() {
        assert(rest == Seq::<MasterAction>::empty());
        lemma_run_from_removing(w, statuses, Ok(()));
        assert(rest.take(0) =~= Seq::<MasterAction>::empty());
        assert(seq![a] + run_from(w, statuses) =~= rest.take(calls_made(statuses, n) as int)
            + seq![MasterAction::RemoveDevice, MasterAction::Complete(calls_outcome(statuses, n))]);
    } else {
        let tail = issued_calls(v, j + 1);
        assert(rest == seq![a] + tail);
        assert(n == tail.len() + 1);
        let s0 = statuses[0];
        let s1 = statuses.drop_first();
        let (w2, a2) = resume_step(w, s0);
        assert(run_from(w, statuses) == seq![a2] + run_from(w2, s1));
        if s0 != ESP_OK {
            lemma_run_from_removing(w2, s1, Err(esp_error(s0)));
            assert(first_failure(statuses, n) == 0);
            assert(rest.take(1) =~= seq![a]);
            assert(seq![a] + run_from(w, statuses) =~= rest.take(calls_made(statuses, n) as int)
                + seq![MasterAction::RemoveDevice, MasterAction::Complete(calls_outcome(statuses, n))]);
        } else {
            assert(advance(w, j + 1) == advance(v, j + 1));
            assert(w2 == advance(v, j + 1).0 && a2 == advance(v, j + 1).1);
            lemma_run_from_advance(v, j + 1, s1);
            let m = calls_made(s1, tail.len());
            let suffix = seq![MasterAction::RemoveDevice, MasterAction::Complete(calls_outcome(s1, tail.len()))];
            assert(seq![a2] + run_from(w2, s1) == tail.take(m as int) + suffix);
            assert(first_failure(statuses, n) == 1 + first_failure(s1, tail.len()));
            assert(calls_made(statuses, n) == 1 + m);
            assert(calls_outcome(statuses, n) == calls_outcome(s1, tail.len()));
            assert(rest.take((1 + m) as int) =~= seq![a] + tail.take(m as int));
            assert(seq![a] + run_from(w, statuses) =~= rest.take(calls_made(statuses, n) as int)
                + seq![MasterAction::RemoveDevice, MasterAction::Complete(calls_outcome(statuses, n))]);
        }
    }
}

/// Exactly the reads and writes of nothing are skipped; a combined write and
/// read is never skipped.
pub proof fn law_is_skipped(c: BusCall)
    ensures
        is_skipped(c) <==> (c == BusCall::Receive(0) || c == BusCall::Transmit(0)),
{
}

/// The first failure among `n` statuses is a position at most `n` before
/// which every status is `ESP_OK`, and at which, below `n`, the status is not.
pub proof fn law_first_failure(statuses: Seq<i32>, n: nat)
    requires
        n <= statuses.len(),
    ensures
        first_failure(statuses, n) <= n,
        forall|k: int| 0 <= k < first_failure(statuses, n) ==> statuses[k] == 0,
        first_failure(statuses, n) < n ==> statuses[first_failure(statuses, n) as int] != 0,
    decreases n,
{
    if n > 0 && statuses[0] == ESP_OK {
        let t = statuses.drop_first();
        law_first_failure(t, (n - 1) as nat);
        assert forall|k: int| 0 <= k < first_failure(statuses, n) implies statuses[k] == 0 by {
            if k > 0 {
                assert(statuses[k] == t[k - 1]);
            }
        }
    }
}

/// The data calls of a transfer from `from` on are the calls at or after
/// `from` that are not skipped, each exactly once, in index order, each with
/// the transfer's timeout.
pub proof fn law_issued_calls(v: MasterSessionView, from: int)
    requires
        0 <= from <= v.calls.len(),
        v.calls.len() <= usize::MAX,
    ensures
        ({
            let issued = issued_calls(v, from);
            &&& forall|i: int|
                0 <= i < issued.len() ==> (#[trigger] issued[i] matches MasterAction::Call { index, call, timeout }
                    && from <= index < v.calls.len() && call == v.calls[index as int] && !is_skipped(call)
                    && timeout == v.timeout)
            &&& forall|i: int, j: int|
                0 <= i < j < issued.len() ==> (#[trigger] issued[i] matches MasterAction::Call { index: a, .. }
                    && #[trigger] issued[j] matches MasterAction::Call { index: b, .. } && a < b)
            &&& forall|k: int|
                from <= k < v.calls.len() && !is_skipped(#[trigger] v.calls[k]) ==> exists|i: int|
                    0 <= i < issued.len() && (#[trigger] issued[i] matches MasterAction::Call { index, .. }
                        && index == k)
        }),
    decreases v.calls.len() - from,
{
    lemma_next_call(v.calls, from);
    let j = next_call(v.calls, from);
    let issued = issued_calls(v, from);
    if j < v.calls.len() {
        law_issued_calls(v, j + 1);
        let tail = issued_calls(v, j + 1);
        let head = MasterAction::Call { index: j as usize, call: v.calls[j], timeout: v.timeout };
        assert(issued == seq![head] + tail);
        assert forall|i: int|
            0 <= i < issued.len() implies (#[trigger] issued[i] matches MasterAction::Call { index, call, timeout }
                && from <= index < v.calls.len() && call == v.calls[index as int] && !is_skipped(call)
                && timeout == v.timeout) by {
            if i > 0 {
                assert(issued[i] == tail[i - 1]);
            }
        }
        assert forall|a: int, b: int|
            0 <= a < b < issued.len() implies (#[trigger] issued[a] matches MasterAction::Call { index: x, .. }
                && #[trigger] issued[b] matches MasterAction::Call { index: y, .. } && x < y) by {
            assert(issued[b] == tail[b - 1]);
            if a > 0 {
                assert(issued[a] == tail[a - 1]);
            }
        }
        assert forall|k: int|
            from <= k < v.calls.len() && !is_skipped(#[trigger] v.calls[k]) implies exists|i: int|
                0 <= i < issued.len() && (#[trigger] issued[i] matches MasterAction::Call { index, .. }
                    && index == k) by {
            if k == j {
                assert(issued[0] == head);
            } else {
                assert(k > j);
                let i2 = choose|i2: int|
                    0 <= i2 < tail.len() && (#[trigger] tail[i2] matches MasterAction::Call { index, .. }
                        && index == k);
                assert(issued[i2 + 1] == tail[i2]);
            }
        }
    } else {
        assert(issued.len() == 0);
    }
}

/// What a transfer does, whatever its calls return. One that does not touch
/// the bus completes at once with success. Otherwise it first adds the
/// device; if that fails, it completes with that error. If it succeeds, it
/// makes its data calls in order, skipping reads and writes of nothing, up
/// to and including the first that fails; then it removes the device and
/// completes with the first failure, or with success.
pub proof fn law_master_run(v: MasterSessionView, statuses: Seq<i32>)
    requires
        v.stage is Ready,
        v.calls.len() <= usize::MAX,
        statuses.len() >= issued_calls(v, 0).len() + 2,
    ensures
        !v.opens_device ==> run(v, statuses) == seq![MasterAction::Complete(Ok(()))],
        v.opens_device && statuses[0] != ESP_OK ==> run(v, statuses) == seq![
            MasterAction::AddDevice(v.device),
            MasterAction::Complete(Err(esp_error(statuses[0]))),
        ],
        v.opens_device && statuses[0] == ESP_OK ==> ({
            let calls = issued_calls(v, 0);
            let later = statuses.drop_first();
            run(v, statuses) == seq![MasterAction::AddDevice(v.device)] + calls.take(
                calls_made(later, calls.len()) as int,
            ) + seq![
                MasterAction::RemoveDevice,
                MasterAction::Complete(calls_outcome(later, calls.len())),
            ]
        }),
{
    let (w, a) = start_step(v);
    if !v.opens_device {
        lemma_run_from_done(w, statuses);
        assert(run(v, statuses) =~= seq![MasterAction::Complete(Ok(()))]);
    } else {
        let s0 = statuses[0];
        let s1 = statuses.drop_first();
        let (w2, a2) = resume_step(w, s0);
        assert(run_from(w, statuses) == seq![a2] + run_from(w2, s1));
        if s0 != ESP_OK {
            lemma_run_from_done(w2, s1);
            assert(run(v, statuses) =~= seq![
                MasterAction::AddDevice(v.device),
                MasterAction::Complete(Err(esp_error(s0))),
            ]);
        } else {
            assert(advance(w, 0) == advance(v, 0));
            lemma_run_from_advance(v, 0, s1);
            let calls = issued_calls(v, 0);
            assert(run(v, statuses) =~= seq![MasterAction::AddDevice(v.device)] + calls.take(
                calls_made(s1, calls.len()) as int,
            ) + seq![
                MasterAction::RemoveDevice,
                MasterAction::Complete(calls_outcome(s1, calls.len())),
            ]);
        }
    }
}

proof fn lemma_first_failure_all_ok(statuses: Seq<i32>, n: nat)
    requires
        statuses.len() >= n,
        forall|k: int| 0 <= k < statuses.len() ==> statuses[k] == ESP_OK,
    ensures
        first_failure(statuses, n) == n,
    decreases n,
{
    if n > 0 {
        lemma_first_failure_all_ok(statuses.drop_first(), (n - 1) as nat);
    }
}

/// A transfer that touches the bus and whose calls all succeed adds the
/// device, makes every call that is not skipped, in order, removes the
/// device and completes with success.
pub proof fn law_master_run_all_ok(v: MasterSessionView, statuses: Seq<i32>)
    requires
        v.stage is Ready,
        v.opens_device,
        v.calls.len() <= usize::MAX,
        statuses.len() >= issued_calls(v, 0).len() + 2,
        forall|k: int| 0 <= k < statuses.len() ==> statuses[k] == ESP_OK,
    ensures
        run(v, statuses) == seq![MasterAction::AddDevice(v.device)] + issued_calls(v, 0) + seq![
            MasterAction::RemoveDevice,
            MasterAction::Complete(Ok(())),
        ],
{
    law_master_run(v, statuses);
    let calls = issued_calls(v, 0);
    lemma_first_failure_all_ok(statuses.drop_first(), calls.len());
    assert(calls.take(calls.len() as int) =~= calls);
}

} // verus!
