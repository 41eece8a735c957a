//! ESP-IDF status codes and the I2C error kinds they map to.

use vstd::prelude::*;

verus! {

/// `esp_err_t` value meaning success.
pub const ESP_OK: i32 = 0;

/// Generic failure; the I2C master reports a missing acknowledgement this way.
pub const ESP_FAIL: i32 = -1;

/// Out of memory.
pub const ESP_ERR_NO_MEM: i32 = 0x101;

/// Invalid argument.
pub const ESP_ERR_INVALID_ARG: i32 = 0x102;

/// Operation timed out.
pub const ESP_ERR_TIMEOUT: i32 = 0x107;

/// A failed ESP-IDF status: an `esp_err_t` that is not `ESP_OK`.
#[derive(Clone, Copy, Debug, PartialEq, Eq, Structural)]
pub struct EspError {
    code: i32,
}

impl View for EspError {
    type V = i32;

    /// The wrapped status code.
    closed spec fn view(&self) -> i32 {
        self.code
    }
}

/// The error that wraps `code`.
pub closed spec fn esp_error(code: i32) -> EspError {
    EspError { code }
}

/// `esp_error` and the view undo each other.
pub proof fn lemma_esp_error_view(e: EspError, code: i32)
    ensures
        esp_error(code)@ == code,
        esp_error(e@) == e,
{
}

impl EspError {
    #[verifier::type_invariant]
    spec fn nonzero(self) -> bool {
        self.code != ESP_OK
    }

    /// Wraps `error`; `None` exactly when it is `ESP_OK`.
    pub fn from_code(error: i32) -> (r: Option<EspError>)
        ensures
            r is None <==> error == ESP_OK,
            r matches Some(e) ==> e == esp_error(error),
    {
        if error == ESP_OK {
            None
        } else {
            Some(EspError { code: error })
        }
    }

    /// Wraps a status code that is known not to be `ESP_OK`.
    pub fn from_non_zero(error: i32) -> (r: EspError)
        requires
            error != ESP_OK,
        ensures
            r == esp_error(error),
    {
        EspError { code: error }
    }

    /// `Ok(())` when `error` is `ESP_OK`, else the wrapped error.
    pub fn convert(error: i32) -> (r: Result<(), EspError>)
        ensures
            r is Ok <==> error == ESP_OK,
            r matches Err(e) ==> e == esp_error(error),
    {
        if error == ESP_OK {
            Ok(())
        } else {
            Err(EspError { code: error })
        }
    }

    /// The wrapped status code, never `ESP_OK`.
    pub fn code(&self) -> (r: i32)
        ensures
            r == self@,
            r != ESP_OK,
    {
        proof {
            use_type_invariant(self);
        }
        self.code
    }
}

/// Why a missing acknowledgement happened.
#[derive(Clone, Copy, Debug, PartialEq, Eq, Structural)]
pub enum NoAcknowledgeSource {
    /// The device did not acknowledge its address.
    Address,
    /// The device did not acknowledge a data byte.
    Data,
    /// Either of the above.
    Unknown,
}

/// The kinds of I2C errors a HAL user can tell apart.
#[derive(Clone, Copy, Debug, PartialEq, Eq, Structural)]
pub enum ErrorKind {
    Bus,
    ArbitrationLoss,
    NoAcknowledge(NoAcknowledgeSource),
    Overrun,
    Other,
}

/// An I2C error: its kind and the ESP-IDF status it came from.
#[derive(Clone, Copy, Debug, PartialEq, Eq, Structural)]
pub struct I2cError {
    kind: ErrorKind,
    cause: EspError,
}

impl I2cError {
    /// The kind stored in the error.
    pub closed spec fn kind_spec(&self) -> ErrorKind {
        self.kind
    }

    /// The status stored in the error.
    pub closed spec fn cause_spec(&self) -> EspError {
        self.cause
    }

    /// An error of the given kind.
    pub fn new(kind: ErrorKind, cause: EspError) -> (r: Self)
        ensures
            r.kind_spec() == kind,
            r.cause_spec() == cause,
    {
        I2cError { kind, cause }
    }

    /// An error of kind `Other`.
    pub fn other(cause: EspError) -> (r: Self)
        ensures
            r.kind_spec() == ErrorKind::Other,
            r.cause_spec() == cause,
    {
        Self::new(ErrorKind::Other, cause)
    }

    /// The kind of the error.
    pub fn kind(&self) -> (r: ErrorKind)
        ensures
            r == self.kind_spec(),
    {
        self.kind
    }

    /// The ESP-IDF status behind the error.
    pub fn cause(&self) -> (r: EspError)
        ensures
            r == self.cause_spec(),
    {
        self.cause
    }
}

/// The kind an ESP-IDF status gets as an I2C error: the master driver
/// reports a missing acknowledgement as `ESP_FAIL`.
pub open spec fn i2c_error_kind(code: i32) -> ErrorKind {
    if code == ESP_FAIL {
        ErrorKind::NoAcknowledge(NoAcknowledgeSource::Unknown)
    } else {
        ErrorKind::Other
    }
}

/// Only `ESP_FAIL` (-1) is a missing acknowledgement (of unknown source); every
/// other status is of kind `Other`.
pub proof fn law_i2c_error_kind(code: i32)
    ensures
        code == -1 ==> i2c_error_kind(code) == ErrorKind::NoAcknowledge(NoAcknowledgeSource::Unknown),
        code != -1 ==> i2c_error_kind(code) == ErrorKind::Other,
{
}

/// Maps an ESP-IDF error to an I2C error, keeping the status.
pub fn to_i2c_err(err: EspError) -> (r: I2cError)
    ensures
        r.kind_spec() == i2c_error_kind(err@),
        err@ == -1 ==> r.kind_spec() == ErrorKind::NoAcknowledge(NoAcknowledgeSource::Unknown),
        err@ != -1 ==> r.kind_spec() == ErrorKind::Other,
        r.cause_spec() == err,
{
    if err.code() == ESP_FAIL {
        I2cError::new(ErrorKind::NoAcknowledge(NoAcknowledgeSource::Unknown), err)
    } else {
        I2cError::other(err)
    }
}

} // verus!
