# esp_i2c

The decision logic of an ESP-IDF I2C driver, verified with Verus.

The ESP-IDF calls themselves cannot be made from verified code, so each
operation is a small state machine: it says which call to make next and takes
back the status the call returned, until it completes. The glue that makes the
calls lives in `app/`.

- `src/error.rs`: ESP-IDF status codes, `EspError`, and the mapping of a status
  to an I2C error kind.
- `src/units.rs`: `Hertz`, FreeRTOS tick counts and their conversion to C `int`.
- `src/timeout.rs`: the bus timeout register encoding (`APBTickType`).
- `src/config.rs`: master and slave configuration with defaults and setters.
- `src/master.rs`: master bus setup and the transfer state machine, with the
  law that describes every run of a transfer.
- `src/slave.rs`: slave setup, read and write, with the law that describes
  every run of a setup.
- `tests/`: runs of the above on concrete values.
- `app/`: the ESP-IDF calls and the `embedded-hal` trait implementations.
