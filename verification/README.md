# rest-bmc

The decisions of the BMC (mainboard) RESTful API service, stated as contracts
and proved with Verus, and the service that runs them.

- `src/` — the library:
  - `response` — the answers of the API (status and body) and how driver
    outcomes are answered;
  - `api::request` — the course of a request that sends one command to the
    board (connect, check, build, send, answer) as a state machine, with its
    laws; `api::reading` — the course of a request that reads the board's
    state (a fixed series of queries, stopped by the first failure), and of
    the listing of the hub's devices;
  - `api::{cmc, usbhub, voltage, watchdog}` — the checks and data of each
    device function, and the course of a temperature request;
  - `input::json` — the request bodies and their validation;
  - `startup` — the port and log level settings and the course of the driver
    version check;
  - `text` — comparing texts.
- `tests/` — tests of the library on concrete values.
- `app/` — the Rocket service: routes, driver connection and exchanges, JSON
  (de)serialization, the thermistor temperature (floating point).
