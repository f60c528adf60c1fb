//! The decisions of the API's routes, one module per device function.

pub mod cmc;
pub mod reading;
pub mod request;
pub mod usbhub;
pub mod voltage;
pub mod watchdog;
