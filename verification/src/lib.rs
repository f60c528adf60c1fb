//! Request checks, response decisions and data shaping of the BMC (mainboard)
//! RESTful API, stated over plain values and proved with Verus.

pub mod api;
pub mod input;
pub mod response;
pub mod startup;
pub mod text;
