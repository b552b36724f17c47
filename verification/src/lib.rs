//! Server-side logic of the xPalm virtual XBox 360 controller: the controller
//! model, the wire protocol spoken by xPalm clients, the connection throttle,
//! the idle watchdog and the server configuration.

pub mod config;
pub mod protocol;
pub mod throttle;
pub mod watchdog;
pub mod x360;
