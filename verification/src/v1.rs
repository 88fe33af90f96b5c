//! Version 1 of the subscription protocol.

pub mod dispatch;
pub mod json;
pub mod logging;
pub mod message;
pub mod request;
pub mod session;
pub mod tibber;
