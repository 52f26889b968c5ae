//! Client side of the input-method switcher protocol: a request is sent to a
//! local server as one length-prefixed frame, and the reply comes back the same way.

pub mod decimal;
pub mod error;
pub mod frame;
pub mod protocol;
pub mod exchange;
