//! Request dispatch and error translation between an HTTP front door and a
//! backend reached through a message broker.

pub mod flow;
pub mod handlers;
pub mod json;
pub mod laws;
pub mod message;
pub mod net;
pub mod params;
pub mod response;
pub mod resume;
pub mod status;
