//! What the server does for each message that it understands.

pub mod notification;
pub mod request;
