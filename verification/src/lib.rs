//! Protocol-aware connection binding for a transparent proxy.

pub mod addr;
pub mod authority;
pub mod bind;
pub mod ctx;
pub mod executor;
pub mod laws;
pub mod protocol;
pub mod reconnect;
pub mod request;
pub mod service;
