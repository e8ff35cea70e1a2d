//! Subscription layer of a publish/subscribe middleware, with the
//! property-string codec that carries its configuration metadata.

pub mod config;
pub mod deferred;
pub mod handler;
pub mod info;
pub mod properties;
pub mod roundtrip;
pub mod sample;
pub mod session;
pub mod subscriber;
pub mod text;
