//! Push-notification relay core: a keyed registry of device push tokens, an
//! admin gate over a shared secret, and validation and fan-out planning of
//! notifications for a push gateway.

pub mod token;
pub mod registry;
pub mod outside;
pub mod dispatch;
pub mod app;
pub mod laws;
