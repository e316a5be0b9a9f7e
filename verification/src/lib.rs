//! Keeps a dynamic-DNS provider informed of a host's public addresses: the
//! profile store, the notification dispatcher and the service schedule.

pub mod bytes;
pub mod cli;
pub mod hive;
pub mod i18n;
pub mod logging;
pub mod notify;
pub mod registry;
pub mod scm;
pub mod service;
pub mod store;
pub mod text;
pub mod utf16;
pub mod writer;
