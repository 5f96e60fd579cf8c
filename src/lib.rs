//! Choice of the Remote Settings server that a syncing client talks to, and
//! resolution of that choice into an absolute URL.

pub mod config;
pub mod error;

pub use config::{
    remote_settings_server_url, AbsoluteUrl, RemoteSettingsConfig, RemoteSettingsServer,
};
pub use error::{Error, Result};
