//! Reading a VE.Direct solar charger through a serial-to-HTTP bridge and
//! exposing what it reports: the verified core of the exporter.
pub mod cache;
pub mod completion;
pub mod config;
pub mod json;
pub mod pid;
pub mod text;
pub mod ve;

pub use cache::{Cache, CacheData};
pub use config::{CommandLine, Config};
pub use json::{JsonEntry, JsonObject};
pub use pid::parse_pid;
pub use ve::{Command, Flags, Response};
