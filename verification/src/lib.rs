//! Service-lifecycle orchestration core for `kintcli`, a command-line
//! operator that installs, configures and manages a bitcoin full node and
//! an Interlay/Kintsugi vault client across Linux distributions.
//!
//! The crate holds the decision logic only: host capability detection,
//! the service descriptor registry, configuration resolution, install
//! planning, lifecycle transitions and log aggregation. Everything that
//! touches the outside world (process control, prompting, file reads)
//! happens in the thin binary around it, which feeds observed results
//! back into these functions as plain values.

pub mod config;
pub mod dispatch;
pub mod errors;
pub mod host;
pub mod install;
pub mod lifecycle;
pub mod logs;
pub mod registry;
pub mod text;

pub use host::Distro;
