//! Verified core of a download manager that drives a managed `aria2c` process.
//!
//! The crate decides; it performs no input or output of its own. A runtime
//! owns the child process, the RPC client and the timers, hands what it
//! observes to this crate as plain values, and carries out the steps that come
//! back.
//!
//! * [`downloader`] holds the process slot, the task table and the generation
//!   counters, and says what every operation does to them.
//! * [`poller`] and [`idle`] are the two background activities as step
//!   functions; [`connect`] decides whether to retry a connection.
//! * [`registry`] tracks the running downloads and what each was told.
//! * [`laws`] states what holds of the library as a whole, [`operation_laws`]
//!   what each operation does, and [`request_laws`] what holds of the values
//!   that are made and read.

pub mod aria2;
pub mod channel;
pub mod connect;
pub mod downloader;
pub mod error;
pub mod idle;
pub mod laws;
pub mod operation_laws;
pub mod poller;
pub mod progress;
pub mod registry;
pub mod request_laws;
pub mod settings;
pub mod text;

pub use aria2::{DownloadOptions, Status, TaskOptions, TaskStatus};
pub use channel::DownloadHandle;
pub use downloader::Aria2Downloader;
pub use error::Error;
pub use progress::{DownloadProgress, DownloadStatus};
pub use settings::Aria2DownloaderBuilder;
