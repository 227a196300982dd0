//! Batch ingest notifications.
//!
//! A batch is a set of digitised content files recorded in a catalog. For
//! each content record of a batch this library assembles a watchfolder
//! message, which names the essence file and its XML sidecar, and encodes it
//! as JSON for a message queue. The run that resolves the batch, asks the
//! operator and publishes record by record is a state machine whose steps
//! are driven by the caller, who owns the connections.

pub mod catalog;
pub mod config;
pub mod error;
pub mod json;
pub mod message;
pub mod row;
pub mod run;
pub mod sidecar;
pub mod text;
pub mod timestamp;

pub use catalog::{Batch, BatchRecord, Batches, FromPostgresRow, resolve_batch};
pub use config::{
    BatchConfig,
    Config,
    default_amqp_prefetch_count,
    default_database,
    default_empty,
    default_host,
    default_port,
    default_user_pass,
};
pub use error::RunError;
pub use message::{SipPackage, WatchfolderMsg};
pub use row::{Cell, Column, RawRow};
pub use run::{RunAction, RunEvent, RunRequest, RunState, confirms, payload};
pub use sidecar::filename_ext_to_xml;
pub use timestamp::Timestamp;
