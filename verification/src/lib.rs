//! Distribution of block templates from a Bitcoin Core node over its IPC interface.
//!
//! Everything here is a decision: what a task asks the node or its peers for next,
//! given what came back. The tasks themselves, which hold the sockets, channels and
//! remote clients, drive these functions and carry out the actions they return.
//!
//! - [`context`] leads from a socket to the node's newest template, and [`fetch`] gets
//!   the data of a template, call by call or all at once; [`decode`] reads the bytes.
//! - [`service`] is the state of a connection that distributes templates. Its tasks are
//!   [`template_monitor`], which waits for new templates, and [`incoming_monitor`],
//!   which takes the peers' messages to the [`handlers`].
//! - [`objects`] says which of the node's objects are still spoken of.
//! - [`context_laws`], [`fetch_step_laws`], [`monitor_laws`] and [`incoming_laws`] state
//!   what each step does, [`value_laws`] what the values hold, and [`view_laws`] that
//!   contracts speak of all that is in them.
//! - [`fetch_laws`] and [`service_laws`] state what holds over several steps, and
//!   [`run_laws`] what holds over whole runs.
pub mod context;
pub mod context_laws;
pub mod decode;
pub mod error;
pub mod fetch;
pub mod fetch_laws;
pub mod fetch_step_laws;
pub mod handlers;
pub mod incoming_laws;
pub mod incoming_monitor;
pub mod messages;
pub mod monitor_laws;
pub mod objects;
pub mod outside;
pub mod run_laws;
pub mod service;
pub mod service_laws;
pub mod template_monitor;
pub mod types;
pub mod value_laws;
pub mod view_laws;

pub use context::IpcContext;
pub use error::{BitcoinCoreSv2Error, TemplateDataError};
pub use fetch::{fetch_template_concurrent, fetch_template_sequential, TemplateData};
pub use service::BitcoinCoreSv2;
