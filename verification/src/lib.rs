//! The decision core of a dynamic-DNS updater.
//!
//! The crate compares the address under which a host is seen from outside with
//! the address that a DNS provider publishes for it, and says what has to be
//! done until the two agree. It performs no request itself: the caller reads
//! and writes, and hands what came back to the library.

pub mod address;
pub mod configurator;
pub mod failure;
pub mod laws;
pub mod lookup;
pub mod reconciler;
pub mod record;
pub mod settings;

pub use address::Ipv4Address;
pub use configurator::{
    configure_ip, Invalid, Phase, ServerConfigurator, State, Unvalidated, UpdateRequest, Valid,
    ValidationResult, AUTOMATIC_TTL,
};
pub use failure::{LookupFailure, ReconcileError, UpdateFailure};
pub use lookup::{get_actual_ip, get_configured_ip, ListRequest, Observation, OrderDirection};
pub use reconciler::{configure, Action, Event, Stage};
pub use record::{select_record, DnsRecord, RecordContent};
pub use settings::{Config, ConfigurationMissing};
