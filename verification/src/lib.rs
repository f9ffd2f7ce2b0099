//! A minimal ledger-contract core: it records an administrative identity by
//! emitting a single structured event.
//!
//! The crate has two components. The identity codec turns an [`Identity`]
//! value into a deterministic, versioned byte encoding. The initialization
//! entrypoint encodes the supplied admin identity and appends exactly one
//! `"init"`-tagged event to the invocation's event log. The host environment
//! that owns the real event log is modelled as an injected [`EventLog`]
//! value, so the whole observable behaviour is stated and proved here.

pub mod codec;
pub mod contract;
pub mod events;
pub mod identity;

pub use codec::encode;
pub use codec::FORMAT_VERSION;
pub use contract::EventsContract;
pub use contract::EventsContractTrait;
pub use events::Event;
pub use events::EventLog;
pub use events::EventView;
pub use identity::Identity;
pub use identity::IdentityView;
