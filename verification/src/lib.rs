//! A receiver for GitHub webhooks: a registry of hooks keyed by event kind,
//! signature checks for deliveries, and the per-request dispatch protocol.
//!
//! The logic here is verified against its contracts. Six small functions
//! are not: `decode_hex`, `hmac_sha1_matches`, `to_camel`, `decode_json`,
//! `has_member` and `decode_lossy` each make one call into the hex, ring,
//! case or serde_json crate or into std, and their contracts are taken on
//! trust from those crates' sources. The HTTP listener that feeds the
//! dispatch protocol lives outside this crate.

pub mod delivery;
pub mod events;
pub mod hook;
pub mod hub;
pub mod signature;
pub mod text;
pub mod worker;

pub use delivery::Delivery;
pub use events::{Event, EventKind, ParseError};
pub use hook::{AuthenticateHook, Hook};
pub use hub::{BoxedHook, Hub};
pub use worker::{Outcome, Plan, Response, Status, Worker};
