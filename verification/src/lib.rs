//! PolyKit — verified core for the Poly application toolkit.
//!
//! The heart of the crate is the embedded-store consistency engine:
//! forward-only schema migrations tracked per table namespace
//! ([`migrations`]) and snapshot + delta synchronization per table
//! ([`sync`]), built over table schemas produced by a validating
//! builder ([`schema`]).
//!
//! Around that core sit the shared services the Poly apps use:
//! classification, identity derivation, metering, wire session
//! management, role checks, widget data processing and the
//! sanitization pipeline.

mod strmap;

pub mod classification;
pub mod crypto;
pub mod demo;
pub mod encoding;
pub mod error;
pub mod event_bus;
pub mod governance;
pub mod identity;
pub mod json;
pub mod metering;
pub mod migrations;
pub mod observability;
pub mod query;
pub mod rbac;
pub mod sanitize;
pub mod schema;
pub mod sync;
pub mod widget_data;
pub mod wire;
