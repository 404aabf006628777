//! Capability probing for hardware video-decode acceleration.
//!
//! The library holds the decision logic of a diagnostic tool that, for each
//! graphics adapter on a host, asks the platform's video-decode service which
//! (codec, pixel-format, resolution) combinations the driver supports.  The
//! platform calls themselves (device creation, service queries, decoder
//! construction) live outside the library; everything that decides, plans,
//! filters or records is here, with contracts.

pub mod adapters;
pub mod config;
pub mod naming;
pub mod probe;
pub mod session;
