//! Accounting and eligibility core of a phased token sale.
//!
//! The library tracks a fixed set of timed purchase windows ("phases"),
//! enforces per-phase and per-buyer purchase limits, accepts payment against a
//! single configured asset, and later lets purchasers redeem the tokens they
//! are owed.  Every operation is a pure transition over plain records: the
//! hosting environment supplies the authenticated caller, the current time,
//! the attached payment and durable storage, and persists the records this
//! library hands back.

pub mod contract;
pub mod error;
pub mod find;
pub mod laws;
pub mod lemmas;
pub mod model;
pub mod msg;
pub mod state;
pub mod transfer;
pub mod utils;
