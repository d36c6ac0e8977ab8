//! The compliance decision engine of a policy gateway for autonomous agents.
//!
//! An agent may write to another in a language of its own making, on two conditions: it has
//! registered the protocol that it writes in, and it has lately reported in English on what
//! it wrote. English passes without further ado.
//!
//! - `classifier` tells English from a novel language.
//! - `store` holds what has been registered, reported and held against each agent.
//! - `report` validates the English reports and renews their authors' freshness.
//! - `gate` decides on each message.
//! - `freshness` states how the last two work together.
//! - `api` turns the outcomes into answers for a transport.
//! - `binary64`, `text`, `protocol` and `clock` serve the others.

pub mod api;
pub mod binary64;
pub mod classifier;
pub mod clock;
pub mod freshness;
pub mod gate;
pub mod protocol;
pub mod report;
pub mod store;
pub mod text;
