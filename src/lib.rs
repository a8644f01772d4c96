//! A control bridge for a pulse-generation board that is driven by an
//! out-of-process executor: the program model, its JSON encoding, the search
//! for a working executor, the classification of each run, and the single
//! session that serialises every hardware operation.
pub mod json;
pub mod model;
pub mod wire;
pub mod executor;
pub mod resolver;
pub mod session;
pub mod bridge;
