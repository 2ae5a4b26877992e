//! A capability-probing engine for volatile operating-system state.
//!
//! The engine resolves a small set of logical facts about the running
//! system (wireless power, the current network, nearby networks, and a
//! security-configuration bitfield) by trying an ordered, version-gated
//! list of probe strategies per fact, parsing each source's output into
//! a typed value, and caching the outcome until it is explicitly
//! invalidated. The actual process spawning and native calls are the
//! calling layer's job: the engine decides what to invoke and interprets
//! what came back.

pub mod bluetooth;
pub mod chain;
pub mod command;
pub mod doc;
pub mod engine;
pub mod outcome;
pub mod probe;
pub mod sip;
pub mod sound;
pub mod text;
pub mod version;
pub mod wallpaper;
pub mod wifi;
