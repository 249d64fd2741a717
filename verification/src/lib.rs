//! Channel-scoped catalog resolution engine.
//!
//! The library models a client of a store backend whose catalog is split
//! into three release channels (stable, beta, alpha). It establishes and
//! caches one authenticated session per channel, and resolves package
//! queries through two policies: a fallback-ordered single result and a
//! multi-channel aggregate, plus a channel-isolated download resolution.
//!
//! All network exchanges are represented as events: a driver performs the
//! actions the engine asks for and hands the outcomes back, so every
//! decision the engine takes is a verified pure transition.

pub mod channel;
pub mod errors;
pub mod model;
pub mod naming;
pub mod session;
pub mod engine;
pub mod laws;
