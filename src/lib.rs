//! Needle-selector control for an electronic pattern-reading attachment of a
//! mechanical knitting machine: pattern store, edge detection on the carriage
//! signals, the bounded event channel and the protocol engine that decides
//! when the selector is pulsed.
pub mod channel;
pub mod engine;
pub mod event;
pub mod knit_state;
pub mod laws;
pub mod logger;
pub mod pattern;
