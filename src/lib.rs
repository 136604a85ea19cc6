//! Double-buffered wave simulation core: ping-pong role bookkeeping, compute dispatch sizing,
//! simulation grid sizing and the static surface mesh that samples the simulation.

pub mod dispatch;
pub mod frame;
pub mod simulation;
pub mod surface;
