//! Per-turn reasoning-effort routing for a coding agent, and the `/usage`
//! slash command, with their contracts proved by Verus.

pub mod effort;
pub mod text;
pub mod signals;
pub mod router;
pub mod stage;
pub mod usage;
pub mod decimal;
pub mod classifier;
pub mod laws;
