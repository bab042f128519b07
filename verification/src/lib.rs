//! World spawn selection, level metadata and squid behaviour decisions for a
//! Minecraft-compatible server.

pub mod float_bits;
pub mod math;
pub mod random;
pub mod world_info;
pub mod spawn;
pub mod column;
pub mod squid;
