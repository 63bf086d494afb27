//! What the gateway asks of the outside world.

pub mod mqtt;
