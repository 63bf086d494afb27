//! What each endpoint decides, apart from the traffic that carries it.

pub mod auth;
pub mod door;
pub mod service_alive;
pub mod user_accesses;
pub mod users;
