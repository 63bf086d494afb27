//! Decision core of a door-lock gateway: session tokens, time-windowed access
//! evaluation, credential checks and the plans handed to the actuation channel.

pub mod auth;
pub mod clock;
pub mod controllers;
pub mod middlewares;
pub mod models;
pub mod routes;
pub mod services;
pub mod utils;
