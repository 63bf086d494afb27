//! The records the gateway decides on, and the rules that read them.

pub mod days_of_week;
pub mod user;
pub mod users_accesses;

pub use days_of_week::DayOfWeek;
pub use user::User;
pub use users_accesses::UserAccess;
