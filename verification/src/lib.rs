//! Load generation core: configuration rules, admission scheduling and
//! outcome statistics, each stated and proved over mathematical models.

pub mod category;
pub mod config;
pub mod continuous;
pub mod dispatch;
pub mod outcome;
pub mod pacing;
pub mod probe;
pub mod summary;
pub mod text;
