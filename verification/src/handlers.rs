//! Decision logic of the durable operation handlers.
pub mod callback;
pub mod child;
pub mod invoke;
pub mod map;
pub mod parallel;
pub mod promise;
pub mod replay;
pub mod step;
pub mod wait;
pub mod wait_for_condition;
