//! Attendance boards: a year of daily check-ins per board, kept as one bitmask
//! per month, with the credential schemes and session tokens that guard them.

pub mod board;
pub mod calendar;
pub mod clock;
pub mod credential;
pub mod error;
pub mod identity;
pub mod markup;
pub mod operations;
pub mod orm;
pub mod pages;
pub mod routes;
pub mod session;
