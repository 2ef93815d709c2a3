//! Reservation and property-account management for a restaurant front desk:
//! the records kept per reservation, the codes they are stored under, the
//! texts shown for them, password salting and log-in checks, and the
//! question-and-answer sessions with which staff enter data.

pub mod models;
pub mod text;
pub mod calendar;
pub mod ids;
pub mod crud;
pub mod helpers;
pub mod crud_auth;
pub mod prompt;
pub mod entry;
pub mod requests;
