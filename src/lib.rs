//! Reservation management: booking rules, reservation lifecycle and the
//! decisions that sit between the reservation service and its store.
pub mod time;
pub mod ident;
pub mod error;
pub mod reservation;
pub mod availability;
pub mod manager;
pub mod bridge;
pub mod random;
pub mod config;
