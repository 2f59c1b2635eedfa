//! A hotel booking catalogue: hotels, their rooms and bookings, with the
//! search filters, lookups, stay pricing and seed data that the web front end
//! serves.
pub mod date;
pub mod text;
pub mod models;
pub mod booking;
pub mod catalog;
pub mod seed;
pub mod templates;
pub mod handlers;
pub mod laws;
