//! The verified core of a waitlist sign-up service.
//!
//! A submission is validated, stored once per email address, and then handed
//! to a detached notification task that registers the contact with the mail
//! provider and sends a confirmation. What the caller sees depends on the
//! store alone; whatever the mail provider answers afterwards cannot change it.

pub mod json;
pub mod text;
pub mod email;
pub mod db;
pub mod handler;
pub mod guarantees;
pub mod config;
