//! Two small runtime modules with verified state transitions: a global
//! counter, and a profile directory that keeps an account-to-profile store
//! and a username-to-account index consistent with each other.
pub mod profile_laws;
pub mod simple_counter;
pub mod user_profile;
pub mod username_index;
pub mod weights;
