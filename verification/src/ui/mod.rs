//! User-interface components.
pub mod components;
pub mod layout;
