//! The admin area: dashboard, newsletter form, password form.

pub mod dashboard;
pub mod newsletters;
pub mod password;

