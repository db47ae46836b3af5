//! The functions of the bindings under one path.
pub use crate::logging::lv_log_add;
