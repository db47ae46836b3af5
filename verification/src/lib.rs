//! Safe bindings to the LVGL graphics library: the generator that writes the
//! wrappers, and the values that the bindings exchange with the library.
pub mod codegen;
pub mod display;
pub mod events;
pub mod functions;
pub mod input;
pub mod logging;
pub mod support;
pub mod text;
pub mod timers;
