//! The wrapper generator: from foreign function signatures to safe wrappers,
//! grouped by widget.
//!
//! Source text is read into functions (`source`, `generator`). The
//! functions are grouped into widgets by their names (`groups`). For each
//! member of a widget a wrapper is emitted, or a reason is given why there
//! is none (`funcs`, `widgets`), from what each argument contributes
//! (`args`) according to what its type stands for (`types`).
//!
//! Code is handled as token text: tokens separated by single blanks, with
//! no blank after an opening and before a closing parenthesis, as in
//! `pub fn f (x : u8) -> bool`. Type descriptors come in this form and
//! wrappers leave in it.
pub mod args;
pub mod funcs;
pub mod generator;
pub mod groups;
pub mod laws;
pub mod rusty;
pub mod skip;
pub mod source;
pub mod types;
pub mod widgets;

pub use args::LvArg;
pub use funcs::LvFunc;
pub use generator::{CGResult, CodeGen, CodeGenError};
pub use rusty::Rusty;
pub use skip::{SkipReason, WrapperResult};
pub use types::LvType;
pub use widgets::{GeneratedCode, LvWidget, Skipped};
