//! A small embeddable command loop (read–evaluate–print) engine.
//!
//! A host registers named commands, each bound to an evaluator and an
//! argument-count policy, then runs one cycle at a time: a line of input is
//! tokenized shell-style, the first token resolved against the command table,
//! the arity checked, and the bound evaluator invoked with mutable access to
//! the interpreter state (working directory, arguments, output buffers).
//! After every invocation the engine re-normalizes the working directory and
//! confines it to the session's root: a cycle that would leave the root is
//! rejected and the directory reverted.

pub mod path;
pub mod error;
pub mod state;
pub mod table;
pub mod tokens;
pub mod engine;
pub mod builtins;

pub use path::DirPath;
pub use error::LilreplError;
pub use state::{LilState, LilEvaluator, LilPrompter, DefaultPrompter, default_prompter};
pub use table::{NArgs, Command, Commands};
pub use engine::{Lil, LineEvent};
pub use builtins::{CdEvaluator, PwdEvaluator};
