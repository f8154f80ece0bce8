//! Merging of instruction modules into a single program module.
//!
//! A program framework wants every instruction declared inside one module.
//! This library reads a list of module specifications, works out which
//! source file each one lives in, and builds one relay function per
//! instruction found there: a function with the same signature that calls
//! through to the real instruction. The relays are then appended to the
//! primary program module.
//!
//! Everything here works on plain values: paths are lists of segments,
//! types and attributes are source text.

pub mod error;
pub mod fields;
pub mod laws;
pub mod lexer;
pub mod merge;
pub mod names;
pub mod parser;
pub mod program;
pub mod relay;
pub mod render;

pub use names::{ModuleSpec, relay_name, resolve_location};
pub use error::MergeError;
pub use fields::Field;
pub use parser::parse_modules;
pub use render::{render_item, render_relay};
pub use merge::{ModuleItem, PrimaryModule, append_to_program_module};
pub use program::{check_secondary, generate_relays, merge_program};
pub use relay::{Param, EntryPoint, ProgramDescriptor, ForwardMode, RelayBody, Relay, build_relay};
