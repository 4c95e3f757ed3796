pub mod aliases;
pub mod cli;
pub mod engine;
pub mod output;
pub mod record;
pub mod text;

pub use cli::{parse, Command, GlobalOptions, ParseError};
pub use engine::{execute, Backend, Record, Value};
