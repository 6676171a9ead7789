//! A line-oriented text buffer editor: the buffer store and the command
//! interpreter of an interactive session, without the input and output
//! around them.

pub mod text;
pub mod lines;
pub mod number;
pub mod buffer;
pub mod command;
pub mod session;
pub mod laws;

pub use buffer::{EditError, State};
pub use command::{Command, Verb};
pub use session::{Action, Event, Session, Source, WriteMode};
