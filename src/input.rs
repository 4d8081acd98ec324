//! The display surface the engine paints on.
use crate::commands::Command;
use vstd::prelude::*;

verus! {

/// Declares std's I/O error so that rendering failures can travel
/// through the engine unchanged.
#[verifier::external_type_specification]
#[verifier::external_body]
pub struct ExIoError(std::io::Error);

/// Displays the input line at the bottom of the screen.
pub trait Input {
    fn write_input(&mut self, cmd: &Command) -> Result<(), std::io::Error>;
}

/// The rest of what the engine itself paints: geometry, busy indicator
/// and error messages. Everything else is painted by the states.
pub trait Terminal: Input {
    fn read_size(&mut self) -> Result<(), std::io::Error>;

    fn write_spinner(&mut self, busy: bool) -> Result<(), std::io::Error>;

    fn write_status_err(&mut self, txt: &str) -> Result<(), std::io::Error>;
}

} // verus!
