//! The command being typed: raw input text accumulated key by key.
use crate::text::push_char;
use vstd::prelude::*;

verus! {

/// The current command: what the user has typed since the last reset.
pub struct Command {
    pub raw: String,
}

impl Command {
    /// An empty command.
    pub fn new() -> (r: Command)
        ensures
            r.raw@ == Seq::<char>::empty(),
    {
        Command { raw: String::new() }
    }

    /// A command holding the given raw text.
    pub fn from_raw(raw: String) -> (r: Command)
        ensures
            r.raw == raw,
    {
        Command { raw }
    }

    /// Appends one typed character to the raw text.
    pub fn add_char(&mut self, c: char)
        ensures
            final(self).raw@ == old(self).raw@.push(c),
    {
        push_char(&mut self.raw, c);
    }
}

} // verus!
