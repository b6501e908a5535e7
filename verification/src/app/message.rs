//! The screen that shows one message until a key is pressed.

use super::Instruction;
use crate::key::Key;
use crate::style::Styled;
use crate::term::{append_clear, clear_text, goto_text};
use crate::text::{append_str, string_of};
use vstd::prelude::*;

verus! {

/// One styled line, shown with a footer that says how to leave.
pub struct MessageApp(pub Styled);

impl MessageApp {
    /// The whole screen: cleared, the message, an empty line and the footer.
    pub open spec fn screen_text(&self) -> Seq<char> {
        clear_text() + goto_text(1, 1) + self.0.rendered() + "\n\nPress any key to exit."@
    }

    /// Paints the screen from the current state.
    pub fn draw(&self) -> (screen: String)
        ensures
            screen@ == self.screen_text(),
    {
        let mut out: Vec<char> = Vec::new();
        append_clear(&mut out);
        self.0.append_to(&mut out);
        append_str(&mut out, "\n\nPress any key to exit.");
        assert(out@ =~= self.screen_text());
        string_of(&out)
    }

    /// No key changes the message, and every key leaves the decision to the
    /// driver.
    pub fn handle_input(&mut self, key: Key) -> (r: Instruction)
        ensures
            *final(self) == *old(self),
            r is Nothing,
    {
        Instruction::Nothing
    }

    /// The message does not depend on the size of the screen.
    pub fn handle_resize(&mut self, width: usize, height: usize)
        ensures
            *final(self) == *old(self),
    {
    }
}

} // verus!
