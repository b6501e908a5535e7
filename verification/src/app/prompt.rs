//! The one-line prompt: free text that is handed to one action, with or
//! without a history of results below it.

use super::list::capacity;
use super::message::MessageApp;
use super::{App, Instruction};
use crate::config::Action;
use crate::dispatch::{
    alert, alert_style, dispatch, history_record, history_text, requested, Outcome,
};
use crate::key::Key;
use crate::style::Styled;
use crate::term::{
    append_clear, append_goto, append_rule, centre, centre_offset, clear_text, coordinate,
    goto_text, position, rule_text,
};
use crate::text::{
    append_chars, append_repeated, append_str, chars_of, count_char, occurrences, repeated,
    string_of,
};
use vstd::prelude::*;

verus! {

/// The most blocks that a history keeps; the oldest leaves when one more comes.
pub const HISTORY_LIMIT: usize = 256;

/// The number of lines of the `k` most recent blocks of a history.
pub open spec fn lines_before(history: Seq<(usize, String)>, k: int) -> int
    decreases k,
{
    if k <= 0 {
        0
    } else {
        lines_before(history, k - 1) + history[history.len() - k].0
    }
}

/// The `k` most recent blocks of a history, the most recent first, each
/// behind one space and starting on the row below the lines of those before
/// it; the first starts on row 3.
pub open spec fn blocks_text(history: Seq<(usize, String)>, k: int) -> Seq<char>
    decreases k,
{
    if k <= 0 {
        Seq::empty()
    } else {
        blocks_text(history, k - 1) + goto_text(
            1,
            coordinate(lines_before(history, k - 1) + 3),
        ) + seq![' '] + history[history.len() - k].1@
    }
}

/// How many blocks of a history of `len` blocks a screen of `height` rows shows.
pub open spec fn shown_blocks(len: nat, height: usize) -> nat {
    if len <= capacity(height) {
        len
    } else {
        capacity(height)
    }
}

/// The blocks that stay when one more comes: all of them, or all but the
/// oldest where the history is full.
pub open spec fn kept(history: Seq<(usize, String)>) -> Seq<(usize, String)> {
    if history.len() >= HISTORY_LIMIT {
        history.subrange(1, history.len() as int)
    } else {
        history
    }
}

/// The state of a prompt.
pub struct PromptApp {
    /// The text typed so far.
    pub input: Vec<char>,
    /// The position in `input` before which the next character goes.
    pub cursor_index: usize,
    /// Shown in place of the text while it is empty.
    pub placeholder: Styled,
    pub icon: Styled,
    pub action: Action,
    /// The blocks shown below the prompt, the oldest first, each with the
    /// number of its line breaks; `None` where results are not shown.
    pub history: Option<Vec<(usize, String)>>,
    pub width: usize,
    pub height: usize,
}

impl PromptApp {
    /// Every block of the history has its number of line breaks beside it,
    /// and the history holds no more blocks than its limit.
    pub open spec fn history_wf(history: Seq<(usize, String)>) -> bool {
        &&& history.len() <= HISTORY_LIMIT
        &&& forall|i: int|
            0 <= i < history.len() ==> (#[trigger] history[i]).0 == occurrences(
                history[i].1@,
                '\n',
            )
    }

    /// The cursor stands in the text or right behind it, and the history,
    /// if there is one, is well formed.
    pub open spec fn wf(&self) -> bool {
        &&& self.cursor_index <= self.input@.len()
        &&& self.history matches Some(blocks) ==> PromptApp::history_wf(blocks@)
    }

    /// The two prompts differ at most in text and cursor.
    pub open spec fn same_prompt(&self, other: &PromptApp) -> bool {
        &&& self.placeholder == other.placeholder
        &&& self.icon == other.icon
        &&& self.action == other.action
        &&& self.history == other.history
        &&& self.width == other.width
        &&& self.height == other.height
    }

    /// An empty prompt, with an empty history where `history` is set.
    pub fn new(
        action: Action,
        placeholder: Styled,
        icon: Styled,
        history: bool,
        width: usize,
        height: usize,
    ) -> (app: PromptApp)
        ensures
            app.wf(),
            app.input@ == Seq::<char>::empty(),
            app.cursor_index == 0,
            app.action == action,
            app.placeholder == placeholder,
            app.icon == icon,
            app.width == width,
            app.height == height,
            app.history is Some == history,
            app.history matches Some(blocks) ==> blocks@.len() == 0,
    {
        PromptApp {
            input: Vec::new(),
            cursor_index: 0,
            placeholder,
            icon,
            action,
            history: if history {
                Some(Vec::new())
            } else {
                None
            },
            width,
            height,
        }
    }

    /// The text typed so far.
    pub fn input_text(&self) -> (text: String)
        ensures
            text@ == self.input@,
    {
        string_of(&self.input)
    }

    /// What one key does: `after` and `r` are the state and the instruction
    /// that follow from `before` and `key`.
    pub open spec fn keyed(
        before: PromptApp,
        key: Key,
        after: PromptApp,
        r: Instruction,
    ) -> bool {
        &&& after.same_prompt(&before)
        &&& match key {
            Key::Char('\n') => {
                &&& after == before
                &&& r.carries(requested(&before.action, before.input@))
            },
            Key::Backspace => {
                &&& r is Nothing
                &&& if before.cursor_index > 0 {
                    &&& after.input@ == before.input@.remove(
                        before.cursor_index - 1,
                    )
                    &&& after.cursor_index == before.cursor_index - 1
                } else {
                    after == before
                }
            },
            Key::Char(ch) => {
                &&& r is Nothing
                &&& after.input@ == before.input@.subrange(
                    0,
                    before.cursor_index as int,
                ).push(ch) + before.input@.subrange(
                    before.cursor_index as int,
                    before.input@.len() as int,
                )
                &&& after.cursor_index == before.cursor_index + 1
            },
            Key::Left => {
                &&& r is Nothing
                &&& after.input == before.input
                &&& after.cursor_index == if before.cursor_index > 0 {
                    before.cursor_index - 1
                } else {
                    0
                }
            },
            Key::Right => {
                &&& r is Nothing
                &&& after.input == before.input
                &&& after.cursor_index == if before.cursor_index < before.input@.len() {
                    before.cursor_index + 1
                } else {
                    before.cursor_index as int
                }
            },
            _ => after == before && r is Nothing,
        }
    }

    /// Takes one key: a character goes in before the cursor, which moves
    /// behind it; Backspace takes out the character before the cursor; Left
    /// and Right move the cursor and stop at the ends; Enter confirms the
    /// text; every other key does nothing.
    pub fn handle_input(&mut self, key: Key) -> (r: Instruction)
        requires
            old(self).wf(),
        ensures
            final(self).wf(),
            PromptApp::keyed(*old(self), key, *final(self), r),
    {
        match key {
            Key::Char('\n') => Instruction::from_request(dispatch(&self.action, &self.input)),
            Key::Backspace => {
                if self.cursor_index > 0 {
                    self.input.remove(self.cursor_index - 1);
                    self.cursor_index -= 1;
                }
                Instruction::Nothing
            },
            Key::Char(ch) => {
                self.input.insert(self.cursor_index, ch);
                assert(self.input@.len() == self.input.len());
                self.cursor_index += 1;
                Instruction::Nothing
            },
            Key::Left => {
                if self.cursor_index > 0 {
                    self.cursor_index -= 1;
                }
                Instruction::Nothing
            },
            Key::Right => {
                if self.cursor_index < self.input.len() {
                    self.cursor_index += 1;
                }
                Instruction::Nothing
            },
            _ => Instruction::Nothing,
        }
    }

    /// What a new size does: it is taken over, and nothing else changes.
    pub open spec fn resized(
        before: PromptApp,
        width: usize,
        height: usize,
        after: PromptApp,
    ) -> bool {
        &&& after.width == width
        &&& after.height == height
        &&& after.input == before.input
        &&& after.cursor_index == before.cursor_index
        &&& after.placeholder == before.placeholder
        &&& after.icon == before.icon
        &&& after.action == before.action
        &&& after.history == before.history
    }

    /// The size of the screen is taken over; text, cursor and history stay.
    pub fn handle_resize(&mut self, width: usize, height: usize)
        requires
            old(self).wf(),
        ensures
            final(self).wf(),
            PromptApp::resized(*old(self), width, height, *final(self)),
    {
        self.width = width;
        self.height = height;
    }

    /// What the outcome of a run means to a prompt: `after` and `r` are the
    /// state and the instruction that follow from `before` and `outcome`.
    pub open spec fn answered(
        before: PromptApp,
        outcome: &Outcome,
        after: PromptApp,
        r: Instruction,
    ) -> bool {
        &&& after.placeholder == before.placeholder
        &&& after.icon == before.icon
        &&& after.action == before.action
        &&& after.width == before.width
        &&& after.height == before.height
        &&& match before.action {
            Action::Exec(_) => {
                &&& after == before
                &&& match outcome.error_text() {
                    Some(text) => r.shows(text, alert_style()),
                    None => r is Quit,
                }
            },
            Action::Command { hold_output, .. } => if hold_output {
                after == before && r is Nothing
            } else {
                match before.history {
                    Some(blocks) => {
                        &&& r is Nothing
                        &&& after.input@ == Seq::<char>::empty()
                        &&& after.cursor_index == 0
                        &&& after.history matches Some(longer) && {
                            &&& longer@.len() == kept(blocks@).len() + 1
                            &&& longer@.drop_last() == kept(blocks@)
                            &&& longer@.last().1@ == history_text(outcome.shown_text())
                            &&& longer@.last().0 == occurrences(longer@.last().1@, '\n')
                        }
                    },
                    None => {
                        &&& after == before
                        &&& match outcome.error_text() {
                            Some(text) => r.shows(text, alert_style()),
                            None => r is Quit,
                        }
                    },
                }
            },
            Action::OpenMenu(_) => after == before && r is Nothing,
        }
    }

    /// Takes the outcome of the process that the confirmed action asked for.
    /// With a history, the outcome of a command that does not hold the
    /// output becomes a block of the history, failure or not; the text is
    /// cleared and the prompt stays. Otherwise a failure, of the launcher or
    /// of such a command, is reported on a message screen, in the alert
    /// style, and a success ends the interaction. An action that asked for
    /// no run leaves everything as it is.
    pub fn handle_outcome(&mut self, outcome: &Outcome) -> (r: Instruction)
        requires
            old(self).wf(),
        ensures
            final(self).wf(),
            PromptApp::answered(*old(self), outcome, *final(self), r),
    {
        match &self.action {
            Action::Exec(_) => {
                if outcome.is_failure() {
                    Instruction::SetApp(App::Message(MessageApp(alert(outcome))))
                } else {
                    Instruction::Quit
                }
            },
            Action::Command { program, args, hold_output, output_size } => {
                if *hold_output {
                    Instruction::Nothing
                } else if self.history.is_some() {
                    let ghost before = self.history->0@;
                    let taken = self.history.take();
                    let mut blocks: Vec<(usize, String)> = taken.unwrap();
                    if blocks.len() >= HISTORY_LIMIT {
                        blocks.remove(0);
                    }
                    assert(blocks@ =~= kept(before));
                    blocks.push(history_record(outcome));
                    assert(blocks@.drop_last() =~= kept(before));
                    self.history = Some(blocks);
                    self.input = Vec::new();
                    self.cursor_index = 0;
                    Instruction::Nothing
                } else if outcome.is_failure() {
                    Instruction::SetApp(App::Message(MessageApp(alert(outcome))))
                } else {
                    Instruction::Quit
                }
            },
            Action::OpenMenu(_) => Instruction::Nothing,
        }
    }

    /// What stands on the first line behind the icon: the text, or the
    /// placeholder while the text is empty.
    pub open spec fn prompt_text(&self) -> Seq<char> {
        if self.input@.len() == 0 {
            self.placeholder.rendered()
        } else {
            self.input@
        }
    }

    /// The column at which the first line starts where it is centred.
    pub open spec fn offset(&self) -> nat {
        centre_offset(self.width, self.placeholder.text@.len() as usize)
    }

    /// The column of the cursor where the first line starts at `offset`:
    /// behind the icon, one space and the text before the cursor.
    pub open spec fn cursor_column(&self, offset: nat) -> u16 {
        coordinate((offset + self.icon.text@.len() + self.cursor_index + 2) as int)
    }

    /// The first line from column `offset` on: the icon, a space, and the
    /// text or the placeholder.
    pub open spec fn head_text(&self, offset: nat) -> Seq<char> {
        repeated(' ', offset) + self.icon.rendered() + seq![' '] + self.prompt_text()
    }

    /// The whole screen. Without a history: cleared, the icon and the text or
    /// placeholder, and the cursor at its place in the text. With a history
    /// the first line is centred, a rule stands on the second row, and below
    /// it the most recent blocks, as many as the screen has rows for.
    pub open spec fn screen_text(&self) -> Seq<char> {
        match self.history {
            Some(blocks) => clear_text() + goto_text(1, 1) + self.head_text(self.offset())
                + goto_text(1, 2) + rule_text(self.width) + blocks_text(
                blocks@,
                shown_blocks(blocks@.len(), self.height) as int,
            ) + goto_text(self.cursor_column(self.offset()), 1),
            None => clear_text() + goto_text(1, 1) + self.head_text(0) + goto_text(
                self.cursor_column(0),
                1,
            ),
        }
    }

    /// Appends the first line, from column `offset` on, to `out`.
    fn append_head(&self, out: &mut Vec<char>, offset: usize)
        ensures
            final(out)@ == old(out)@ + self.head_text(offset as nat),
    {
        append_repeated(out, ' ', offset);
        self.icon.append_to(out);
        out.push(' ');
        if self.input.len() == 0 {
            self.placeholder.append_to(out);
        } else {
            append_chars(out, &self.input);
        }
        assert(out@ =~= old(out)@ + self.head_text(offset as nat));
    }

    /// Appends the move of the cursor to its place in the first line.
    fn append_cursor(&self, out: &mut Vec<char>, offset: usize)
        ensures
            final(out)@ == old(out)@ + goto_text(self.cursor_column(offset as nat), 1),
    {
        let behind_icon = position(offset, self.icon.width(), self.cursor_index);
        append_goto(out, position(behind_icon as usize, 2, 0), 1);
    }

    /// Appends the `shown` most recent blocks to `out`.
    fn append_blocks(out: &mut Vec<char>, blocks: &Vec<(usize, String)>, shown: usize)
        requires
            shown <= blocks.len(),
        ensures
            final(out)@ == old(out)@ + blocks_text(blocks@, shown as int),
    {
        let mut k: usize = 0;
        let mut lines: u32 = 0;
        assert(out@ =~= old(out)@ + blocks_text(blocks@, 0));
        while k < shown
            invariant
                k <= shown <= blocks.len(),
                lines <= 0xffff,
                lines == if lines_before(blocks@, k as int) >= 0xffff {
                    0xffff
                } else {
                    lines_before(blocks@, k as int)
                },
                lines_before(blocks@, k as int) >= 0,
                out@ == old(out)@ + blocks_text(blocks@, k as int),
            decreases shown - k,
        {
            let block = &blocks[blocks.len() - 1 - k];
            append_goto(out, 1, position(lines as usize, 3, 0));
            out.push(' ');
            append_str(out, block.1.as_str());
            assert(out@ =~= old(out)@ + blocks_text(blocks@, k + 1));
            let more: u32 = if block.0 > 0xffff {
                0xffff
            } else {
                block.0 as u32
            };
            lines = if lines + more > 0xffff {
                0xffff
            } else {
                lines + more
            };
            k += 1;
        }
    }

    /// Paints the screen from the current state.
    pub fn draw(&self) -> (screen: String)
        requires
            self.wf(),
        ensures
            screen@ == self.screen_text(),
    {
        let mut out: Vec<char> = Vec::new();
        append_clear(&mut out);
        match &self.history {
            Some(blocks) => {
                let offset = centre(self.width, self.placeholder.width());
                self.append_head(&mut out, offset);
                append_goto(&mut out, 1, 2);
                append_rule(&mut out, self.width);
                let rows: usize = if self.height >= 2 {
                    self.height - 2
                } else {
                    0
                };
                let shown: usize = if blocks.len() <= rows {
                    blocks.len()
                } else {
                    rows
                };
                PromptApp::append_blocks(&mut out, blocks, shown);
                self.append_cursor(&mut out, offset);
            },
            None => {
                self.append_head(&mut out, 0);
                self.append_cursor(&mut out, 0);
            },
        }
        assert(out@ =~= self.screen_text());
        string_of(&out)
    }
}

impl PromptApp {
    /// Whether the state is well formed.
    pub fn is_well_formed(&self) -> (ok: bool)
        ensures
            ok == self.wf(),
    {
        if self.cursor_index > self.input.len() {
            return false;
        }
        match &self.history {
            None => true,
            Some(blocks) => {
                if blocks.len() > HISTORY_LIMIT {
                    return false;
                }
                let mut i: usize = 0;
                while i < blocks.len()
                    invariant
                        i <= blocks.len(),
                        self.history == Some(*blocks),
                        forall|j: int|
                            0 <= j < i ==> (#[trigger] blocks@[j]).0 == occurrences(
                                blocks@[j].1@,
                                '\n',
                            ),
                    decreases blocks.len() - i,
                {
                    let text = chars_of(blocks[i].1.as_str());
                    if count_char(&text, '\n') != blocks[i].0 {
                        assert(blocks@[i as int].0 != occurrences(blocks@[i as int].1@, '\n'));
                        return false;
                    }
                    i += 1;
                }
                true
            },
        }
    }
}

/// Whatever the key, the cursor stays in the text or right behind it.
pub proof fn lemma_key_keeps_cursor_in_text(
    before: PromptApp,
    key: Key,
    after: PromptApp,
    r: Instruction,
)
    requires
        before.wf(),
        PromptApp::keyed(before, key, after, r),
    ensures
        after.wf(),
        0 <= after.cursor_index <= after.input@.len(),
{
}

/// Left at the start of the text and Right at its end change nothing.
pub proof fn lemma_cursor_stops_at_the_ends(
    before: PromptApp,
    key: Key,
    after: PromptApp,
    r: Instruction,
)
    requires
        before.wf(),
        PromptApp::keyed(before, key, after, r),
        (key == Key::Left && before.cursor_index == 0) || (key == Key::Right
            && before.cursor_index == before.input@.len()),
    ensures
        after.cursor_index == before.cursor_index,
        after.input == before.input,
{
}

/// A character goes in at the cursor: the text is what stood before the
/// cursor, the character, and what stood behind it, and the cursor stands
/// behind the character.
pub proof fn lemma_character_goes_in_at_cursor(
    before: PromptApp,
    ch: char,
    after: PromptApp,
    r: Instruction,
)
    requires
        before.wf(),
        ch != '\n',
        PromptApp::keyed(before, Key::Char(ch), after, r),
    ensures
        after.input@ == before.input@.insert(before.cursor_index as int, ch),
        after.input@.len() == before.input@.len() + 1,
        after.input@[before.cursor_index as int] == ch,
        after.cursor_index == before.cursor_index + 1,
{
    assert(after.input@ =~= before.input@.insert(before.cursor_index as int, ch));
}

/// Whatever the outcome, a well-formed prompt stays well formed: the
/// history keeps its limit, and every block its number of line breaks.
pub proof fn lemma_outcome_keeps_prompt_well_formed(
    before: PromptApp,
    outcome: &Outcome,
    after: PromptApp,
    r: Instruction,
)
    requires
        before.wf(),
        PromptApp::answered(before, outcome, after, r),
    ensures
        after.wf(),
{
    match (before.action, before.history) {
        (Action::Command { hold_output, .. }, Some(blocks)) => {
            if !hold_output {
                let new = after.history->0@;
                assert forall|i: int| 0 <= i < new.len() implies (#[trigger] new[i]).0
                    == occurrences(new[i].1@, '\n') by {
                    if i < new.len() - 1 {
                        assert(new[i] == new.drop_last()[i]);
                    }
                }
            }
        },
        _ => {},
    }
}

/// State `i + 1` of a run follows from state `i` by key `i`, with
/// instruction `i`.
pub open spec fn prompt_step(
    states: Seq<PromptApp>,
    keys: Seq<Key>,
    instructions: Seq<Instruction>,
    i: int,
) -> bool {
    PromptApp::keyed(states[i], keys[i], states[i + 1], instructions[i])
}

/// A run of keys: one state more than keys, each following from the one
/// before it by its key, and one instruction for each key.
pub open spec fn prompt_run(
    states: Seq<PromptApp>,
    keys: Seq<Key>,
    instructions: Seq<Instruction>,
) -> bool {
    &&& states.len() == keys.len() + 1
    &&& instructions.len() == keys.len()
    &&& forall|i: int|
        0 <= i < keys.len() ==> #[trigger] prompt_step(states, keys, instructions, i)
}

/// Whatever the keys, in every state of a run from a well-formed prompt the
/// cursor stands in the text or right behind it.
pub proof fn lemma_prompt_run_well_formed(
    states: Seq<PromptApp>,
    keys: Seq<Key>,
    instructions: Seq<Instruction>,
    k: int,
)
    requires
        prompt_run(states, keys, instructions),
        states[0].wf(),
        0 <= k < states.len(),
    ensures
        states[k].wf(),
        0 <= states[k].cursor_index <= states[k].input@.len(),
    decreases k,
{
    if k > 0 {
        lemma_prompt_run_well_formed(states, keys, instructions, k - 1);
        assert(prompt_step(states, keys, instructions, k - 1));
        lemma_key_keeps_cursor_in_text(states[k - 1], keys[k - 1], states[k], instructions[k - 1]);
    }
}

/// A run that failed never ends the interaction silently: the answer to a
/// failure is not to quit. Where the action asked for the run, the failure's
/// text becomes the newest block of the history, or, without a history, is
/// shown in the alert style.
pub proof fn lemma_prompt_failure_is_shown(
    before: PromptApp,
    outcome: &Outcome,
    after: PromptApp,
    r: Instruction,
)
    requires
        before.wf(),
        PromptApp::answered(before, outcome, after, r),
        outcome.error_text() is Some,
    ensures
        !(r is Quit),
        before.action is Exec ==> r.shows(outcome.error_text()->0, alert_style()),
        (before.action matches Action::Command { hold_output, .. } && !hold_output)
            ==> if before.history is Some {
            after.history matches Some(blocks) && blocks@.len() > 0 && blocks@.last().1@
                == history_text(outcome.error_text()->0)
        } else {
            r.shows(outcome.error_text()->0, alert_style())
        },
{
}

} // verus!
