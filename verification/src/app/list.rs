//! The filterable list: a line of filter text above the entries that match it.

use super::message::MessageApp;
use super::{App, Instruction};
use crate::config::{Action, Entry};
use crate::dispatch::{alert, alert_style, dispatch, requested, Outcome};
use crate::key::Key;
use crate::style::{Style, Styled};
use crate::term::{
    append_clear, append_goto, append_rule, append_style_reset, centre, centre_offset, clear_text,
    coordinate, goto_text, position, rule_text, style_reset_text,
};
use crate::text::{
    append_chars, append_repeated, append_str, chars_of, contains, contains_text, occurs_at,
    repeated, string_of,
};
use vstd::prelude::*;

verus! {

/// How many entries a screen of `height` rows shows: two rows are kept for
/// the filter line and the rule.
pub open spec fn capacity(height: usize) -> nat {
    if height >= 2 {
        (height - 2) as nat
    } else {
        0
    }
}

/// The entry's name or its keywords hold the filter text.
pub open spec fn entry_matches(entry: &Entry, filter: Seq<char>) -> bool {
    contains(entry.name@, filter) || (entry.keywords matches Some(words) && contains(
        words@,
        filter,
    ))
}

/// The positions of the entries that match the filter, in their order.
pub open spec fn matching(entries: Seq<Entry>, filter: Seq<char>) -> Seq<usize>
    decreases entries.len(),
{
    if entries.len() == 0 {
        Seq::empty()
    } else {
        let before = matching(entries.drop_last(), filter);
        if entry_matches(&entries.last(), filter) {
            before.push((entries.len() - 1) as usize)
        } else {
            before
        }
    }
}

/// The first `limit` items of `list`, or all of it where it has fewer.
pub open spec fn truncated(list: Seq<usize>, limit: nat) -> Seq<usize> {
    if list.len() <= limit {
        list
    } else {
        list.subrange(0, limit as int)
    }
}

/// The positions of the entries that a screen of `height` rows lists for a
/// filter: those that match, in their order, as many as the screen holds.
pub open spec fn visible(entries: Seq<Entry>, filter: Seq<char>, height: usize) -> Seq<usize> {
    truncated(matching(entries, filter), capacity(height))
}

/// The matching positions are exactly the positions of the entries that
/// match, each once and in rising order.
pub proof fn lemma_matching_exact(entries: Seq<Entry>, filter: Seq<char>)
    requires
        entries.len() <= usize::MAX,
    ensures
        forall|k: int|
            0 <= k < matching(entries, filter).len() ==> {
                &&& (#[trigger] matching(entries, filter)[k]) < entries.len()
                &&& entry_matches(&entries[matching(entries, filter)[k] as int], filter)
            },
        forall|j: int, k: int|
            0 <= j < k < matching(entries, filter).len() ==> matching(entries, filter)[j]
                < matching(entries, filter)[k],
        forall|i: int|
            0 <= i < entries.len() && entry_matches(&entries[i], filter) ==> matching(
                entries,
                filter,
            ).contains(i as usize),
        matching(entries, filter).len() <= entries.len(),
    decreases entries.len(),
{
    if entries.len() > 0 {
        let shorter = entries.drop_last();
        let before = matching(shorter, filter);
        let all = matching(entries, filter);
        lemma_matching_exact(shorter, filter);
        assert forall|i: int|
            0 <= i < entries.len() && entry_matches(&entries[i], filter) implies all.contains(
            i as usize,
        ) by {
            if i < shorter.len() {
                assert(entry_matches(&shorter[i], filter));
                let k = choose|k: int| 0 <= k < before.len() && before[k] == i as usize;
                assert(all[k] == i as usize);
            } else {
                assert(all[all.len() - 1] == i as usize);
            }
        }
        assert forall|k: int| 0 <= k < all.len() implies (#[trigger] all[k]) < entries.len()
            && entry_matches(&entries[all[k] as int], filter) by {
            if k < before.len() {
                assert(all[k] == before[k]);
                assert(entries[before[k] as int] == shorter[before[k] as int]);
            }
        }
    }
}

/// The empty filter matches every entry.
pub proof fn lemma_empty_filter_matches_all(entries: Seq<Entry>)
    ensures
        matching(entries, Seq::empty()) == Seq::new(entries.len(), |i: int| i as usize),
    decreases entries.len(),
{
    if entries.len() > 0 {
        lemma_empty_filter_matches_all(entries.drop_last());
        let name = entries.last().name@;
        assert(name.subrange(0, 0) =~= Seq::<char>::empty());
        assert(occurs_at(name, Seq::empty(), 0));
    }
    assert(matching(entries, Seq::empty()) =~= Seq::new(entries.len(), |i: int| i as usize));
}

/// With the empty filter a screen lists the first entries, as many as it holds.
pub proof fn lemma_empty_filter_lists_first(entries: Seq<Entry>, height: usize)
    ensures
        visible(entries, Seq::empty(), height) == truncated(
            Seq::new(entries.len(), |i: int| i as usize),
            capacity(height),
        ),
        visible(entries, Seq::empty(), height).len() <= capacity(height),
{
    lemma_empty_filter_matches_all(entries);
}

/// Every listed position is the position of an entry that matches, and no
/// screen lists more than it holds.
pub proof fn lemma_visible_exact(entries: Seq<Entry>, filter: Seq<char>, height: usize)
    requires
        entries.len() <= usize::MAX,
    ensures
        visible(entries, filter, height).len() == if matching(entries, filter).len() <= capacity(
            height,
        ) {
            matching(entries, filter).len()
        } else {
            capacity(height)
        },
        visible(entries, filter, height).len() <= capacity(height),
        visible(entries, filter, height).len() <= entries.len(),
        forall|k: int|
            0 <= k < visible(entries, filter, height).len() ==> {
                &&& (#[trigger] visible(entries, filter, height)[k]) < entries.len()
                &&& visible(entries, filter, height)[k] == matching(entries, filter)[k]
                &&& entry_matches(&entries[visible(entries, filter, height)[k] as int], filter)
            },
{
    lemma_matching_exact(entries, filter);
}

/// Whether the entry's name or its keywords hold the filter text.
pub fn matches_filter(entry: &Entry, filter: &Vec<char>) -> (found: bool)
    ensures
        found == entry_matches(entry, filter@),
{
    let name = chars_of(entry.name.as_str());
    if contains_text(&name, filter) {
        return true;
    }
    match &entry.keywords {
        Some(words) => {
            let chars = chars_of(words.as_str());
            contains_text(&chars, filter)
        },
        None => false,
    }
}

/// The state of a filterable list.
pub struct ListApp {
    pub entries: Vec<Entry>,
    /// Shown in place of the filter while it is empty.
    pub placeholder: Styled,
    pub icon: Styled,
    /// The style of the selected row.
    pub selected_style: Style,
    /// The text typed so far.
    pub filter: Vec<char>,
    /// The selected row, counted within `list`.
    pub selected: usize,
    /// The positions in `entries` of the rows that are shown.
    pub list: Vec<usize>,
    pub width: usize,
    pub height: usize,
}

impl ListApp {
    /// The list shows what the filter and the height ask for, and the
    /// selection is one of its rows, or zero where it has none.
    pub open spec fn wf(&self) -> bool {
        &&& self.list@ == visible(self.entries@, self.filter@, self.height)
        &&& self.selected < self.list.len() || (self.list.len() == 0 && self.selected == 0)
    }

    /// The two lists are of the same menu: entries, placeholder, icon and
    /// selection style are the same.
    pub open spec fn same_menu(&self, other: &ListApp) -> bool {
        &&& self.entries == other.entries
        &&& self.placeholder == other.placeholder
        &&& self.icon == other.icon
        &&& self.selected_style == other.selected_style
    }

    /// The selection after moving up from `selected` in a list of `len`
    /// rows: the row above, the last row from the first.
    pub open spec fn moved_up(selected: nat, len: nat) -> nat {
        if len == 0 {
            0
        } else if selected > 0 {
            (selected - 1) as nat
        } else {
            (len - 1) as nat
        }
    }

    /// The selection after moving down: the row below, the first row from
    /// the last.
    pub open spec fn moved_down(selected: nat, len: nat) -> nat {
        if len == 0 {
            0
        } else if selected + 1 < len {
            (selected + 1) as nat
        } else {
            0
        }
    }

    /// A list with an empty filter and the first row selected.
    pub fn new(
        entries: Vec<Entry>,
        placeholder: Styled,
        icon: Styled,
        selected_style: Style,
        width: usize,
        height: usize,
    ) -> (app: ListApp)
        ensures
            app.wf(),
            app.entries == entries,
            app.placeholder == placeholder,
            app.icon == icon,
            app.selected_style == selected_style,
            app.filter@ == Seq::<char>::empty(),
            app.selected == 0,
            app.width == width,
            app.height == height,
    {
        let mut app = ListApp {
            entries,
            placeholder,
            icon,
            selected_style,
            filter: Vec::new(),
            selected: 0,
            list: Vec::new(),
            width,
            height,
        };
        app.update_list();
        proof {
            assert(app.entries@.len() == app.entries.len());
            lemma_visible_exact(app.entries@, app.filter@, app.height);
        }
        app
    }

    /// The text typed so far.
    pub fn filter_text(&self) -> (text: String)
        ensures
            text@ == self.filter@,
    {
        string_of(&self.filter)
    }

    /// Computes the list anew from the entries, the filter and the height.
    pub fn update_list(&mut self)
        ensures
            final(self).list@ == visible(old(self).entries@, old(self).filter@, old(self).height),
            final(self).same_menu(old(self)),
            final(self).filter == old(self).filter,
            final(self).selected == old(self).selected,
            final(self).width == old(self).width,
            final(self).height == old(self).height,
    {
        self.list = self.visible_list();
    }

    /// What one key does: `after` and `r` are the state and the instruction
    /// that follow from `before` and `key`. A character extends the filter
    /// and Backspace shortens it, both selecting the first row of the new
    /// list; Up and Shift-Tab, Down and Tab move the selection and wrap
    /// round; Enter confirms the selected entry, with an empty text; every
    /// other key does nothing.
    pub open spec fn keyed(before: ListApp, key: Key, after: ListApp, r: Instruction) -> bool {
        &&& after.list@ == visible(after.entries@, after.filter@, after.height)
        &&& after.same_menu(&before)
        &&& after.width == before.width
        &&& after.height == before.height
        &&& match key {
            Key::Char('\n') => {
                &&& after == before
                &&& if before.list.len() == 0 {
                    r is Nothing
                } else {
                    r.carries(
                        requested(
                            &before.entries[before.list[before.selected as int] as int].action,
                            Seq::empty(),
                        ),
                    )
                }
            },
            Key::Up | Key::BackTab => {
                &&& r is Nothing
                &&& after.filter == before.filter
                &&& after.list == before.list
                &&& after.selected == ListApp::moved_up(
                    before.selected as nat,
                    before.list@.len(),
                )
            },
            Key::Down | Key::Char('\t') => {
                &&& r is Nothing
                &&& after.filter == before.filter
                &&& after.list == before.list
                &&& after.selected == ListApp::moved_down(
                    before.selected as nat,
                    before.list@.len(),
                )
            },
            Key::Backspace => {
                &&& r is Nothing
                &&& after.selected == 0
                &&& after.filter@ == if before.filter@.len() > 0 {
                    before.filter@.drop_last()
                } else {
                    before.filter@
                }
            },
            Key::Char(ch) => {
                &&& r is Nothing
                &&& after.selected == 0
                &&& after.filter@ == before.filter@.push(ch)
            },
            _ => after == before && r is Nothing,
        }
    }

    /// Takes one key: a character extends the filter and Backspace shortens
    /// it, both selecting the first row of the new list; Up and Shift-Tab,
    /// Down and Tab move the selection and wrap round; Enter confirms the
    /// selected entry; every other key does nothing.
    pub fn handle_input(&mut self, key: Key) -> (r: Instruction)
        requires
            old(self).wf(),
        ensures
            final(self).wf(),
            ListApp::keyed(*old(self), key, *final(self), r),
    {
        proof {
            assert(self.entries@.len() == self.entries.len());
            lemma_visible_exact(self.entries@, self.filter@, self.height);
        }
        match key {
            Key::Char('\n') => {
                if self.list.len() == 0 {
                    Instruction::Nothing
                } else {
                    let at = self.list[self.selected];
                    let input: Vec<char> = Vec::new();
                    Instruction::from_request(dispatch(&self.entries[at].action, &input))
                }
            },
            Key::Up | Key::BackTab => {
                if self.list.len() == 0 {
                } else if self.selected > 0 {
                    self.selected -= 1;
                } else {
                    self.selected = self.list.len() - 1;
                }
                Instruction::Nothing
            },
            Key::Down | Key::Char('\t') => {
                if self.list.len() == 0 {
                } else if self.selected < self.list.len() - 1 {
                    self.selected += 1;
                } else {
                    self.selected = 0;
                }
                Instruction::Nothing
            },
            Key::Backspace => {
                self.selected = 0;
                self.filter.pop();
                self.update_list();
                proof {
                    assert(self.entries@.len() == self.entries.len());
                    lemma_visible_exact(self.entries@, self.filter@, self.height);
                }
                Instruction::Nothing
            },
            Key::Char(ch) => {
                self.selected = 0;
                self.filter.push(ch);
                self.update_list();
                proof {
                    assert(self.entries@.len() == self.entries.len());
                    lemma_visible_exact(self.entries@, self.filter@, self.height);
                }
                Instruction::Nothing
            },
            _ => Instruction::Nothing,
        }
    }

    /// What a new size does: the list is computed anew for the new height;
    /// the selection stays where it is, or moves to the last row where its
    /// row is no longer shown.
    pub open spec fn resized(
        before: ListApp,
        width: usize,
        height: usize,
        after: ListApp,
    ) -> bool {
        &&& after.list@ == visible(after.entries@, after.filter@, after.height)
        &&& after.same_menu(&before)
        &&& after.filter == before.filter
        &&& after.width == width
        &&& after.height == height
        &&& after.selected == if before.selected < after.list.len() {
            before.selected as int
        } else if after.list.len() == 0 {
            0
        } else {
            after.list.len() - 1
        }
    }

    /// Takes the new size of the screen. The list is computed anew for the
    /// new height; the selection stays where it is, or moves to the last row
    /// where its row is no longer shown.
    pub fn handle_resize(&mut self, width: usize, height: usize)
        requires
            old(self).wf(),
        ensures
            final(self).wf(),
            ListApp::resized(*old(self), width, height, *final(self)),
    {
        self.width = width;
        self.height = height;
        self.update_list();
        if self.selected >= self.list.len() {
            self.selected = if self.list.len() == 0 {
                0
            } else {
                self.list.len() - 1
            };
        }
    }

    /// What the outcome of a run means to a list: a launcher or a command
    /// that did not start, or ended without success, is reported on a message
    /// screen, in the alert style; after one that succeeded the interaction
    /// is over. An entry that asked for no run, and a list without rows,
    /// leave everything as it is.
    pub open spec fn answered(before: ListApp, outcome: &Outcome, r: Instruction) -> bool {
        if before.list.len() == 0 {
            r is Nothing
        } else {
            match before.entries[before.list[before.selected as int] as int].action {
                Action::Exec(_) => match outcome.error_text() {
                    Some(text) => r.shows(text, alert_style()),
                    None => r is Quit,
                },
                Action::Command { hold_output, .. } => if hold_output {
                    r is Nothing
                } else {
                    match outcome.error_text() {
                        Some(text) => r.shows(text, alert_style()),
                        None => r is Quit,
                    }
                },
                Action::OpenMenu(_) => r is Nothing,
            }
        }
    }

    /// Takes the outcome of the process that the selected entry asked for.
    /// A failure is reported on a message screen, in the alert style; after
    /// a success the interaction is over. An entry that asked for no run
    /// leaves everything as it is.
    pub fn handle_outcome(&self, outcome: &Outcome) -> (r: Instruction)
        requires
            self.wf(),
        ensures
            ListApp::answered(*self, outcome, r),
    {
        proof {
            assert(self.entries@.len() == self.entries.len());
            lemma_visible_exact(self.entries@, self.filter@, self.height);
        }
        if self.list.len() == 0 {
            return Instruction::Nothing;
        }
        let at = self.list[self.selected];
        match &self.entries[at].action {
            Action::Exec(_) => {
                if outcome.is_failure() {
                    Instruction::SetApp(App::Message(MessageApp(alert(outcome))))
                } else {
                    Instruction::Quit
                }
            },
            Action::Command { program, args, hold_output, output_size } => {
                if *hold_output {
                    Instruction::Nothing
                } else if outcome.is_failure() {
                    Instruction::SetApp(App::Message(MessageApp(alert(outcome))))
                } else {
                    Instruction::Quit
                }
            },
            Action::OpenMenu(_) => Instruction::Nothing,
        }
    }
}

impl ListApp {
    /// What stands on the first line behind the icon: the filter, or the
    /// placeholder while the filter is empty.
    pub open spec fn prompt_text(&self) -> Seq<char> {
        if self.filter@.len() == 0 {
            self.placeholder.rendered()
        } else {
            self.filter@
        }
    }

    /// Row `i` of the list, on screen row `i + 3`: two spaces, the entry's
    /// icon, a space and its name; the selected row stands between the
    /// selection style and the end of all styles.
    pub open spec fn row_text(&self, i: int) -> Seq<char> {
        let entry = self.entries[self.list[i] as int];
        let on: Seq<char> = if i == self.selected {
            self.selected_style.escape_text()
        } else {
            Seq::empty()
        };
        let off: Seq<char> = if i == self.selected {
            style_reset_text()
        } else {
            Seq::empty()
        };
        goto_text(1, coordinate(i + 3)) + seq![' ', ' '] + on + entry.icon.rendered() + seq![' ']
            + entry.name@ + off
    }

    /// The first `n` rows of the list.
    pub open spec fn rows_text(&self, n: int) -> Seq<char>
        decreases n,
    {
        if n <= 0 {
            Seq::empty()
        } else {
            self.rows_text(n - 1) + self.row_text(n - 1)
        }
    }

    /// The column at which the first line starts.
    pub open spec fn offset(&self) -> nat {
        centre_offset(self.width, self.placeholder.text@.len() as usize)
    }

    /// The whole screen: cleared; the first line, centred, with the icon and
    /// the filter or placeholder; a rule on the second row; the rows of the
    /// list below it; and the cursor behind the filter text.
    pub open spec fn screen_text(&self) -> Seq<char> {
        clear_text() + goto_text(1, 1) + repeated(' ', self.offset()) + self.icon.rendered()
            + seq![' '] + self.prompt_text() + goto_text(1, 2) + rule_text(self.width)
            + self.rows_text(self.list@.len() as int) + goto_text(
            coordinate((self.offset() + self.filter@.len() + 3) as int),
            1,
        )
    }

    /// Appends row `i` of the list to `out`.
    fn append_row(&self, out: &mut Vec<char>, i: usize)
        requires
            self.wf(),
            i < self.list.len(),
        ensures
            final(out)@ == old(out)@ + self.row_text(i as int),
    {
        proof {
            assert(self.entries@.len() == self.entries.len());
            lemma_visible_exact(self.entries@, self.filter@, self.height);
        }
        let entry = &self.entries[self.list[i]];
        append_goto(out, 1, position(i, 3, 0));
        out.push(' ');
        out.push(' ');
        if i == self.selected {
            self.selected_style.append_escape(out);
        }
        entry.icon.append_to(out);
        out.push(' ');
        append_str(out, entry.name.as_str());
        if i == self.selected {
            append_style_reset(out);
        }
        assert(out@ =~= old(out)@ + self.row_text(i as int));
    }

    /// Paints the screen from the current state.
    pub fn draw(&self) -> (screen: String)
        requires
            self.wf(),
        ensures
            screen@ == self.screen_text(),
    {
        let offset = centre(self.width, self.placeholder.width());
        let mut out: Vec<char> = Vec::new();
        append_clear(&mut out);
        append_repeated(&mut out, ' ', offset);
        self.icon.append_to(&mut out);
        out.push(' ');
        if self.filter.len() == 0 {
            self.placeholder.append_to(&mut out);
        } else {
            append_chars(&mut out, &self.filter);
        }
        append_goto(&mut out, 1, 2);
        append_rule(&mut out, self.width);
        let ghost head = out@;
        assert(head =~= clear_text() + goto_text(1, 1) + repeated(' ', self.offset())
            + self.icon.rendered() + seq![' '] + self.prompt_text() + goto_text(1, 2) + rule_text(
            self.width,
        ));
        let mut i: usize = 0;
        while i < self.list.len()
            invariant
                self.wf(),
                i <= self.list.len(),
                out@ == head + self.rows_text(i as int),
            decreases self.list.len() - i,
        {
            self.append_row(&mut out, i);
            assert(out@ =~= head + self.rows_text(i + 1));
            i += 1;
        }
        append_goto(&mut out, position(offset, self.filter.len(), 3), 1);
        string_of(&out)
    }
}

impl ListApp {
    /// The positions that the list has to show.
    fn visible_list(&self) -> (out: Vec<usize>)
        ensures
            out@ == visible(self.entries@, self.filter@, self.height),
    {
        let limit: usize = if self.height >= 2 {
            self.height - 2
        } else {
            0
        };
        let mut out: Vec<usize> = Vec::new();
        let mut i: usize = 0;
        while i < self.entries.len()
            invariant
                i <= self.entries.len(),
                limit == capacity(self.height),
                out@ == truncated(
                    matching(self.entries@.subrange(0, i as int), self.filter@),
                    limit as nat,
                ),
            decreases self.entries.len() - i,
        {
            assert(self.entries@.subrange(0, i + 1).drop_last() =~= self.entries@.subrange(
                0,
                i as int,
            ));
            if out.len() < limit && matches_filter(&self.entries[i], &self.filter) {
                out.push(i);
            }
            assert(out@ =~= truncated(
                matching(self.entries@.subrange(0, i + 1), self.filter@),
                limit as nat,
            ));
            i += 1;
        }
        assert(self.entries@.subrange(0, self.entries.len() as int) =~= self.entries@);
        out
    }

    /// Whether the state is well formed.
    pub fn is_well_formed(&self) -> (ok: bool)
        ensures
            ok == self.wf(),
    {
        let expected = self.visible_list();
        if expected.len() != self.list.len() {
            return false;
        }
        let mut i: usize = 0;
        while i < expected.len()
            invariant
                i <= expected.len(),
                expected.len() == self.list.len(),
                expected@ == visible(self.entries@, self.filter@, self.height),
                forall|j: int| 0 <= j < i ==> expected@[j] == self.list@[j],
            decreases expected.len() - i,
        {
            if expected[i] != self.list[i] {
                assert(expected@[i as int] != self.list@[i as int]);
                return false;
            }
            i += 1;
        }
        assert(expected@ =~= self.list@);
        self.selected < self.list.len() || (self.list.len() == 0 && self.selected == 0)
    }
}

/// The selection after a run of moves from `selected` in a list of `len`
/// rows; `true` in `ups` is a move up, `false` a move down.
pub open spec fn after_moves(selected: nat, len: nat, ups: Seq<bool>) -> nat
    decreases ups.len(),
{
    if ups.len() == 0 {
        selected
    } else {
        let so_far = after_moves(selected, len, ups.drop_last());
        if ups.last() {
            ListApp::moved_up(so_far, len)
        } else {
            ListApp::moved_down(so_far, len)
        }
    }
}

/// Whatever the moves, the selection stays a row of the list.
pub proof fn lemma_moves_stay_in_list(selected: nat, len: nat, ups: Seq<bool>)
    requires
        selected < len,
    ensures
        after_moves(selected, len, ups) < len,
    decreases ups.len(),
{
    if ups.len() > 0 {
        lemma_moves_stay_in_list(selected, len, ups.drop_last());
    }
}

/// Up from the first row leads to the last, and down from the last to the
/// first.
pub proof fn lemma_moves_wrap(len: nat)
    requires
        len > 0,
    ensures
        ListApp::moved_up(0, len) == len - 1,
        ListApp::moved_down((len - 1) as nat, len) == 0,
{
}

/// Whatever the key, a well-formed list stays well formed: the selection is
/// a row of the new list, or zero where that has no row.
pub proof fn lemma_key_keeps_list_well_formed(
    before: ListApp,
    key: Key,
    after: ListApp,
    r: Instruction,
)
    requires
        before.wf(),
        ListApp::keyed(before, key, after, r),
    ensures
        after.wf(),
        after.list@.len() <= capacity(after.height),
        after.list@.len() > 0 ==> after.selected < after.list@.len(),
{
    assert(after.entries@.len() == after.entries.len());
    lemma_visible_exact(after.entries@, after.filter@, after.height);
}

/// A key that changes the filter selects the first row.
pub proof fn lemma_filter_change_selects_first(
    before: ListApp,
    key: Key,
    after: ListApp,
    r: Instruction,
)
    requires
        before.wf(),
        ListApp::keyed(before, key, after, r),
        after.filter@ != before.filter@,
    ensures
        after.selected == 0,
{
}

/// Taking the same size twice is the same as taking it once.
pub proof fn lemma_resize_idempotent(
    before: ListApp,
    width: usize,
    height: usize,
    once: ListApp,
    twice: ListApp,
)
    requires
        before.wf(),
        ListApp::resized(before, width, height, once),
        ListApp::resized(once, width, height, twice),
    ensures
        twice.list@ == once.list@,
        twice.selected == once.selected,
        twice.filter == once.filter,
        twice.width == once.width,
        twice.height == once.height,
        twice.same_menu(&once),
{
}

/// State `i + 1` of a run follows from state `i` by key `i`, with
/// instruction `i`.
pub open spec fn list_step(
    states: Seq<ListApp>,
    keys: Seq<Key>,
    instructions: Seq<Instruction>,
    i: int,
) -> bool {
    ListApp::keyed(states[i], keys[i], states[i + 1], instructions[i])
}

/// A run of keys: one state more than keys, each following from the one
/// before it by its key, and one instruction for each key.
pub open spec fn list_run(
    states: Seq<ListApp>,
    keys: Seq<Key>,
    instructions: Seq<Instruction>,
) -> bool {
    &&& states.len() == keys.len() + 1
    &&& instructions.len() == keys.len()
    &&& forall|i: int|
        0 <= i < keys.len() ==> #[trigger] list_step(states, keys, instructions, i)
}

/// Whatever the keys, every state of a run from a well-formed list is well
/// formed: the selection is a row of the list, or zero where it has none,
/// and the list holds no more rows than the screen.
pub proof fn lemma_list_run_well_formed(
    states: Seq<ListApp>,
    keys: Seq<Key>,
    instructions: Seq<Instruction>,
    k: int,
)
    requires
        list_run(states, keys, instructions),
        states[0].wf(),
        0 <= k < states.len(),
    ensures
        states[k].wf(),
        states[k].list@.len() <= capacity(states[k].height),
        states[k].list@.len() > 0 ==> states[k].selected < states[k].list@.len(),
    decreases k,
{
    if k > 0 {
        lemma_list_run_well_formed(states, keys, instructions, k - 1);
        assert(list_step(states, keys, instructions, k - 1));
        lemma_key_keeps_list_well_formed(states[k - 1], keys[k - 1], states[k], instructions[k - 1]);
    } else {
        assert(states[0].entries@.len() == states[0].entries.len());
        lemma_visible_exact(states[0].entries@, states[0].filter@, states[0].height);
    }
}

/// A run that failed never ends the interaction silently: whatever the
/// entry, the answer to a failure is not to quit, and where the entry asked
/// for the run, the failure's text is shown in the alert style.
pub proof fn lemma_list_failure_is_shown(before: ListApp, outcome: &Outcome, r: Instruction)
    requires
        before.wf(),
        ListApp::answered(before, outcome, r),
        outcome.error_text() is Some,
    ensures
        !(r is Quit),
        before.list@.len() > 0 && (before.entries[before.list[before.selected as int] as int].action
            matches Action::Command { hold_output, .. } && !hold_output) ==> r.shows(
            outcome.error_text()->0,
            alert_style(),
        ),
        before.list@.len() > 0 && before.entries[before.list[before.selected as int] as int].action
            is Exec ==> r.shows(outcome.error_text()->0, alert_style()),
{
}

} // verus!
