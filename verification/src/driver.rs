//! One step of the main loop: from the screen that is shown and an event to
//! the screen that follows and what the driver has to do.

use crate::app::{App, Instruction};
use crate::dispatch::{resize_directive, resize_invocation, Invocation, InvocationView};
use crate::key::Key;
use crate::term::{append_clear, clear_text, goto_text};
use crate::text::{append_str, string_of};
use vstd::prelude::*;

verus! {

/// What the two event sources send.
pub enum Event {
    /// A key was pressed.
    Key(Key),
    /// The terminal now has this many columns and rows.
    Resize(usize, usize),
}

/// What one event does. Escape ends the interaction whatever is shown.
/// Where `dismiss_on_key` is set, any key ends it while a message is shown.
/// Every other key goes to the screen, and its instruction to the driver;
/// a new size goes to the screen, which is then drawn again.
pub open spec fn stepped(
    before: App,
    event: Event,
    dismiss_on_key: bool,
    after: App,
    r: Instruction,
) -> bool {
    match event {
        Event::Key(Key::Esc) => after == before && r is Quit,
        Event::Key(key) => if dismiss_on_key && before is Message {
            after == before && r is Quit
        } else {
            App::keyed(before, key, after, r)
        },
        Event::Resize(width, height) => App::resized(before, width, height, after) && r is Nothing,
    }
}

/// Takes one event from the stream.
pub fn step(app: &mut App, event: Event, dismiss_on_key: bool) -> (r: Instruction)
    requires
        old(app).wf(),
    ensures
        final(app).wf(),
        stepped(*old(app), event, dismiss_on_key, *final(app), r),
{
    match event {
        Event::Key(Key::Esc) => Instruction::Quit,
        Event::Key(key) => {
            let dismissed = match app {
                App::Message(_) => dismiss_on_key,
                _ => false,
            };
            if dismissed {
                Instruction::Quit
            } else {
                app.handle_input(key)
            }
        },
        Event::Resize(width, height) => {
            app.handle_resize(width, height);
            Instruction::Nothing
        },
    }
}

/// Whether the screen is drawn again after an instruction: after every one
/// but the two that end the loop, the end of the interaction and the
/// handing over of the terminal.
pub fn redraws(r: &Instruction) -> (again: bool)
    ensures
        again == !(r is Quit || r is HoldOutput),
{
    match r {
        Instruction::Quit => false,
        Instruction::HoldOutput(_) => false,
        _ => true,
    }
}

/// Whether an event ends the wait after a process has given the terminal
/// back: any key does, a new size does not.
pub fn dismisses(event: &Event) -> (done: bool)
    ensures
        done == (event is Key),
{
    match event {
        Event::Key(_) => true,
        Event::Resize(_, _) => false,
    }
}

/// What is shown after a process has given the terminal back: a line
/// break, the line that reports `status` where the process did not succeed,
/// and the line that says how to leave.
pub open spec fn report_text(success: bool, status: Seq<char>) -> Seq<char> {
    if success {
        seq!['\n'] + "Press any key to exit."@
    } else {
        seq!['\n'] + "Process exited with code "@ + status + seq!['.', '\n']
            + "Press any key to exit."@
    }
}

/// The text shown after a process has given the terminal back.
pub fn exit_report(success: bool, status: &str) -> (text: String)
    ensures
        text@ == report_text(success, status@),
{
    let mut out: Vec<char> = Vec::new();
    out.push('\n');
    if !success {
        append_str(&mut out, "Process exited with code ");
        append_str(&mut out, status);
        out.push('.');
        out.push('\n');
    }
    append_str(&mut out, "Press any key to exit.");
    assert(out@ =~= report_text(success, status@));
    string_of(&out)
}

/// How long the window is given to take its new size, in milliseconds.
pub const RESIZE_PAUSE: u64 = 100;

/// One thing that the driver does, to the terminal or with a process.
pub enum Act {
    /// Run this invocation to its end and go on, whatever comes of it.
    Direct(Invocation),
    /// Wait for this many milliseconds.
    Pause(u64),
    /// Send this text to the terminal.
    Write(String),
    /// Flush what was sent.
    Flush,
    /// Leave raw mode and give the terminal up.
    Release,
    /// Start this process on the terminal and wait until it has ended.
    Spawn(Invocation),
    /// Take the terminal back and enter raw mode.
    Acquire,
}

/// An act as plain values.
pub enum ActView {
    Direct(InvocationView),
    Pause(u64),
    Write(Seq<char>),
    Flush,
    Release,
    Spawn(InvocationView),
    Acquire,
}

impl View for Act {
    type V = ActView;

    open spec fn view(&self) -> ActView {
        match *self {
            Act::Direct(inv) => ActView::Direct(inv@),
            Act::Pause(ms) => ActView::Pause(ms),
            Act::Write(text) => ActView::Write(text@),
            Act::Flush => ActView::Flush,
            Act::Release => ActView::Release,
            Act::Spawn(inv) => ActView::Spawn(inv@),
            Act::Acquire => ActView::Acquire,
        }
    }
}

/// A list of acts as plain values.
pub open spec fn plan_of(acts: Seq<Act>) -> Seq<ActView> {
    Seq::new(acts.len(), |i: int| acts[i]@)
}

/// What the driver does before a process owns the terminal: the window is
/// resized where the invocation asks for it; then the screen is cleared, the
/// cursor put in the corner and the terminal flushed; then the terminal is
/// given up; and only then the process is started.
pub open spec fn handoff_plan(inv: InvocationView) -> Seq<ActView> {
    let resize: Seq<ActView> = match inv.resize {
        Some((width, height)) => seq![
            ActView::Direct(resize_invocation(width, height)),
            ActView::Pause(RESIZE_PAUSE),
        ],
        None => seq![],
    };
    resize + seq![
        ActView::Write(clear_text() + goto_text(1, 1)),
        ActView::Flush,
        ActView::Release,
        ActView::Spawn(inv),
    ]
}

/// What the driver does once the process has ended: the terminal is taken
/// back; then the report is written and flushed.
pub open spec fn return_plan(success: bool, status: Seq<char>) -> Seq<ActView> {
    seq![ActView::Acquire, ActView::Write(report_text(success, status)), ActView::Flush]
}

/// In a handoff the process is started last, right after the terminal was
/// given up, and nothing is written once it was given up.
pub proof fn lemma_release_before_spawn(inv: InvocationView)
    ensures
        handoff_plan(inv).len() >= 2,
        handoff_plan(inv).last() == ActView::Spawn(inv),
        handoff_plan(inv)[handoff_plan(inv).len() - 2] is Release,
        forall|i: int|
            0 <= i < handoff_plan(inv).len() - 2 ==> !((#[trigger] handoff_plan(inv)[i]) is Release
                || handoff_plan(inv)[i] is Spawn || handoff_plan(inv)[i] is Acquire),
        forall|i: int|
            0 <= i < handoff_plan(inv).len() && (#[trigger] handoff_plan(inv)[i]) is Write ==> i
                < handoff_plan(inv).len() - 2,
{
}

/// After the process nothing is written before the terminal was taken back.
pub proof fn lemma_acquire_before_write(success: bool, status: Seq<char>)
    ensures
        return_plan(success, status)[0] is Acquire,
        forall|i: int|
            0 <= i < return_plan(success, status).len() && (#[trigger] return_plan(
                success,
                status,
            )[i]) is Write ==> i > 0,
{
}

/// The acts that hand the terminal over to the process of `inv`.
pub fn handoff(inv: Invocation) -> (acts: Vec<Act>)
    ensures
        plan_of(acts@) == handoff_plan(inv@),
{
    let mut acts: Vec<Act> = Vec::new();
    match inv.resize {
        Some((width, height)) => {
            acts.push(Act::Direct(resize_directive(width, height)));
            acts.push(Act::Pause(RESIZE_PAUSE));
        },
        None => {},
    }
    let mut clear: Vec<char> = Vec::new();
    append_clear(&mut clear);
    assert(clear@ =~= clear_text() + goto_text(1, 1));
    acts.push(Act::Write(string_of(&clear)));
    acts.push(Act::Flush);
    acts.push(Act::Release);
    acts.push(Act::Spawn(inv));
    assert(plan_of(acts@) =~= handoff_plan(inv@));
    acts
}

/// The acts that follow the end of the process that owned the terminal.
pub fn after_handoff(success: bool, status: &str) -> (acts: Vec<Act>)
    ensures
        plan_of(acts@) == return_plan(success, status@),
{
    let mut acts: Vec<Act> = Vec::new();
    acts.push(Act::Acquire);
    acts.push(Act::Write(exit_report(success, status)));
    acts.push(Act::Flush);
    assert(plan_of(acts@) =~= return_plan(success, status@));
    acts
}

} // verus!
