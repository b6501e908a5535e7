//! From a confirmed action to the work that the driver has to do: the
//! process to run, and what its result means.

use crate::config::Action;
use crate::style::{Color, Style, Styled};
use crate::text::{
    append_chars, append_decimal, chars_of, contains, count_char, decimal, lemma_replace_absent,
    occurrences, replace, replace_all, string_of,
};
use vstd::prelude::*;
use vstd::string::*;

verus! {

/// Where the output of a process goes.
#[derive(Clone, Copy, Debug, PartialEq, Eq, Structural)]
pub enum Stdio {
    /// Standard output and standard error are captured and handed back.
    Captured,
    /// Standard output and standard error are those of the real terminal.
    Terminal,
}

/// A process to start: the program, its arguments, where its output goes,
/// and the size that the window is given first, if any.
pub struct Invocation {
    pub program: String,
    pub args: Vec<String>,
    pub stdio: Stdio,
    pub resize: Option<(usize, usize)>,
}

/// An invocation as plain values.
pub struct InvocationView {
    pub program: Seq<char>,
    pub args: Seq<Seq<char>>,
    pub stdio: Stdio,
    pub resize: Option<(usize, usize)>,
}

/// The texts of a list of strings.
pub open spec fn texts(list: Seq<String>) -> Seq<Seq<char>> {
    Seq::new(list.len(), |i: int| list[i]@)
}

impl View for Invocation {
    type V = InvocationView;

    open spec fn view(&self) -> InvocationView {
        InvocationView {
            program: self.program@,
            args: texts(self.args@),
            stdio: self.stdio,
            resize: self.resize,
        }
    }
}

/// What became of a process that was run to its end.
pub enum Outcome {
    /// The process ran and ended, with or without success.
    Completed { success: bool, stdout: String, stderr: String },
    /// The process could not be started; the text says why.
    Failed(String),
}

impl Outcome {
    /// The text that reports a failure, if the outcome is one: the reason
    /// why the process did not start, or the standard error of a process
    /// that ended without success.
    pub open spec fn error_text(&self) -> Option<Seq<char>> {
        match *self {
            Outcome::Failed(reason) => Some(reason@),
            Outcome::Completed { success, stdout, stderr } => if success {
                None
            } else {
                Some(stderr@)
            },
        }
    }

    /// The text that a history shows for the outcome: the failure's text,
    /// or the standard output of a process that succeeded.
    pub open spec fn shown_text(&self) -> Seq<char> {
        match *self {
            Outcome::Failed(reason) => reason@,
            Outcome::Completed { success, stdout, stderr } => if success {
                stdout@
            } else {
                stderr@
            },
        }
    }

    /// The characters of `shown_text`.
    pub fn shown_chars(&self) -> (out: Vec<char>)
        ensures
            out@ == self.shown_text(),
    {
        match self {
            Outcome::Failed(reason) => chars_of(reason.as_str()),
            Outcome::Completed { success, stdout, stderr } => if *success {
                chars_of(stdout.as_str())
            } else {
                chars_of(stderr.as_str())
            },
        }
    }

    /// Whether the outcome is a failure.
    pub fn is_failure(&self) -> (failed: bool)
        ensures
            failed == self.error_text().is_some(),
    {
        match self {
            Outcome::Failed(_) => true,
            Outcome::Completed { success, stdout, stderr } => !*success,
        }
    }
}

/// The placeholder that stands for the prompt's text: `{input}`.
pub open spec fn token() -> Seq<char> {
    seq!['{', 'i', 'n', 'p', 'u', 't', '}']
}

/// `template` with every placeholder replaced by `input`.
pub open spec fn substituted(template: Seq<char>, input: Seq<char>) -> Seq<char> {
    replace_all(template, token(), input)
}

/// Each of `args` with every placeholder replaced by `input`.
pub open spec fn substituted_all(args: Seq<Seq<char>>, input: Seq<char>) -> Seq<Seq<char>> {
    Seq::new(args.len(), |i: int| substituted(args[i], input))
}

/// A template without the placeholder is left as it is, whatever the input.
pub proof fn lemma_substitute_without_token(template: Seq<char>, input: Seq<char>)
    requires
        !contains(template, token()),
    ensures
        substituted(template, input) == template,
{
    lemma_replace_absent(template, token(), input);
}

/// Every argument is substituted on its own: the result has as many
/// arguments as the template, and each depends on its own template only.
pub proof fn lemma_substitute_each(args: Seq<Seq<char>>, input: Seq<char>, i: int)
    requires
        0 <= i < args.len(),
    ensures
        substituted_all(args, input).len() == args.len(),
        substituted_all(args, input)[i] == substituted(args[i], input),
{
}

/// The characters of the placeholder.
fn token_chars() -> (out: Vec<char>)
    ensures
        out@ == token(),
{
    let mut out: Vec<char> = Vec::new();
    out.push('{');
    out.push('i');
    out.push('n');
    out.push('p');
    out.push('u');
    out.push('t');
    out.push('}');
    assert(out@ =~= token());
    out
}

/// Replaces every placeholder in `template` by `input`.
pub fn substitute_chars(template: &str, input: &Vec<char>) -> (out: String)
    ensures
        out@ == substituted(template@, input@),
{
    let from = token_chars();
    let chars = chars_of(template);
    let replaced = replace(&chars, &from, input);
    string_of(&replaced)
}

/// Replaces every placeholder in `template` by `input`.
pub fn substitute(template: &str, input: &str) -> (out: String)
    ensures
        out@ == substituted(template@, input@),
{
    let input_chars = chars_of(input);
    substitute_chars(template, &input_chars)
}

/// Replaces every placeholder in each of `args` by `input`.
pub fn substitute_all(args: &Vec<String>, input: &Vec<char>) -> (out: Vec<String>)
    ensures
        texts(out@) == substituted_all(texts(args@), input@),
{
    let mut out: Vec<String> = Vec::new();
    let mut i: usize = 0;
    while i < args.len()
        invariant
            i <= args.len(),
            out.len() == i,
            forall|j: int| 0 <= j < i ==> out@[j]@ == substituted(args@[j]@, input@),
        decreases args.len() - i,
    {
        out.push(substitute_chars(args[i].as_str(), input));
        i += 1;
    }
    assert(texts(out@) =~= substituted_all(texts(args@), input@));
    out
}

/// The invocation of the window manager's launcher for a command line:
/// `hyprctl dispatch exec` and the command line as one argument.
pub open spec fn launcher(command_line: Seq<char>) -> InvocationView {
    InvocationView {
        program: "hyprctl"@,
        args: seq!["dispatch"@, "exec"@, command_line],
        stdio: Stdio::Captured,
        resize: None,
    }
}

/// The text of the directive that gives the active window the size `width`
/// by `height` and centres it.
pub open spec fn resize_text(width: usize, height: usize) -> Seq<char> {
    "dispatch resizeactive exact "@ + decimal(width as nat) + seq![' '] + decimal(height as nat)
        + "; dispatch centerwindow"@
}

/// The invocation that resizes and centres the active window.
pub open spec fn resize_invocation(width: usize, height: usize) -> InvocationView {
    InvocationView {
        program: "hyprctl"@,
        args: seq!["--batch"@, resize_text(width, height)],
        stdio: Stdio::Captured,
        resize: None,
    }
}

/// The invocation that resizes the active window to `width` by `height`
/// and centres it.
pub fn resize_directive(width: usize, height: usize) -> (inv: Invocation)
    ensures
        inv@ == resize_invocation(width, height),
{
    let mut text = chars_of("dispatch resizeactive exact ");
    append_decimal(&mut text, width as u64);
    text.push(' ');
    append_decimal(&mut text, height as u64);
    let tail = chars_of("; dispatch centerwindow");
    append_chars(&mut text, &tail);
    assert(text@ =~= resize_text(width, height));
    let mut args: Vec<String> = Vec::new();
    args.push(String::from_str("--batch"));
    args.push(string_of(&text));
    let inv = Invocation {
        program: String::from_str("hyprctl"),
        args,
        stdio: Stdio::Captured,
        resize: None,
    };
    assert(inv@.args =~= resize_invocation(width, height).args);
    inv
}

/// What confirming an action asks of the driver, the prompt's text being
/// `input`.
pub enum Request {
    /// Run the process to its end, capture its output, and hand back the outcome.
    Run(Invocation),
    /// Hand the terminal over to the process.
    HoldOutput(Invocation),
    /// Load the menu of this name and show it.
    OpenMenu(String),
}

/// A request as plain values.
pub enum RequestView {
    Run(InvocationView),
    HoldOutput(InvocationView),
    OpenMenu(Seq<char>),
}

impl View for Request {
    type V = RequestView;

    open spec fn view(&self) -> RequestView {
        match *self {
            Request::Run(inv) => RequestView::Run(inv@),
            Request::HoldOutput(inv) => RequestView::HoldOutput(inv@),
            Request::OpenMenu(name) => RequestView::OpenMenu(name@),
        }
    }
}

/// The request that an action makes when it is confirmed with the text
/// `input`: the launcher for a command line, the program itself for a
/// command (with the terminal as its output where it holds the output, and
/// captured otherwise), the menu's name for a menu. The placeholder is
/// replaced by `input` in the command line, in each argument and in the
/// menu's name.
pub open spec fn requested(action: &Action, input: Seq<char>) -> RequestView {
    match *action {
        Action::Exec(command_line) => RequestView::Run(launcher(substituted(command_line@, input))),
        Action::Command { program, args, hold_output, output_size } => if hold_output {
            RequestView::HoldOutput(
                InvocationView {
                    program: program@,
                    args: substituted_all(texts(args@), input),
                    stdio: Stdio::Terminal,
                    resize: output_size,
                },
            )
        } else {
            RequestView::Run(
                InvocationView {
                    program: program@,
                    args: substituted_all(texts(args@), input),
                    stdio: Stdio::Captured,
                    resize: None,
                },
            )
        },
        Action::OpenMenu(name) => RequestView::OpenMenu(substituted(name@, input)),
    }
}

/// Turns a confirmed action and the prompt's text into a request.
pub fn dispatch(action: &Action, input: &Vec<char>) -> (request: Request)
    ensures
        request@ == requested(action, input@),
{
    match action {
        Action::Exec(command_line) => {
            let mut args: Vec<String> = Vec::new();
            args.push(String::from_str("dispatch"));
            args.push(String::from_str("exec"));
            args.push(substitute_chars(command_line.as_str(), input));
            let inv = Invocation {
                program: String::from_str("hyprctl"),
                args,
                stdio: Stdio::Captured,
                resize: None,
            };
            assert(inv@.args =~= launcher(substituted(command_line@, input@)).args);
            Request::Run(inv)
        },
        Action::Command { program, args, hold_output, output_size } => {
            let filled = substitute_all(args, input);
            if *hold_output {
                Request::HoldOutput(
                    Invocation {
                        program: program.clone(),
                        args: filled,
                        stdio: Stdio::Terminal,
                        resize: *output_size,
                    },
                )
            } else {
                Request::Run(
                    Invocation {
                        program: program.clone(),
                        args: filled,
                        stdio: Stdio::Captured,
                        resize: None,
                    },
                )
            }
        },
        Action::OpenMenu(name) => Request::OpenMenu(substitute_chars(name.as_str(), input)),
    }
}

/// A command that holds the output is handed the terminal, whatever its
/// arguments, its window size and the text: it is never run with its output
/// captured.
pub proof fn lemma_holding_command_gets_terminal(action: &Action, input: Seq<char>)
    requires
        *action matches Action::Command { hold_output, .. } && hold_output,
    ensures
        requested(action, input) matches RequestView::HoldOutput(inv) && inv.stdio
            == Stdio::Terminal,
{
}

/// The style of an alert: red on the default background.
pub open spec fn alert_style() -> Style {
    Style {
        fg: Color::Red,
        bg: Color::Default,
        dim: false,
        bold: false,
        italic: false,
        underline: false,
    }
}

/// The failure's text as an alert; the empty text where the outcome is no failure.
pub fn alert(outcome: &Outcome) -> (msg: Styled)
    ensures
        msg.style == alert_style(),
        msg.text@ == match outcome.error_text() {
            Some(text) => text,
            None => Seq::<char>::empty(),
        },
{
    let text: String = match outcome {
        Outcome::Failed(reason) => reason.clone(),
        Outcome::Completed { success, stdout, stderr } => if *success {
            String::new()
        } else {
            stderr.clone()
        },
    };
    Styled {
        text,
        style: Style {
            fg: Color::Red,
            bg: Color::Default,
            dim: false,
            bold: false,
            italic: false,
            underline: false,
        },
    }
}

/// The line break of the process's output, and what the history shows in
/// its place: a line break, a carriage return and one space of indentation.
pub open spec fn history_text(shown: Seq<char>) -> Seq<char> {
    replace_all(shown, seq!['\n'], seq!['\n', '\r', ' '])
}

/// The block that a history keeps for an outcome: the text that it shows,
/// with every line break followed by a carriage return and a space, and the
/// number of line breaks in it.
pub fn history_record(outcome: &Outcome) -> (record: (usize, String))
    ensures
        record.1@ == history_text(outcome.shown_text()),
        record.0 == occurrences(record.1@, '\n'),
{
    let shown = outcome.shown_chars();
    let mut from: Vec<char> = Vec::new();
    from.push('\n');
    let mut to: Vec<char> = Vec::new();
    to.push('\n');
    to.push('\r');
    to.push(' ');
    assert(from@ =~= seq!['\n']);
    assert(to@ =~= seq!['\n', '\r', ' ']);
    let text = replace(&shown, &from, &to);
    let lines = count_char(&text, '\n');
    (lines, string_of(&text))
}

} // verus!
