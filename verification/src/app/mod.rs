//! The three screens and what they tell the driver.

use crate::config::{Config, MenuConfig};
use crate::dispatch::{
    resize_directive, resize_invocation, Invocation, Outcome, Request, RequestView,
};
use crate::key::Key;
use crate::style::{Style, Styled};
use vstd::prelude::*;
use vstd::std_specs::convert::FromSpec;

pub mod list;
pub mod message;
pub mod prompt;

verus! {

/// What a screen tells the driver after a key or an outcome.
pub enum Instruction {
    /// Nothing changes but what the screen shows.
    Nothing,
    /// The interaction is over.
    Quit,
    /// Another screen takes this one's place.
    SetApp(App),
    /// The terminal is handed over to this process.
    HoldOutput(Invocation),
    /// This process is run to its end and its outcome handed back to the screen.
    Run(Invocation),
    /// The menu of this name is loaded and takes this screen's place.
    OpenMenu(String),
}

/// The screen that is shown.
pub enum App {
    List(list::ListApp),
    Prompt(prompt::PromptApp),
    Message(message::MessageApp),
}

impl Instruction {
    /// The instruction that passes a request on to the driver.
    pub open spec fn carries(&self, request: RequestView) -> bool {
        match request {
            RequestView::Run(inv) => *self matches Instruction::Run(i) && i@ == inv,
            RequestView::HoldOutput(inv) => *self matches Instruction::HoldOutput(i)
                && i@ == inv,
            RequestView::OpenMenu(name) => *self matches Instruction::OpenMenu(n)
                && n@ == name,
        }
    }

    /// The instruction shows a message with this text in this style.
    pub open spec fn shows(&self, text: Seq<char>, style: Style) -> bool {
        *self matches Instruction::SetApp(App::Message(m)) && m.0.text@ == text && m.0.style
            == style
    }

    /// Passes a request on to the driver.
    pub fn from_request(request: Request) -> (r: Instruction)
        ensures
            r.carries(request@),
    {
        match request {
            Request::Run(inv) => Instruction::Run(inv),
            Request::HoldOutput(inv) => Instruction::HoldOutput(inv),
            Request::OpenMenu(name) => Instruction::OpenMenu(name),
        }
    }
}

impl App {
    /// The screen's own state is well formed.
    pub open spec fn wf(&self) -> bool {
        match *self {
            App::List(app) => app.wf(),
            App::Prompt(app) => app.wf(),
            App::Message(_) => true,
        }
    }

    /// Whether the screen's own state is well formed.
    pub fn is_well_formed(&self) -> (ok: bool)
        ensures
            ok == self.wf(),
    {
        match self {
            App::List(app) => app.is_well_formed(),
            App::Prompt(app) => app.is_well_formed(),
            App::Message(_) => true,
        }
    }

    /// What the screen shows.
    pub open spec fn screen_text(&self) -> Seq<char> {
        match *self {
            App::List(app) => app.screen_text(),
            App::Prompt(app) => app.screen_text(),
            App::Message(app) => app.screen_text(),
        }
    }

    /// What one key does to the screen that is shown.
    pub open spec fn keyed(before: App, key: Key, after: App, r: Instruction) -> bool {
        match before {
            App::List(b) => after matches App::List(a) && list::ListApp::keyed(b, key, a, r),
            App::Prompt(b) => after matches App::Prompt(a) && prompt::PromptApp::keyed(b, key, a, r),
            App::Message(_) => after == before && r is Nothing,
        }
    }

    /// What a new size does to the screen that is shown.
    pub open spec fn resized(before: App, width: usize, height: usize, after: App) -> bool {
        match before {
            App::List(b) => after matches App::List(a) && list::ListApp::resized(b, width, height, a),
            App::Prompt(b) => after matches App::Prompt(a) && prompt::PromptApp::resized(
                b,
                width,
                height,
                a,
            ),
            App::Message(_) => after == before,
        }
    }

    /// What the outcome of a run means to the screen that is shown.
    pub open spec fn answered(before: App, outcome: &Outcome, after: App, r: Instruction) -> bool {
        match before {
            App::List(b) => after == before && list::ListApp::answered(b, outcome, r),
            App::Prompt(b) => after matches App::Prompt(a) && prompt::PromptApp::answered(
                b,
                outcome,
                a,
                r,
            ),
            App::Message(_) => after == before && r is Nothing,
        }
    }

    /// Paints the screen from the current state: everything that the
    /// terminal is sent, ending with the cursor where the text is entered.
    pub fn draw(&self) -> (screen: String)
        requires
            self.wf(),
        ensures
            screen@ == self.screen_text(),
    {
        match self {
            App::List(app) => app.draw(),
            App::Prompt(app) => app.draw(),
            App::Message(app) => app.draw(),
        }
    }

    /// Hands one key to the screen that is shown.
    pub fn handle_input(&mut self, key: Key) -> (r: Instruction)
        requires
            old(self).wf(),
        ensures
            final(self).wf(),
            App::keyed(*old(self), key, *final(self), r),
    {
        match self {
            App::List(app) => app.handle_input(key),
            App::Prompt(app) => app.handle_input(key),
            App::Message(app) => app.handle_input(key),
        }
    }

    /// Hands the new size of the screen to the screen that is shown.
    pub fn handle_resize(&mut self, width: usize, height: usize)
        requires
            old(self).wf(),
        ensures
            final(self).wf(),
            App::resized(*old(self), width, height, *final(self)),
    {
        match self {
            App::List(app) => app.handle_resize(width, height),
            App::Prompt(app) => app.handle_resize(width, height),
            App::Message(app) => app.handle_resize(width, height),
        }
    }

    /// Hands the outcome of a run to the screen that asked for it. A message
    /// asks for none and stays as it is.
    pub fn handle_outcome(&mut self, outcome: &Outcome) -> (r: Instruction)
        requires
            old(self).wf(),
        ensures
            final(self).wf(),
            App::answered(*old(self), outcome, *final(self), r),
    {
        match self {
            App::List(app) => app.handle_outcome(outcome),
            App::Prompt(app) => app.handle_outcome(outcome),
            App::Message(_) => Instruction::Nothing,
        }
    }
}

/// The first screen of a menu on a terminal of `width` columns and `height`
/// rows: a list with an empty filter and its first row selected, or an empty
/// prompt.
pub fn from_config(config: Config, width: usize, height: usize) -> (app: App)
    ensures
        app.wf(),
        match config.menu {
            MenuConfig::List { entries, selected_style } => app matches App::List(list) && {
                &&& list.entries == entries
                &&& list.selected_style == selected_style
                &&& list.placeholder == Styled::from_spec(config.prompt)
                &&& list.icon == Styled::from_spec(config.icon)
                &&& list.filter@ == Seq::<char>::empty()
                &&& list.selected == 0
                &&& list.width == width
                &&& list.height == height
            },
            MenuConfig::Prompt { action, history } => app matches App::Prompt(prompt) && {
                &&& prompt.action == action
                &&& prompt.placeholder == Styled::from_spec(config.prompt)
                &&& prompt.icon == Styled::from_spec(config.icon)
                &&& prompt.input@ == Seq::<char>::empty()
                &&& prompt.cursor_index == 0
                &&& prompt.history is Some == history
                &&& prompt.history matches Some(blocks) ==> blocks@.len() == 0
                &&& prompt.width == width
                &&& prompt.height == height
            },
        },
{
    let placeholder = Styled::from(config.prompt);
    let icon = Styled::from(config.icon);
    match config.menu {
        MenuConfig::List { entries, selected_style } => App::List(
            list::ListApp::new(entries, placeholder, icon, selected_style, width, height),
        ),
        MenuConfig::Prompt { action, history } => App::Prompt(
            prompt::PromptApp::new(action, placeholder, icon, history, width, height),
        ),
    }
}

/// The invocation that gives the window the size that the menu asks for,
/// if it asks for one.
pub fn startup_directive(config: &Config) -> (directive: Option<Invocation>)
    ensures
        match config.window_size {
            Some((width, height)) => directive matches Some(inv) && inv@
                == resize_invocation(width, height),
            None => directive is None,
        },
{
    match config.window_size {
        Some((width, height)) => Some(resize_directive(width, height)),
        None => None,
    }
}

} // verus!
