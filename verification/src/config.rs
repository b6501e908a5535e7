//! The description of a menu, as it is loaded.

use crate::style::{Style, Styled};
use vstd::prelude::*;
use vstd::string::*;

verus! {

/// A text with or without a style of its own.
pub enum Text {
    Unstyled(String),
    Styled(Styled),
}

impl From<Text> for Styled {
    /// The styled text itself, or the unstyled text in the plain style.
    fn from(value: Text) -> (s: Styled) {
        match value {
            Text::Styled(s) => s,
            Text::Unstyled(s) => Styled { text: s, style: Style::default() },
        }
    }
}

impl vstd::std_specs::convert::FromSpecImpl<Text> for Styled {
    open spec fn obeys_from_spec() -> bool {
        true
    }

    open spec fn from_spec(value: Text) -> Styled {
        match value {
            Text::Styled(s) => s,
            Text::Unstyled(s) => Styled { text: s, style: Style::plain() },
        }
    }
}

/// What confirming a selection or a prompt does.
pub enum Action {
    /// A command line handed to the window manager's launcher.
    Exec(String),
    /// A program run directly. With `hold_output` it takes over the terminal,
    /// and the window is first given the size `output_size`, if any.
    Command { program: String, args: Vec<String>, hold_output: bool, output_size: Option<(usize, usize)> },
    /// The name of another menu that replaces this one.
    OpenMenu(String),
}

/// One selectable row of a list.
pub struct Entry {
    pub name: String,
    pub icon: Styled,
    pub keywords: Option<String>,
    pub action: Action,
}

/// The two kinds of menu.
pub enum MenuConfig {
    /// A filterable list of entries; the selected row is shown in `selected_style`.
    List { entries: Vec<Entry>, selected_style: Style },
    /// A one-line prompt whose text is handed to `action`. With `history`
    /// the results of the action are shown below the prompt.
    Prompt { action: Action, history: bool },
}

/// A menu with the fields that every kind shares.
pub struct Config {
    /// Shown in place of the text while nothing has been typed.
    pub prompt: Text,
    pub icon: Text,
    /// The size that the window is given before the menu is drawn.
    pub window_size: Option<(usize, usize)>,
    pub menu: MenuConfig,
}

/// The directory of the menu files, below the user's home directory.
pub open spec fn config_dir_text() -> Seq<char> {
    ".config/toolbelt/"@
}

/// The directory of the menu files, below the user's home directory.
pub fn config_dir() -> (dir: String)
    ensures
        dir@ == config_dir_text(),
{
    String::from_str(".config/toolbelt/")
}

/// The name of the file that holds the menu `name`: the name and `.json`.
pub fn menu_file_name(name: &str) -> (file: String)
    ensures
        file@ == name@ + ".json"@,
{
    let mut file = String::from_str(name);
    file.append(".json");
    file
}

} // verus!
