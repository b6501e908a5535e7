use toolbelt::app::list::ListApp;
use toolbelt::app::message::MessageApp;
use toolbelt::app::prompt::{PromptApp, HISTORY_LIMIT};
use toolbelt::app::{from_config, startup_directive, App, Instruction};
use toolbelt::config::{Action, Config, Entry, MenuConfig, Text};
use toolbelt::dispatch::{
    alert, dispatch, history_record, resize_directive, Outcome, Request, Stdio,
};
use toolbelt::driver::{
    after_handoff, dismisses, exit_report, handoff, redraws, step, Act, Event, RESIZE_PAUSE,
};
use toolbelt::key::Key;
use toolbelt::style::{Color, Style, Styled};
use toolbelt::term::{centre, position};

fn entry(name: &str, keywords: Option<&str>, action: Action) -> Entry {
    Entry {
        name: name.to_string(),
        icon: Styled::from(String::new()),
        keywords: keywords.map(|s| s.to_string()),
        action,
    }
}

fn exec(line: &str) -> Action {
    Action::Exec(line.to_string())
}

fn command(program: &str, args: &[&str], hold: bool, size: Option<(usize, usize)>) -> Action {
    Action::Command {
        program: program.to_string(),
        args: args.iter().map(|s| s.to_string()).collect(),
        hold_output: hold,
        output_size: size,
    }
}

fn list_of(entries: Vec<Entry>, width: usize, height: usize) -> ListApp {
    ListApp::new(
        entries,
        Styled::from("Search".to_string()),
        Styled::from(">".to_string()),
        Style::default(),
        width,
        height,
    )
}

fn fruit() -> Vec<Entry> {
    vec![
        entry("apple", None, exec("a")),
        entry("banana", Some("yellow fruit"), exec("b")),
        entry("cherry", Some("red"), exec("c")),
        entry("date", None, exec("d")),
    ]
}

fn type_text(app: &mut ListApp, text: &str) {
    for ch in text.chars() {
        assert!(matches!(app.handle_input(Key::Char(ch)), Instruction::Nothing));
    }
}

fn prompt_with(action: Action, history: bool) -> PromptApp {
    PromptApp::new(
        action,
        Styled::from("Type".to_string()),
        Styled::from("$".to_string()),
        history,
        40,
        10,
    )
}

fn type_into(app: &mut PromptApp, text: &str) {
    for ch in text.chars() {
        assert!(matches!(app.handle_input(Key::Char(ch)), Instruction::Nothing));
    }
}

fn text_of(app: &PromptApp) -> String {
    app.input_text()
}

#[test]
fn empty_filter_lists_the_first_entries() {
    let app = list_of(fruit(), 80, 24);
    assert_eq!(app.list, vec![0, 1, 2, 3]);
    assert_eq!(app.selected, 0);
    let app = list_of(fruit(), 80, 4);
    assert_eq!(app.list, vec![0, 1]);
    let app = list_of(fruit(), 80, 2);
    assert_eq!(app.list, Vec::<usize>::new());
    let app = list_of(fruit(), 80, 0);
    assert_eq!(app.list, Vec::<usize>::new());
}

#[test]
fn filter_matches_name_or_keywords_in_order() {
    let mut app = list_of(fruit(), 80, 24);
    type_text(&mut app, "e");
    assert_eq!(app.list, vec![0, 1, 2, 3]);
    type_text(&mut app, "d");
    assert_eq!(app.list, vec![2]);
    let mut app = list_of(fruit(), 80, 24);
    type_text(&mut app, "an");
    assert_eq!(app.list, vec![1]);
    type_text(&mut app, "x");
    assert_eq!(app.list, Vec::<usize>::new());
    assert_eq!(app.selected, 0);
}

#[test]
fn filter_is_truncated_to_the_screen() {
    let mut app = list_of(fruit(), 80, 5);
    type_text(&mut app, "e");
    assert_eq!(app.list, vec![0, 1, 2]);
    let mut app = list_of(fruit(), 80, 3);
    type_text(&mut app, "r");
    assert_eq!(app.list, vec![1]);
}

#[test]
fn filter_is_case_sensitive() {
    let mut app = list_of(vec![entry("Firefox", None, exec("firefox"))], 80, 24);
    type_text(&mut app, "fire");
    assert_eq!(app.list, Vec::<usize>::new());
    assert!(matches!(app.handle_input(Key::Char('\n')), Instruction::Nothing));
}

#[test]
fn backspace_shortens_the_filter() {
    let mut app = list_of(fruit(), 80, 24);
    type_text(&mut app, "anx");
    assert_eq!(app.list, Vec::<usize>::new());
    assert!(matches!(app.handle_input(Key::Backspace), Instruction::Nothing));
    assert_eq!(app.filter, vec!['a', 'n']);
    assert_eq!(app.filter_text(), "an");
    assert_eq!(app.list, vec![1]);
    app.handle_input(Key::Backspace);
    app.handle_input(Key::Backspace);
    app.handle_input(Key::Backspace);
    assert_eq!(app.filter, Vec::<char>::new());
    assert_eq!(app.list, vec![0, 1, 2, 3]);
}

#[test]
fn selection_wraps_round() {
    let mut app = list_of(fruit(), 80, 24);
    assert!(matches!(app.handle_input(Key::Up), Instruction::Nothing));
    assert_eq!(app.selected, 3);
    assert!(matches!(app.handle_input(Key::Down), Instruction::Nothing));
    assert_eq!(app.selected, 0);
    app.handle_input(Key::Char('\t'));
    assert_eq!(app.selected, 1);
    app.handle_input(Key::Down);
    assert_eq!(app.selected, 2);
    app.handle_input(Key::BackTab);
    assert_eq!(app.selected, 1);
    app.handle_input(Key::Up);
    app.handle_input(Key::BackTab);
    assert_eq!(app.selected, 3);
}

#[test]
fn selection_stays_in_the_list() {
    let mut app = list_of(fruit(), 80, 5);
    for i in 0..20 {
        let key = if i % 3 == 0 { Key::Up } else { Key::Down };
        app.handle_input(key);
        assert!(app.selected < app.list.len());
    }
    let mut app = list_of(Vec::new(), 80, 5);
    app.handle_input(Key::Up);
    assert_eq!(app.selected, 0);
    app.handle_input(Key::Down);
    assert_eq!(app.selected, 0);
}

#[test]
fn changing_the_filter_selects_the_first_row() {
    let mut app = list_of(
        vec![entry("apple", None, exec("a")), entry("banana", None, exec("b"))],
        80,
        24,
    );
    type_text(&mut app, "a");
    assert_eq!(app.list, vec![0, 1]);
    app.handle_input(Key::Down);
    assert_eq!(app.selected, 1);
    type_text(&mut app, "n");
    assert_eq!(app.selected, 0);
    assert_eq!(app.list, vec![1]);
    app.handle_input(Key::Backspace);
    app.handle_input(Key::Down);
    assert_eq!(app.selected, 1);
    app.handle_input(Key::Backspace);
    assert_eq!(app.selected, 0);
}

#[test]
fn other_keys_do_nothing_to_a_list() {
    let mut app = list_of(fruit(), 80, 24);
    app.handle_input(Key::Down);
    for key in [Key::Left, Key::Right, Key::Other, Key::Esc] {
        assert!(matches!(app.handle_input(key), Instruction::Nothing));
        assert_eq!(app.selected, 1);
        assert_eq!(app.filter, Vec::<char>::new());
        assert_eq!(app.list, vec![0, 1, 2, 3]);
    }
}

#[test]
fn round_trip_from_configuration_to_launch() {
    let config = Config {
        prompt: Text::Unstyled("Run".to_string()),
        icon: Text::Unstyled(String::new()),
        window_size: None,
        menu: MenuConfig::List {
            entries: vec![entry("Firefox", None, exec("firefox"))],
            selected_style: Style::default(),
        },
    };
    assert!(startup_directive(&config).is_none());
    let mut app = from_config(config, 80, 24);
    for ch in "Fire".chars() {
        assert!(matches!(step(&mut app, Event::Key(Key::Char(ch)), false), Instruction::Nothing));
    }
    match &app {
        App::List(list) => {
            assert_eq!(list.list, vec![0]);
            assert_eq!(list.entries[list.list[0]].name, "Firefox");
        }
        _ => panic!("a list was configured"),
    }
    match step(&mut app, Event::Key(Key::Char('\n')), false) {
        Instruction::Run(inv) => {
            assert_eq!(inv.program, "hyprctl");
            assert_eq!(inv.args, vec!["dispatch", "exec", "firefox"]);
            assert_eq!(inv.stdio, Stdio::Captured);
            assert_eq!(inv.resize, None);
        }
        _ => panic!("the launcher is run"),
    }
    let done = Outcome::Completed { success: true, stdout: String::new(), stderr: String::new() };
    assert!(matches!(app.handle_outcome(&done), Instruction::Quit));
}

#[test]
fn holding_command_is_handed_the_terminal() {
    let mut app = list_of(
        vec![entry("top", None, command("htop", &["-d", "10"], true, Some((800, 600))))],
        80,
        24,
    );
    match app.handle_input(Key::Char('\n')) {
        Instruction::HoldOutput(inv) => {
            assert_eq!(inv.program, "htop");
            assert_eq!(inv.args, vec!["-d", "10"]);
            assert_eq!(inv.stdio, Stdio::Terminal);
            assert_eq!(inv.resize, Some((800, 600)));
        }
        _ => panic!("the terminal is handed over"),
    }
    let mut prompt = prompt_with(command("man", &["{input}"], true, None), true);
    type_into(&mut prompt, "ls");
    match prompt.handle_input(Key::Char('\n')) {
        Instruction::HoldOutput(inv) => {
            assert_eq!(inv.program, "man");
            assert_eq!(inv.args, vec!["ls"]);
            assert_eq!(inv.stdio, Stdio::Terminal);
            assert_eq!(inv.resize, None);
        }
        _ => panic!("the terminal is handed over"),
    }
}

#[test]
fn history_keeps_a_failed_start() {
    let mut app = prompt_with(command("calc", &["{input}"], false, None), true);
    type_into(&mut app, "1+1");
    match app.handle_input(Key::Char('\n')) {
        Instruction::Run(inv) => {
            assert_eq!(inv.program, "calc");
            assert_eq!(inv.args, vec!["1+1"]);
            assert_eq!(inv.stdio, Stdio::Captured);
        }
        _ => panic!("the command is run"),
    }
    let failed = Outcome::Failed("No such file or directory (os error 2)".to_string());
    assert!(matches!(app.handle_outcome(&failed), Instruction::Nothing));
    assert_eq!(
        app.history,
        Some(vec![(0, "No such file or directory (os error 2)".to_string())])
    );
    assert_eq!(text_of(&app), "");
    assert_eq!(app.cursor_index, 0);
}

#[test]
fn history_keeps_output_with_its_line_count() {
    let mut app = prompt_with(command("calc", &[], false, None), true);
    let first = Outcome::Completed {
        success: true,
        stdout: "one\ntwo\n".to_string(),
        stderr: "ignored".to_string(),
    };
    assert!(matches!(app.handle_outcome(&first), Instruction::Nothing));
    let second = Outcome::Completed {
        success: false,
        stdout: "ignored".to_string(),
        stderr: "bad\n".to_string(),
    };
    assert!(matches!(app.handle_outcome(&second), Instruction::Nothing));
    assert_eq!(
        app.history,
        Some(vec![(2, "one\n\r two\n\r ".to_string()), (1, "bad\n\r ".to_string())])
    );
}

#[test]
fn history_is_bounded() {
    let mut app = prompt_with(command("calc", &[], false, None), true);
    for i in 0..HISTORY_LIMIT + 3 {
        let out = Outcome::Completed {
            success: true,
            stdout: format!("{}", i),
            stderr: String::new(),
        };
        app.handle_outcome(&out);
    }
    let blocks = app.history.unwrap();
    assert_eq!(blocks.len(), HISTORY_LIMIT);
    assert_eq!(blocks[0], (0, "3".to_string()));
    assert_eq!(blocks[HISTORY_LIMIT - 1], (0, format!("{}", HISTORY_LIMIT + 2)));
}

#[test]
fn prompt_without_history_reports_a_failed_command() {
    let mut app = prompt_with(command("calc", &[], false, None), false);
    type_into(&mut app, "x");
    let failed = Outcome::Failed("nope".to_string());
    match app.handle_outcome(&failed) {
        Instruction::SetApp(App::Message(msg)) => {
            assert_eq!(msg.0.text, "nope");
            assert_eq!(msg.0.style.fg, Color::Red);
        }
        _ => panic!("a message is shown"),
    }
    assert_eq!(text_of(&app), "x");
    assert_eq!(app.cursor_index, 1);
    assert_eq!(app.history, None);
    let bad = Outcome::Completed {
        success: false,
        stdout: "out".to_string(),
        stderr: "err".to_string(),
    };
    match app.handle_outcome(&bad) {
        Instruction::SetApp(App::Message(msg)) => assert_eq!(msg.0.text, "err"),
        _ => panic!("a message is shown"),
    }
    let good = Outcome::Completed { success: true, stdout: "4".to_string(), stderr: String::new() };
    assert!(matches!(app.handle_outcome(&good), Instruction::Quit));
    assert_eq!(text_of(&app), "x");
}

#[test]
fn failed_launcher_becomes_an_alert() {
    let mut app = prompt_with(exec("firefox {input}"), true);
    type_into(&mut app, "rust-lang.org");
    match app.handle_input(Key::Char('\n')) {
        Instruction::Run(inv) => {
            assert_eq!(inv.program, "hyprctl");
            assert_eq!(inv.args, vec!["dispatch", "exec", "firefox rust-lang.org"]);
        }
        _ => panic!("the launcher is run"),
    }
    match app.handle_outcome(&Outcome::Failed("not found".to_string())) {
        Instruction::SetApp(App::Message(msg)) => {
            assert_eq!(msg.0.text, "not found");
            assert_eq!(msg.0.style.fg, Color::Red);
            assert_eq!(msg.0.style.bg, Color::Default);
            assert!(!msg.0.style.bold);
        }
        _ => panic!("a message is shown"),
    }
    let bad = Outcome::Completed {
        success: false,
        stdout: "out".to_string(),
        stderr: "err".to_string(),
    };
    let list = list_of(vec![entry("x", None, exec("x"))], 80, 24);
    match list.handle_outcome(&bad) {
        Instruction::SetApp(App::Message(msg)) => assert_eq!(msg.0.text, "err"),
        _ => panic!("a message is shown"),
    }
    let good = Outcome::Completed { success: true, stdout: String::new(), stderr: String::new() };
    assert!(matches!(list.handle_outcome(&good), Instruction::Quit));
    assert!(matches!(app.handle_outcome(&good), Instruction::Quit));
}

#[test]
fn list_reports_a_failed_command() {
    let mut list = list_of(vec![entry("x", None, command("x", &["a"], false, None))], 80, 24);
    match list.handle_input(Key::Char('\n')) {
        Instruction::Run(inv) => {
            assert_eq!(inv.program, "x");
            assert_eq!(inv.args, vec!["a"]);
            assert_eq!(inv.stdio, Stdio::Captured);
        }
        _ => panic!("the command is run"),
    }
    match list.handle_outcome(&Outcome::Failed("no such program".to_string())) {
        Instruction::SetApp(App::Message(msg)) => {
            assert_eq!(msg.0.text, "no such program");
            assert_eq!(msg.0.style.fg, Color::Red);
            assert_eq!(msg.0.style.bg, Color::Default);
        }
        _ => panic!("a message is shown"),
    }
    let bad = Outcome::Completed {
        success: false,
        stdout: "out".to_string(),
        stderr: "err".to_string(),
    };
    match list.handle_outcome(&bad) {
        Instruction::SetApp(App::Message(msg)) => assert_eq!(msg.0.text, "err"),
        _ => panic!("a message is shown"),
    }
    let good = Outcome::Completed { success: true, stdout: String::new(), stderr: String::new() };
    assert!(matches!(list.handle_outcome(&good), Instruction::Quit));
}

#[test]
fn outcome_without_a_run_changes_nothing() {
    let empty = list_of(Vec::new(), 80, 24);
    assert!(matches!(
        empty.handle_outcome(&Outcome::Failed("no".to_string())),
        Instruction::Nothing
    ));
    let holding = list_of(vec![entry("x", None, command("x", &[], true, None))], 80, 24);
    assert!(matches!(
        holding.handle_outcome(&Outcome::Failed("no".to_string())),
        Instruction::Nothing
    ));
    let menu = list_of(vec![entry("m", None, Action::OpenMenu("m".to_string()))], 80, 24);
    assert!(matches!(
        menu.handle_outcome(&Outcome::Failed("no".to_string())),
        Instruction::Nothing
    ));
}

#[test]
fn open_menu_names_the_menu() {
    let mut list = list_of(vec![entry("more", None, Action::OpenMenu("tools".to_string()))], 80, 24);
    match list.handle_input(Key::Char('\n')) {
        Instruction::OpenMenu(name) => assert_eq!(name, "tools"),
        _ => panic!("a menu is opened"),
    }
    let mut prompt = prompt_with(Action::OpenMenu("menu-{input}".to_string()), false);
    type_into(&mut prompt, "net");
    match prompt.handle_input(Key::Char('\n')) {
        Instruction::OpenMenu(name) => assert_eq!(name, "menu-net"),
        _ => panic!("a menu is opened"),
    }
}

#[test]
fn dispatch_makes_the_three_requests() {
    let input: Vec<char> = "X".chars().collect();
    match dispatch(&exec("run {input} now"), &input) {
        Request::Run(inv) => assert_eq!(inv.args, vec!["dispatch", "exec", "run X now"]),
        _ => panic!("a run"),
    }
    match dispatch(&command("p{input}", &["{input}", "b"], false, Some((1, 2))), &input) {
        Request::Run(inv) => {
            assert_eq!(inv.program, "p{input}");
            assert_eq!(inv.args, vec!["X", "b"]);
            assert_eq!(inv.stdio, Stdio::Captured);
            assert_eq!(inv.resize, None);
        }
        _ => panic!("a run"),
    }
    match dispatch(&Action::OpenMenu("{input}".to_string()), &input) {
        Request::OpenMenu(name) => assert_eq!(name, "X"),
        _ => panic!("a menu"),
    }
}

#[test]
fn prompt_edits_at_the_cursor() {
    let mut app = prompt_with(exec("x"), false);
    type_into(&mut app, "ac");
    assert_eq!(app.cursor_index, 2);
    app.handle_input(Key::Left);
    assert_eq!(app.cursor_index, 1);
    type_into(&mut app, "b");
    assert_eq!(text_of(&app), "abc");
    assert_eq!(app.cursor_index, 2);
    app.handle_input(Key::Right);
    assert_eq!(app.cursor_index, 3);
    app.handle_input(Key::Right);
    assert_eq!(app.cursor_index, 3);
    app.handle_input(Key::Left);
    app.handle_input(Key::Left);
    app.handle_input(Key::Left);
    assert_eq!(app.cursor_index, 0);
    app.handle_input(Key::Left);
    assert_eq!(app.cursor_index, 0);
    assert!(matches!(app.handle_input(Key::Backspace), Instruction::Nothing));
    assert_eq!(text_of(&app), "abc");
    app.handle_input(Key::Right);
    app.handle_input(Key::Right);
    app.handle_input(Key::Backspace);
    assert_eq!(text_of(&app), "ac");
    assert_eq!(app.cursor_index, 1);
    app.handle_input(Key::Char('\t'));
    assert_eq!(text_of(&app), "a\tc");
    for key in [Key::Up, Key::Down, Key::BackTab, Key::Other] {
        assert!(matches!(app.handle_input(key), Instruction::Nothing));
        assert_eq!(text_of(&app), "a\tc");
        assert_eq!(app.cursor_index, 2);
    }
}

#[test]
fn escape_quits_every_screen() {
    let mut app = App::List(list_of(fruit(), 80, 24));
    assert!(matches!(step(&mut app, Event::Key(Key::Esc), false), Instruction::Quit));
    let mut app = App::Prompt(prompt_with(exec("x"), false));
    assert!(matches!(step(&mut app, Event::Key(Key::Esc), false), Instruction::Quit));
    let mut app = App::Message(MessageApp(Styled::from("m".to_string())));
    assert!(matches!(step(&mut app, Event::Key(Key::Esc), true), Instruction::Quit));
}

#[test]
fn message_is_dismissed_by_policy_only() {
    let mut app = App::Message(MessageApp(Styled::from("m".to_string())));
    assert!(matches!(step(&mut app, Event::Key(Key::Char('x')), false), Instruction::Nothing));
    assert!(matches!(step(&mut app, Event::Key(Key::Char('x')), true), Instruction::Quit));
    assert!(matches!(step(&mut app, Event::Resize(10, 10), true), Instruction::Nothing));
    let mut list = App::List(list_of(fruit(), 80, 24));
    assert!(matches!(step(&mut list, Event::Key(Key::Char('x')), true), Instruction::Nothing));
    let mut msg = MessageApp(Styled::from("m".to_string()));
    assert!(matches!(msg.handle_input(Key::Char('\n')), Instruction::Nothing));
    msg.handle_resize(1, 1);
    assert_eq!(msg.0.text, "m");
}

#[test]
fn resize_computes_the_list_anew() {
    let mut app = list_of(fruit(), 80, 24);
    app.handle_input(Key::Up);
    assert_eq!(app.selected, 3);
    app.handle_resize(100, 4);
    assert_eq!((app.width, app.height), (100, 4));
    assert_eq!(app.list, vec![0, 1]);
    assert_eq!(app.selected, 1);
    app.handle_resize(100, 4);
    assert_eq!(app.list, vec![0, 1]);
    assert_eq!(app.selected, 1);
    app.handle_resize(100, 1);
    assert_eq!(app.list, Vec::<usize>::new());
    assert_eq!(app.selected, 0);
    app.handle_resize(100, 24);
    assert_eq!(app.list, vec![0, 1, 2, 3]);
    assert_eq!(app.selected, 0);
    let mut app = App::Prompt(prompt_with(exec("x"), true));
    assert!(matches!(step(&mut app, Event::Resize(7, 9), false), Instruction::Nothing));
    match app {
        App::Prompt(p) => assert_eq!((p.width, p.height), (7, 9)),
        _ => panic!("still a prompt"),
    }
}

#[test]
fn list_screen_is_drawn_in_full() {
    let mut style = Style::default();
    style.bold = true;
    let mut app = ListApp::new(
        vec![entry("apple", None, exec("a")), entry("banana", None, exec("b"))],
        Styled::from("Search".to_string()),
        Styled::from(">".to_string()),
        style,
        20,
        5,
    );
    let rule = "\u{2500}".repeat(20);
    let expected = format!(
        "\x1b[2J\x1b[1;1H      \x1b[m>\x1b[0m \x1b[mSearch\x1b[0m\x1b[2;1H\x1b[38;5;235m{}\x1b[0m\
         \x1b[3;1H  \x1b[1m\x1b[m\x1b[0m apple\x1b[m\x1b[4;1H  \x1b[m\x1b[0m banana\x1b[1;9H",
        rule
    );
    assert_eq!(app.draw(), expected);
    app.handle_input(Key::Char('n'));
    let expected = format!(
        "\x1b[2J\x1b[1;1H      \x1b[m>\x1b[0m n\x1b[2;1H\x1b[38;5;235m{}\x1b[0m\
         \x1b[3;1H  \x1b[1m\x1b[m\x1b[0m banana\x1b[m\x1b[1;10H",
        rule
    );
    assert_eq!(app.draw(), expected);
    assert_eq!(App::List(app).draw(), expected);
}

#[test]
fn prompt_screen_is_drawn_in_full() {
    let mut app = PromptApp::new(
        command("x", &[], false, None),
        Styled::from("Type".to_string()),
        Styled::from("$".to_string()),
        false,
        10,
        4,
    );
    assert_eq!(app.draw(), "\x1b[2J\x1b[1;1H\x1b[m$\x1b[0m \x1b[mType\x1b[0m\x1b[1;3H");
    type_into(&mut app, "ab");
    app.handle_input(Key::Left);
    assert_eq!(app.draw(), "\x1b[2J\x1b[1;1H\x1b[m$\x1b[0m ab\x1b[1;4H");

    let mut app = PromptApp::new(
        command("x", &[], false, None),
        Styled::from("Type".to_string()),
        Styled::from("$".to_string()),
        true,
        10,
        4,
    );
    let ok = |text: &str| Outcome::Completed {
        success: true,
        stdout: text.to_string(),
        stderr: String::new(),
    };
    app.handle_outcome(&ok("old"));
    app.handle_outcome(&ok("a\nb\n"));
    app.handle_outcome(&ok("new"));
    type_into(&mut app, "q");
    let rule = "\u{2500}".repeat(10);
    let expected = format!(
        "\x1b[2J\x1b[1;1H  \x1b[m$\x1b[0m q\x1b[2;1H\x1b[38;5;235m{}\x1b[0m\
         \x1b[3;1H new\x1b[3;1H a\n\r b\n\r \x1b[1;6H",
        rule
    );
    assert_eq!(app.draw(), expected);
    app.handle_resize(10, 9);
    let expected = format!(
        "\x1b[2J\x1b[1;1H  \x1b[m$\x1b[0m q\x1b[2;1H\x1b[38;5;235m{}\x1b[0m\
         \x1b[3;1H new\x1b[3;1H a\n\r b\n\r \x1b[5;1H old\x1b[1;6H",
        rule
    );
    assert_eq!(app.draw(), expected);
}

#[test]
fn prompt_cursor_stands_behind_the_icon() {
    let mut app = PromptApp::new(
        exec("x"),
        Styled::from("Type".to_string()),
        Styled::from("[>]".to_string()),
        false,
        10,
        4,
    );
    assert_eq!(app.draw(), "\x1b[2J\x1b[1;1H\x1b[m[>]\x1b[0m \x1b[mType\x1b[0m\x1b[1;5H");
    type_into(&mut app, "abc");
    assert_eq!(app.draw(), "\x1b[2J\x1b[1;1H\x1b[m[>]\x1b[0m abc\x1b[1;8H");
    app.icon = Styled::from(String::new());
    assert_eq!(app.draw(), "\x1b[2J\x1b[1;1H\x1b[m\x1b[0m abc\x1b[1;5H");
}

#[test]
fn message_screen_is_drawn_in_full() {
    let msg = MessageApp(alert(&Outcome::Failed("boom".to_string())));
    assert_eq!(
        msg.draw(),
        "\x1b[2J\x1b[1;1H\x1b[31mboom\x1b[0m\n\nPress any key to exit."
    );
}

#[test]
fn alert_of_a_success_is_empty() {
    let good = Outcome::Completed { success: true, stdout: "o".to_string(), stderr: "e".to_string() };
    assert!(!good.is_failure());
    assert_eq!(alert(&good).text, "");
    assert_eq!(good.shown_chars(), vec!['o']);
    let failed = Outcome::Failed("f".to_string());
    assert!(failed.is_failure());
    assert_eq!(failed.shown_chars(), vec!['f']);
}

#[test]
fn history_record_counts_line_breaks() {
    let out = Outcome::Completed {
        success: true,
        stdout: "a\nb\n".to_string(),
        stderr: String::new(),
    };
    assert_eq!(history_record(&out), (2, "a\n\r b\n\r ".to_string()));
    assert_eq!(history_record(&Outcome::Failed(String::new())), (0, String::new()));
}

#[test]
fn resize_directive_names_the_size() {
    let inv = resize_directive(800, 600);
    assert_eq!(inv.program, "hyprctl");
    assert_eq!(
        inv.args,
        vec!["--batch", "dispatch resizeactive exact 800 600; dispatch centerwindow"]
    );
    assert_eq!(inv.stdio, Stdio::Captured);
    let inv = resize_directive(0, 1234567890);
    assert_eq!(inv.args[1], "dispatch resizeactive exact 0 1234567890; dispatch centerwindow");
    let config = Config {
        prompt: Text::Unstyled(String::new()),
        icon: Text::Unstyled(String::new()),
        window_size: Some((10, 20)),
        menu: MenuConfig::Prompt { action: exec("x"), history: false },
    };
    let inv = startup_directive(&config).unwrap();
    assert_eq!(inv.args[1], "dispatch resizeactive exact 10 20; dispatch centerwindow");
    match from_config(config, 3, 4) {
        App::Prompt(p) => {
            assert_eq!(p.history, None);
            assert_eq!((p.width, p.height), (3, 4));
            assert_eq!(p.cursor_index, 0);
        }
        _ => panic!("a prompt was configured"),
    }
}

#[test]
fn positions_saturate() {
    assert_eq!(position(1, 2, 3), 6);
    assert_eq!(position(0, 0, 0), 0);
    assert_eq!(position(65535, 0, 0), 65535);
    assert_eq!(position(65534, 1, 1), 65535);
    assert_eq!(position(usize::MAX, usize::MAX, 3), 65535);
    assert_eq!(centre(80, 6), 36);
    assert_eq!(centre(20, 6), 6);
    assert_eq!(centre(4, 10), 0);
    assert_eq!(centre(81, 7), 36);
}

#[test]
fn the_loop_ends_on_quit_and_handoff() {
    assert!(redraws(&Instruction::Nothing));
    assert!(!redraws(&Instruction::Quit));
    assert!(redraws(&Instruction::OpenMenu("m".to_string())));
    assert!(!redraws(&Instruction::HoldOutput(resize_directive(1, 1))));
    assert!(redraws(&Instruction::Run(resize_directive(1, 1))));
    assert!(dismisses(&Event::Key(Key::Other)));
    assert!(!dismisses(&Event::Resize(1, 1)));
}

#[test]
fn exit_report_tells_a_failure() {
    assert_eq!(exit_report(true, "exit status: 0"), "\nPress any key to exit.");
    assert_eq!(
        exit_report(false, "exit status: 3"),
        "\nProcess exited with code exit status: 3.\nPress any key to exit."
    );
}

#[test]
fn handoff_gives_the_terminal_up_before_the_spawn() {
    let mut app = list_of(
        vec![entry("top", None, command("htop", &["-d"], true, Some((800, 600))))],
        80,
        24,
    );
    let inv = match app.handle_input(Key::Char('\n')) {
        Instruction::HoldOutput(inv) => inv,
        _ => panic!("the terminal is handed over"),
    };
    let acts = handoff(inv);
    assert_eq!(acts.len(), 6);
    match &acts[0] {
        Act::Direct(inv) => assert_eq!(
            inv.args,
            vec!["--batch", "dispatch resizeactive exact 800 600; dispatch centerwindow"]
        ),
        _ => panic!("the window is resized first"),
    }
    assert!(matches!(acts[1], Act::Pause(RESIZE_PAUSE)));
    assert_eq!(RESIZE_PAUSE, 100);
    match &acts[2] {
        Act::Write(text) => assert_eq!(text, "\x1b[2J\x1b[1;1H"),
        _ => panic!("the screen is cleared"),
    }
    assert!(matches!(acts[3], Act::Flush));
    assert!(matches!(acts[4], Act::Release));
    match &acts[5] {
        Act::Spawn(inv) => {
            assert_eq!(inv.program, "htop");
            assert_eq!(inv.args, vec!["-d"]);
            assert_eq!(inv.stdio, Stdio::Terminal);
        }
        _ => panic!("the process is started last"),
    }
}

#[test]
fn handoff_without_a_size_leaves_the_window() {
    let inv = match dispatch(&command("less", &["f"], true, None), &Vec::new()) {
        Request::HoldOutput(inv) => inv,
        _ => panic!("the terminal is handed over"),
    };
    let acts = handoff(inv);
    assert_eq!(acts.len(), 4);
    assert!(matches!(acts[0], Act::Write(_)));
    assert!(matches!(acts[1], Act::Flush));
    assert!(matches!(acts[2], Act::Release));
    assert!(matches!(acts[3], Act::Spawn(_)));
}

#[test]
fn the_terminal_is_taken_back_before_the_report() {
    let acts = after_handoff(false, "exit status: 2");
    assert_eq!(acts.len(), 3);
    assert!(matches!(acts[0], Act::Acquire));
    match &acts[1] {
        Act::Write(text) => assert_eq!(
            text,
            "\nProcess exited with code exit status: 2.\nPress any key to exit."
        ),
        _ => panic!("the report is written"),
    }
    assert!(matches!(acts[2], Act::Flush));
    let acts = after_handoff(true, "exit status: 0");
    match &acts[1] {
        Act::Write(text) => assert_eq!(text, "\nPress any key to exit."),
        _ => panic!("the report is written"),
    }
}
