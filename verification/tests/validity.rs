use toolbelt::app::list::ListApp;
use toolbelt::app::prompt::PromptApp;
use toolbelt::app::App;
use toolbelt::config::{config_dir, menu_file_name, Action, Entry};
use toolbelt::key::Key;
use toolbelt::style::{Style, Styled};

fn sample() -> ListApp {
    let entries = vec![
        Entry {
            name: "alpha".to_string(),
            icon: Styled::from("a".to_string()),
            keywords: None,
            action: Action::Exec("a".to_string()),
        },
        Entry {
            name: "beta".to_string(),
            icon: Styled::from("b".to_string()),
            keywords: Some("second".to_string()),
            action: Action::Exec("b".to_string()),
        },
    ];
    ListApp::new(
        entries,
        Styled::from(String::new()),
        Styled::from(String::new()),
        Style::default(),
        80,
        24,
    )
}

#[test]
fn a_new_list_is_well_formed() {
    let mut app = sample();
    assert!(app.is_well_formed());
    app.handle_input(Key::Char('s'));
    assert_eq!(app.list, vec![1]);
    assert!(app.is_well_formed());
    app.handle_input(Key::Up);
    app.handle_resize(10, 2);
    assert!(app.is_well_formed());
    assert!(App::List(app).is_well_formed());
}

#[test]
fn a_stale_list_is_not_well_formed() {
    let mut app = sample();
    app.selected = 2;
    assert!(!app.is_well_formed());
    let mut app = sample();
    app.list = vec![1, 0];
    assert!(!app.is_well_formed());
    let mut app = sample();
    app.list = vec![0];
    assert!(!app.is_well_formed());
    let mut app = sample();
    app.filter = vec!['z'];
    assert!(!app.is_well_formed());
    app.update_list();
    assert!(app.is_well_formed());
    app.selected = 1;
    assert!(!app.is_well_formed());
    let mut app = sample();
    app.height = 3;
    assert!(!app.is_well_formed());
    assert!(!App::List(app).is_well_formed());
}

#[test]
fn a_prompt_is_checked_for_cursor_and_history() {
    let mut app = PromptApp::new(
        Action::Exec("x".to_string()),
        Styled::from(String::new()),
        Styled::from(String::new()),
        true,
        80,
        24,
    );
    assert!(app.is_well_formed());
    app.cursor_index = 1;
    assert!(!app.is_well_formed());
    app.input = vec!['a'];
    assert!(app.is_well_formed());
    app.history = Some(vec![(1, "a\n\r ".to_string())]);
    assert!(app.is_well_formed());
    app.history = Some(vec![(1, "a\n\r ".to_string()), (3, "b".to_string())]);
    assert!(!app.is_well_formed());
    app.history = None;
    assert!(App::Prompt(app).is_well_formed());
}

#[test]
fn menu_files_are_named_after_the_menu() {
    assert_eq!(menu_file_name("main"), "main.json");
    assert_eq!(menu_file_name(""), ".json");
    assert_eq!(config_dir(), ".config/toolbelt/");
}
