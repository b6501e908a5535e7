use toolbelt::config::Text;
use toolbelt::dispatch::{substitute, substitute_all};
use toolbelt::style::{Color, Style, Styled};
use toolbelt::text::{chars_of, contains_text, count_char, replace, string_of};

fn chars(s: &str) -> Vec<char> {
    s.chars().collect()
}

fn plain() -> Style {
    Style::default()
}

#[test]
fn substitute_replaces_the_placeholder() {
    assert_eq!(substitute("run {input} now", "X"), "run X now");
}

#[test]
fn substitute_replaces_every_occurrence() {
    assert_eq!(substitute("{input}-{input}", "ab"), "ab-ab");
    assert_eq!(substitute("{input}{input}{input}", ""), "");
}

#[test]
fn substitute_leaves_text_without_placeholder() {
    assert_eq!(substitute("run now", "X"), "run now");
    assert_eq!(substitute("{input", "X"), "{input");
    assert_eq!(substitute("{Input}", "X"), "{Input}");
    assert_eq!(substitute("", "X"), "");
}

#[test]
fn substitute_does_not_look_into_what_it_put_in() {
    assert_eq!(substitute("a {input} b", "{input}"), "a {input} b");
}

#[test]
fn substitute_all_treats_each_argument_alone() {
    let args = vec!["-q".to_string(), "{input}".to_string(), "x={input};".to_string()];
    let out = substitute_all(&args, &chars("hello world"));
    assert_eq!(out, vec!["-q", "hello world", "x=hello world;"]);
}

#[test]
fn substitute_keeps_characters_beyond_ascii() {
    assert_eq!(substitute("\u{e9}{input}\u{2500}", "\u{fc}"), "\u{e9}\u{fc}\u{2500}");
}

#[test]
fn chars_and_strings_convert_both_ways() {
    assert_eq!(chars_of("a\u{e9}z"), vec!['a', '\u{e9}', 'z']);
    assert_eq!(string_of(&vec!['a', '\u{e9}', 'z']), "a\u{e9}z");
    assert_eq!(chars_of(""), Vec::<char>::new());
}

#[test]
fn contains_text_is_case_sensitive_substring_search() {
    assert!(contains_text(&chars("Firefox"), &chars("Fire")));
    assert!(contains_text(&chars("Firefox"), &chars("fox")));
    assert!(contains_text(&chars("Firefox"), &chars("Firefox")));
    assert!(contains_text(&chars("Firefox"), &chars("")));
    assert!(contains_text(&chars(""), &chars("")));
    assert!(!contains_text(&chars("Firefox"), &chars("fire")));
    assert!(!contains_text(&chars("Firefox"), &chars("Firefoxx")));
    assert!(!contains_text(&chars(""), &chars("a")));
    assert!(contains_text(&chars("aab"), &chars("ab")));
}

#[test]
fn replace_goes_from_the_left_without_overlap() {
    assert_eq!(replace(&chars("aaa"), &chars("aa"), &chars("b")), chars("ba"));
    assert_eq!(replace(&chars("abab"), &chars("ab"), &chars("")), chars(""));
    assert_eq!(replace(&chars("xay"), &chars("a"), &chars("aa")), chars("xaay"));
    assert_eq!(replace(&chars("short"), &chars("much longer"), &chars("b")), chars("short"));
    assert_eq!(replace(&chars("abc"), &chars(""), &chars("x")), chars("abc"));
    assert_eq!(replace(&chars(""), &chars(""), &chars("x")), chars(""));
}

#[test]
fn count_char_counts_occurrences() {
    assert_eq!(count_char(&chars("a\nb\n\nc"), '\n'), 3);
    assert_eq!(count_char(&chars(""), '\n'), 0);
}

#[test]
fn color_codes() {
    assert_eq!(Color::Default.code(), 9);
    assert_eq!(Color::Black.code(), 0);
    assert_eq!(Color::Red.code(), 1);
    assert_eq!(Color::Green.code(), 2);
    assert_eq!(Color::Yellow.code(), 3);
    assert_eq!(Color::Blue.code(), 4);
    assert_eq!(Color::Magenta.code(), 5);
    assert_eq!(Color::Cyan.code(), 6);
    assert_eq!(Color::White.code(), 7);
    assert_eq!(Color::default(), Color::Default);
}

#[test]
fn plain_style_has_no_parameter() {
    assert_eq!(plain().escape(), "\x1b[m");
    assert_eq!(plain().code_list(), Vec::<u8>::new());
}

#[test]
fn style_parameters_come_in_a_fixed_order() {
    let style = Style {
        fg: Color::Red,
        bg: Color::White,
        dim: true,
        bold: true,
        italic: true,
        underline: true,
    };
    assert_eq!(style.code_list(), vec![31, 47, 1, 2, 3, 4]);
    assert_eq!(style.escape(), "\x1b[31;47;1;2;3;4m");
}

#[test]
fn style_with_one_parameter() {
    let mut style = plain();
    style.bg = Color::Black;
    assert_eq!(style.escape(), "\x1b[40m");
    let mut style = plain();
    style.underline = true;
    assert_eq!(style.escape(), "\x1b[4m");
}

#[test]
fn styled_text_ends_with_a_reset() {
    let mut styled = Styled::from("hi".to_string());
    assert_eq!(styled.render(), "\x1b[mhi\x1b[0m");
    styled.style.fg = Color::Blue;
    styled.style.bold = true;
    assert_eq!(styled.render(), "\x1b[34;1mhi\x1b[0m");
    assert_eq!(styled.width(), 2);
}

#[test]
fn styled_width_counts_characters() {
    let styled = Styled::from("\u{e9}\u{2500}a".to_string());
    assert_eq!(styled.width(), 3);
    let copy = styled.duplicate();
    assert_eq!(copy.text, "\u{e9}\u{2500}a");
    assert_eq!(copy.style, styled.style);
}

#[test]
fn text_becomes_styled() {
    let plain_text = Styled::from(Text::Unstyled("abc".to_string()));
    assert_eq!(plain_text.text, "abc");
    assert_eq!(plain_text.style, plain());
    let mut style = plain();
    style.italic = true;
    let styled = Styled::from(Text::Styled(Styled { text: "x".to_string(), style }));
    assert_eq!(styled.text, "x");
    assert!(styled.style.italic);
}
