//! Display styles and styled text, and the escape sequences that encode them.

use crate::text::{append_chars, append_decimal, chars_of, decimal, string_of};
use vstd::prelude::*;

verus! {

/// One of the eight palette colours of a terminal, or the terminal's default.
#[derive(Clone, Copy, Debug, PartialEq, Eq, Structural)]
pub enum Color {
    Default,
    Black,
    Red,
    Green,
    Yellow,
    Blue,
    Magenta,
    Cyan,
    White,
}

impl Color {
    /// The colour's number in a select-graphic-rendition parameter.
    pub open spec fn spec_code(self) -> u8 {
        match self {
            Color::Default => 9,
            Color::Black => 0,
            Color::Red => 1,
            Color::Green => 2,
            Color::Yellow => 3,
            Color::Blue => 4,
            Color::Magenta => 5,
            Color::Cyan => 6,
            Color::White => 7,
        }
    }

    /// The colour's number: 0 to 7 for the palette, 9 for the default.
    pub fn code(self) -> (n: u8)
        ensures
            n == self.spec_code(),
            n <= 9,
    {
        match self {
            Color::Default => 9,
            Color::Black => 0,
            Color::Red => 1,
            Color::Green => 2,
            Color::Yellow => 3,
            Color::Blue => 4,
            Color::Magenta => 5,
            Color::Cyan => 6,
            Color::White => 7,
        }
    }
}

impl Default for Color {
    fn default() -> (c: Color)
        ensures
            c == Color::Default,
    {
        Color::Default
    }
}

/// How a span of text is displayed.
#[derive(Clone, Copy, Debug, PartialEq, Eq, Structural)]
pub struct Style {
    pub fg: Color,
    pub bg: Color,
    pub dim: bool,
    pub bold: bool,
    pub italic: bool,
    pub underline: bool,
}

/// The numerals of `codes`, separated by semicolons.
pub open spec fn joined(codes: Seq<u8>) -> Seq<char>
    decreases codes.len(),
{
    if codes.len() == 0 {
        Seq::empty()
    } else if codes.len() == 1 {
        decimal(codes[0] as nat)
    } else {
        joined(codes.drop_last()) + seq![';'] + decimal(codes.last() as nat)
    }
}

/// The sequence that switches every attribute off: escape, `[0m`.
pub open spec fn reset_text() -> Seq<char> {
    seq!['\x1b', '[', '0', 'm']
}

impl Style {
    /// The style that changes nothing: default colours, no attribute.
    pub open spec fn plain() -> Style {
        Style {
            fg: Color::Default,
            bg: Color::Default,
            dim: false,
            bold: false,
            italic: false,
            underline: false,
        }
    }

    /// The parameters of the style's escape sequence, in the order in which
    /// they are written: foreground, background, bold, dim, italic, underline.
    pub open spec fn codes(self) -> Seq<u8> {
        let fg: Seq<u8> = if self.fg != Color::Default {
            seq![(self.fg.spec_code() + 30) as u8]
        } else {
            seq![]
        };
        let bg: Seq<u8> = if self.bg != Color::Default {
            seq![(self.bg.spec_code() + 40) as u8]
        } else {
            seq![]
        };
        let bold: Seq<u8> = if self.bold {
            seq![1u8]
        } else {
            seq![]
        };
        let dim: Seq<u8> = if self.dim {
            seq![2u8]
        } else {
            seq![]
        };
        let italic: Seq<u8> = if self.italic {
            seq![3u8]
        } else {
            seq![]
        };
        let underline: Seq<u8> = if self.underline {
            seq![4u8]
        } else {
            seq![]
        };
        fg + bg + bold + dim + italic + underline
    }

    /// The escape sequence that switches the style on: escape, `[`, the
    /// parameters separated by semicolons, `m`.
    pub open spec fn escape_text(self) -> Seq<char> {
        seq!['\x1b', '['] + joined(self.codes()) + seq!['m']
    }

    /// The parameters of the style's escape sequence.
    pub fn code_list(&self) -> (list: Vec<u8>)
        ensures
            list@ == self.codes(),
    {
        let mut list: Vec<u8> = Vec::new();
        if self.fg != Color::Default {
            list.push(self.fg.code() + 30);
        }
        if self.bg != Color::Default {
            list.push(self.bg.code() + 40);
        }
        if self.bold {
            list.push(1);
        }
        if self.dim {
            list.push(2);
        }
        if self.italic {
            list.push(3);
        }
        if self.underline {
            list.push(4);
        }
        assert(list@ =~= self.codes());
        list
    }

    /// Appends the style's escape sequence to `out`.
    pub fn append_escape(&self, out: &mut Vec<char>)
        ensures
            final(out)@ == old(out)@ + self.escape_text(),
    {
        let list = self.code_list();
        out.push('\x1b');
        out.push('[');
        let ghost start = out@;
        let mut i: usize = 0;
        while i < list.len()
            invariant
                i <= list.len(),
                out@ == start + joined(list@.subrange(0, i as int)),
            decreases list.len() - i,
        {
            assert(list@.subrange(0, i + 1).drop_last() =~= list@.subrange(0, i as int));
            if i > 0 {
                out.push(';');
            }
            append_decimal(out, list[i] as u64);
            assert(out@ =~= start + joined(list@.subrange(0, i + 1)));
            i += 1;
        }
        assert(list@.subrange(0, list.len() as int) =~= list@);
        out.push('m');
        assert(out@ =~= old(out)@ + self.escape_text());
    }

    /// The style's escape sequence.
    pub fn escape(&self) -> (s: String)
        ensures
            s@ == self.escape_text(),
    {
        let mut out: Vec<char> = Vec::new();
        self.append_escape(&mut out);
        assert(out@ =~= self.escape_text());
        string_of(&out)
    }
}

impl Default for Style {
    fn default() -> (s: Style)
        ensures
            s == Style::plain(),
    {
        Style {
            fg: Color::Default,
            bg: Color::Default,
            dim: false,
            bold: false,
            italic: false,
            underline: false,
        }
    }
}

/// A text and the style in which it is displayed.
pub struct Styled {
    pub text: String,
    pub style: Style,
}

impl From<String> for Styled {
    /// The text in the plain style.
    fn from(value: String) -> (s: Styled) {
        Styled { text: value, style: Style::default() }
    }
}

impl vstd::std_specs::convert::FromSpecImpl<String> for Styled {
    open spec fn obeys_from_spec() -> bool {
        true
    }

    open spec fn from_spec(value: String) -> Styled {
        Styled { text: value, style: Style::plain() }
    }
}

impl Styled {
    /// What the terminal receives: the style's escape sequence, the text,
    /// and the reset sequence.
    pub open spec fn rendered(&self) -> Seq<char> {
        self.style.escape_text() + self.text@ + reset_text()
    }

    /// Appends the escape-coded text to `out`.
    pub fn append_to(&self, out: &mut Vec<char>)
        ensures
            final(out)@ == old(out)@ + self.rendered(),
    {
        self.style.append_escape(out);
        let text = chars_of(self.text.as_str());
        append_chars(out, &text);
        out.push('\x1b');
        out.push('[');
        out.push('0');
        out.push('m');
        assert(out@ =~= old(out)@ + self.rendered());
    }

    /// The escape-coded text.
    pub fn render(&self) -> (s: String)
        ensures
            s@ == self.rendered(),
    {
        let mut out: Vec<char> = Vec::new();
        self.append_to(&mut out);
        assert(out@ =~= self.rendered());
        string_of(&out)
    }

    /// The number of characters of the text, without its escape sequences.
    pub fn width(&self) -> (n: usize)
        ensures
            n == self.text@.len(),
    {
        self.text.as_str().unicode_len()
    }

    /// A copy of the styled text.
    pub fn duplicate(&self) -> (s: Styled)
        ensures
            s.text@ == self.text@,
            s.style == self.style,
    {
        Styled { text: self.text.clone(), style: self.style }
    }
}

} // verus!
