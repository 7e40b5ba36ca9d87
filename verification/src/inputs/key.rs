//! Keys as the application sees them, free of any terminal library.
use vstd::prelude::*;
use vstd::string::StringExecFns;
use crate::text::{decimal, push_decimal};

verus! {

/// A key press, with the modifier folded into the variant.
#[derive(Debug, Clone, Copy, PartialEq, Eq, Hash, Structural)]
pub enum Key {
    Enter,
    Tab,
    Backspace,
    Esc,
    Left,
    Right,
    Up,
    Down,
    Ins,
    Delete,
    Home,
    End,
    PageUp,
    PageDown,
    /// A function key, by its number.
    F(u8),
    Char(char),
    Ctrl(char),
    Alt(char),
    Unknown,
}

impl Key {
    /// How a character key is written: the space bar by name, any other by itself.
    pub open spec fn spec_char_name(c: char) -> Seq<char> {
        if c == ' ' {
            "Space"@
        } else {
            seq![c]
        }
    }

    /// The text that shows this key to the user, in angle brackets.
    pub open spec fn spec_label(self) -> Seq<char> {
        match self {
            Key::Enter => "<Enter>"@,
            Key::Tab => "<Tab>"@,
            Key::Backspace => "<Backspace>"@,
            Key::Esc => "<Esc>"@,
            Key::Left => "<Left Arrow Key>"@,
            Key::Right => "<Right Arrow Key>"@,
            Key::Up => "<Up Arrow Key>"@,
            Key::Down => "<Down Arrow Key>"@,
            Key::Ins => "<Ins>"@,
            Key::Delete => "<Delete>"@,
            Key::Home => "<Home>"@,
            Key::End => "<End>"@,
            Key::PageUp => "<PageUp>"@,
            Key::PageDown => "<PageDown>"@,
            Key::F(n) => "<F"@ + decimal(n as nat) + ">"@,
            Key::Char(c) => "<"@ + Key::spec_char_name(c) + ">"@,
            Key::Ctrl(c) => "<Ctrl+"@ + Key::spec_char_name(c) + ">"@,
            Key::Alt(c) => "<Alt+"@ + Key::spec_char_name(c) + ">"@,
            Key::Unknown => "<Unknown>"@,
        }
    }

    /// The text that shows this key to the user.
    pub fn label(&self) -> (text: String)
        ensures
            text@ == self.spec_label(),
    {
        match self {
            Key::Enter => String::from_str("<Enter>"),
            Key::Tab => String::from_str("<Tab>"),
            Key::Backspace => String::from_str("<Backspace>"),
            Key::Esc => String::from_str("<Esc>"),
            Key::Left => String::from_str("<Left Arrow Key>"),
            Key::Right => String::from_str("<Right Arrow Key>"),
            Key::Up => String::from_str("<Up Arrow Key>"),
            Key::Down => String::from_str("<Down Arrow Key>"),
            Key::Ins => String::from_str("<Ins>"),
            Key::Delete => String::from_str("<Delete>"),
            Key::Home => String::from_str("<Home>"),
            Key::End => String::from_str("<End>"),
            Key::PageUp => String::from_str("<PageUp>"),
            Key::PageDown => String::from_str("<PageDown>"),
            Key::F(n) => {
                let mut text = String::from_str("<F");
                push_decimal(&mut text, *n as u64);
                text.append(">");
                text
            },
            Key::Char(c) => Key::bracketed("<", *c),
            Key::Ctrl(c) => Key::bracketed("<Ctrl+", *c),
            Key::Alt(c) => Key::bracketed("<Alt+", *c),
            Key::Unknown => String::from_str("<Unknown>"),
        }
    }

    /// `open`, the name of the character key `c`, and the closing bracket.
    fn bracketed(open: &str, c: char) -> (text: String)
        ensures
            text@ == open@ + Key::spec_char_name(c) + ">"@,
    {
        let mut text = String::from_str(open);
        if c == ' ' {
            text.append("Space");
        } else {
            text.push(c);
        }
        text.append(">");
        text
    }
}

} // verus!
