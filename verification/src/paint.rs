//! Colour for text that is on its way to a terminal, and none for text that
//! is being captured.

use crate::stdfiles::eprint;
use crate::stdfiles::eprintln;
use crate::stdfiles::is_enabled;
use crate::stdfiles::line;
use crate::stdfiles::print;
use crate::stdfiles::Console;
use crate::stdfiles::StdFiles;
use crate::stdfiles::Stream;
use vstd::prelude::*;
use vstd::string::StringExecFns;
use vstd::utf8::encode_utf8;

verus! {

/// The eight basic terminal colours.
#[derive(Clone, Copy, Debug, PartialEq, Eq, Structural)]
pub enum Colour {
    Black,
    Red,
    Green,
    Yellow,
    Blue,
    Purple,
    Cyan,
    White,
}

/// A foreground colour, shown at full or at reduced intensity.
#[derive(Clone, Copy, Debug, PartialEq, Eq, Structural)]
pub struct Style {
    pub foreground: Colour,
    pub is_dimmed: bool,
}

impl Colour {
    /// This colour at full intensity.
    pub fn normal(self) -> (style: Style)
        ensures
            style == (Style { foreground: self, is_dimmed: false }),
    {
        Style { foreground: self, is_dimmed: false }
    }

    /// This colour at reduced intensity.
    pub fn dimmed(self) -> (style: Style)
        ensures
            style == (Style { foreground: self, is_dimmed: true }),
    {
        Style { foreground: self, is_dimmed: true }
    }

    /// The last digit of the colour's foreground code, which runs from 30 to 37.
    pub open spec fn digit(self) -> char {
        match self {
            Colour::Black => '0',
            Colour::Red => '1',
            Colour::Green => '2',
            Colour::Yellow => '3',
            Colour::Blue => '4',
            Colour::Purple => '5',
            Colour::Cyan => '6',
            Colour::White => '7',
        }
    }
}

impl Style {
    /// The escape sequence that switches a terminal to this style:
    /// `ESC [`, then `2;` if dimmed, then the colour's code and `m`.
    pub open spec fn prefix(self) -> Seq<char> {
        if self.is_dimmed {
            seq!['\x1b', '[', '2', ';', '3', self.foreground.digit(), 'm']
        } else {
            seq!['\x1b', '[', '3', self.foreground.digit(), 'm']
        }
    }

    /// The escape sequence that switches a terminal back: `ESC [ 0 m`.
    pub open spec fn suffix(self) -> Seq<char> {
        seq!['\x1b', '[', '0', 'm']
    }

    /// `text` between the style's two escape sequences.
    pub open spec fn wrap(self, text: Seq<char>) -> Seq<char> {
        self.prefix() + text + self.suffix()
    }
}

/// What `text` looks like on its way out: bare while capture is on, wrapped
/// in the style's escape sequences while it is off.
pub open spec fn painted(enabled: bool, style: Style, text: Seq<char>) -> Seq<char> {
    if enabled {
        text
    } else {
        style.wrap(text)
    }
}

/// Calls `ansi_term::Style::prefix` on the `ansi_term` style with this
/// foreground and intensity and nothing else set, and renders what it returns.
/// Trusted: the text is `ESC [`, `2` and `;` if dimmed, the foreground code
/// of the colour, and `m`.
#[verifier::external_body]
fn ansi_prefix(style: Style) -> (code: String)
    ensures
        code@ == style.prefix(),
{
    let foreground = match style.foreground {
        Colour::Black => ansi_term::Colour::Black,
        Colour::Red => ansi_term::Colour::Red,
        Colour::Green => ansi_term::Colour::Green,
        Colour::Yellow => ansi_term::Colour::Yellow,
        Colour::Blue => ansi_term::Colour::Blue,
        Colour::Purple => ansi_term::Colour::Purple,
        Colour::Cyan => ansi_term::Colour::Cyan,
        Colour::White => ansi_term::Colour::White,
    };
    let is_dimmed = style.is_dimmed;
    ansi_term::Style { foreground: Some(foreground), is_dimmed, ..Default::default() }.prefix().to_string()
}

/// Calls `ansi_term::Style::suffix` on the same `ansi_term` style and renders
/// what it returns. Trusted: a style with a foreground is never plain, so the
/// text is the reset sequence `ESC [ 0 m`.
#[verifier::external_body]
fn ansi_suffix(style: Style) -> (code: String)
    ensures
        code@ == style.suffix(),
{
    let foreground = match style.foreground {
        Colour::Black => ansi_term::Colour::Black,
        Colour::Red => ansi_term::Colour::Red,
        Colour::Green => ansi_term::Colour::Green,
        Colour::Yellow => ansi_term::Colour::Yellow,
        Colour::Blue => ansi_term::Colour::Blue,
        Colour::Purple => ansi_term::Colour::Purple,
        Colour::Cyan => ansi_term::Colour::Cyan,
        Colour::White => ansi_term::Colour::White,
    };
    let is_dimmed = style.is_dimmed;
    ansi_term::Style { foreground: Some(foreground), is_dimmed, ..Default::default() }.suffix().to_string()
}

/// Colours `text` unless it is being captured: captured output is compared
/// against exact strings and carries no escape sequences.
pub fn paint_text(files: &StdFiles, style: Style, text: &str) -> (s: String)
    ensures
        s@ == painted(files@.enabled, style, text@),
{
    if is_enabled(files) {
        String::from_str(text)
    } else {
        let mut s = ansi_prefix(style);
        s.append(text);
        let suffix = ansi_suffix(style);
        s.append(suffix.as_str());
        s
    }
}

/// Writes `text` to standard output, coloured if it reaches a terminal.
pub fn paint<C: Console>(files: &mut StdFiles, console: &C, style: Style, text: &str)
    ensures
        final(files)@ == old(files)@.write(Stream::Stdout, encode_utf8(text@)),
{
    let s = paint_text(files, style, text);
    print(files, console, s.as_str());
}

/// Writes `text` and a line feed to standard output, the text coloured if it
/// reaches a terminal.
pub fn paintln<C: Console>(files: &mut StdFiles, console: &C, style: Style, text: &str)
    ensures
        final(files)@ == old(files)@.write(Stream::Stdout, encode_utf8(line(text@))),
{
    let s = paint_text(files, style, text);
    crate::stdfiles::println(files, console, s.as_str());
}

/// Writes `text` to standard error, coloured if it reaches a terminal.
pub fn epaint<C: Console>(files: &mut StdFiles, console: &C, style: Style, text: &str)
    ensures
        final(files)@ == old(files)@.write(Stream::Stderr, encode_utf8(text@)),
{
    let s = paint_text(files, style, text);
    eprint(files, console, s.as_str());
}

/// Writes `text` and a line feed to standard error, the text coloured if it
/// reaches a terminal.
pub fn epaintln<C: Console>(files: &mut StdFiles, console: &C, style: Style, text: &str)
    ensures
        final(files)@ == old(files)@.write(Stream::Stderr, encode_utf8(line(text@))),
{
    let s = paint_text(files, style, text);
    eprintln(files, console, s.as_str());
}

/// Reports an error: a red line on standard error.
pub fn paint_err<C: Console>(files: &mut StdFiles, console: &C, text: &str)
    ensures
        final(files)@ == old(files)@.write(Stream::Stderr, encode_utf8(line(text@))),
{
    epaintln(files, console, Colour::Red.normal(), text);
}

/// Reports a success: a green line on standard error.
pub fn paint_ok<C: Console>(files: &mut StdFiles, console: &C, text: &str)
    ensures
        final(files)@ == old(files)@.write(Stream::Stderr, encode_utf8(line(text@))),
{
    epaintln(files, console, Colour::Green.normal(), text);
}

/// Reports a debug message: a dimmed white line on standard error.
pub fn paint_dbg<C: Console>(files: &mut StdFiles, console: &C, text: &str)
    ensures
        final(files)@ == old(files)@.write(Stream::Stderr, encode_utf8(line(text@))),
{
    epaintln(files, console, Colour::White.dimmed(), text);
}

/// Announces an action: a yellow line on standard error.
pub fn paint_act<C: Console>(files: &mut StdFiles, console: &C, text: &str)
    ensures
        final(files)@ == old(files)@.write(Stream::Stderr, encode_utf8(line(text@))),
{
    epaintln(files, console, Colour::Yellow.normal(), text);
}

/// Painting leaves captured text exactly as it is, and puts text that is not
/// captured between two escape sequences, neither of them empty, so that what
/// comes out is never the bare text.
pub proof fn lemma_paint_only_for_terminals(style: Style, text: Seq<char>)
    ensures
        painted(true, style, text) == text,
        painted(false, style, text) == style.prefix() + text + style.suffix(),
        style.prefix().len() > 0,
        style.suffix().len() > 0,
        painted(false, style, text) != text,
{
    assert(painted(false, style, text).len() == style.prefix().len() + text.len()
        + style.suffix().len());
}

} // verus!
