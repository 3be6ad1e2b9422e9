//! ANSI escape sequences for terminal output, and functions that wrap a text
//! in them.
//!
//! Every function here is total: a text is never inspected, only framed by an
//! entry sequence in front and the reset sequence behind. A text that already
//! holds escape sequences is framed like any other, so styles nest.

use vstd::prelude::*;

verus! {

/// The styles a text can be painted in.
pub enum Color {
    Red,
    Green,
    Blue,
    Bold,
}

impl Color {
    /// The escape sequence that switches the style on.
    pub open spec fn entry(self) -> Seq<char> {
        match self {
            Color::Red => seq!['\x1b', '[', '3', '1', 'm'],
            Color::Green => seq!['\x1b', '[', '3', '2', 'm'],
            Color::Blue => seq!['\x1b', '[', '3', '4', 'm'],
            Color::Bold => seq!['\x1b', '[', '1', 'm'],
        }
    }
}

/// The escape sequence that puts the terminal back to its default rendering.
pub open spec fn reset_sequence() -> Seq<char> {
    seq!['\x1b', '[', '0', 'm']
}

/// `text` between an entry sequence and the reset sequence.
pub open spec fn wrapped(entry: Seq<char>, text: Seq<char>) -> Seq<char> {
    entry + text + reset_sequence()
}

/// `text` as it is rendered in `color`.
pub open spec fn styled(color: Color, text: Seq<char>) -> Seq<char> {
    wrapped(color.entry(), text)
}

/// `text` with the reset sequence on both sides.
pub open spec fn cleared(text: Seq<char>) -> Seq<char> {
    wrapped(reset_sequence(), text)
}

fn wrap(entry: &str, s: &str) -> (out: String)
    ensures
        out@ == wrapped(entry@, s@),
{
    let mut out = String::from_str(entry);
    out.append(s);
    out.append("\x1b[0m");
    proof {
        reveal_strlit("\x1b[0m");
        assert("\x1b[0m"@ =~= reset_sequence());
    }
    out
}

/// Returns `s` wrapped in the ANSI codes for red.
pub fn red(s: &str) -> (out: String)
    ensures
        out@ == styled(Color::Red, s@),
{
    proof {
        reveal_strlit("\x1b[31m");
        assert("\x1b[31m"@ =~= Color::Red.entry());
    }
    wrap("\x1b[31m", s)
}

/// Returns `s` wrapped in the ANSI codes for green.
pub fn green(s: &str) -> (out: String)
    ensures
        out@ == styled(Color::Green, s@),
{
    proof {
        reveal_strlit("\x1b[32m");
        assert("\x1b[32m"@ =~= Color::Green.entry());
    }
    wrap("\x1b[32m", s)
}

/// Returns `s` wrapped in the ANSI codes for blue.
pub fn blue(s: &str) -> (out: String)
    ensures
        out@ == styled(Color::Blue, s@),
{
    proof {
        reveal_strlit("\x1b[34m");
        assert("\x1b[34m"@ =~= Color::Blue.entry());
    }
    wrap("\x1b[34m", s)
}

/// Returns `s` wrapped in the ANSI codes for bold.
pub fn bold(s: &str) -> (out: String)
    ensures
        out@ == styled(Color::Bold, s@),
{
    proof {
        reveal_strlit("\x1b[1m");
        assert("\x1b[1m"@ =~= Color::Bold.entry());
    }
    wrap("\x1b[1m", s)
}

/// Returns `s` with the reset sequence in front of it and behind it.
pub fn reset(s: &str) -> (out: String)
    ensures
        out@ == cleared(s@),
{
    proof {
        reveal_strlit("\x1b[0m");
        assert("\x1b[0m"@ =~= reset_sequence());
    }
    wrap("\x1b[0m", s)
}

/// A text, the color chosen for it, and the last rendering made of it.
///
/// `colorized` holds what the last call of `paint` or `reset` wrote. It does
/// not follow `string` or `color`: after changing either, render again.
pub struct ColorString {
    pub color: Color,
    pub string: String,
    pub colorized: String,
}

/// What a `ColorString` holds, as plain sequences of characters.
pub struct ColorStringView {
    pub color: Color,
    pub string: Seq<char>,
    pub colorized: Seq<char>,
}

impl View for ColorString {
    type V = ColorStringView;

    open spec fn view(&self) -> ColorStringView {
        ColorStringView { color: self.color, string: self.string@, colorized: self.colorized@ }
    }
}

impl ColorString {
    /// Renders `string` in `color` and stores the result in `colorized`.
    pub fn paint(&mut self)
        ensures
            final(self)@ == (ColorStringView {
                colorized: styled(old(self).color, old(self).string@),
                ..old(self)@
            }),
    {
        match self.color {
            Color::Red => self.colorized = red(&self.string),
            Color::Green => self.colorized = green(&self.string),
            Color::Blue => self.colorized = blue(&self.string),
            Color::Bold => self.colorized = bold(&self.string),
        };
    }

    /// Stores in `colorized` the source text between two reset sequences.
    /// What `colorized` held before plays no part.
    pub fn reset(&mut self)
        ensures
            final(self)@ == (ColorStringView {
                colorized: cleared(old(self).string@),
                ..old(self)@
            }),
    {
        self.colorized = reset(&self.string);
    }
}

/// A styled text starts with the color's entry sequence, goes on with the
/// text itself, unchanged and in one piece, and ends with the reset sequence.
pub proof fn lemma_styled_shape(color: Color, text: Seq<char>)
    ensures
        styled(color, text).len() == color.entry().len() + text.len() + reset_sequence().len(),
        color.entry().is_prefix_of(styled(color, text)),
        styled(color, text).subrange(
            color.entry().len() as int,
            (color.entry().len() + text.len()) as int,
        ) == text,
        reset_sequence().is_suffix_of(styled(color, text)),
{
    let e = color.entry();
    let out = styled(color, text);
    assert(out.subrange(0, e.len() as int) =~= e);
    assert(out.subrange(e.len() as int, (e.len() + text.len()) as int) =~= text);
    assert(out.subrange(out.len() - reset_sequence().len(), out.len() as int)
        =~= reset_sequence());
}

/// Styling the empty text gives the entry sequence followed at once by the
/// reset sequence.
pub proof fn lemma_styled_empty(color: Color)
    ensures
        styled(color, Seq::empty()) == color.entry() + reset_sequence(),
{
    assert(styled(color, Seq::empty()) =~= color.entry() + reset_sequence());
}

/// Styling twice in one color nests the sequences: both entries in front,
/// both resets behind. Nothing is merged, so the result differs from the
/// text styled once.
pub proof fn lemma_styled_twice_nests(color: Color, text: Seq<char>)
    ensures
        styled(color, styled(color, text)) == color.entry() + color.entry() + text
            + reset_sequence() + reset_sequence(),
        styled(color, styled(color, text)) != styled(color, text),
{
    let once = styled(color, text);
    let twice = styled(color, once);
    assert(twice =~= color.entry() + color.entry() + text + reset_sequence() + reset_sequence());
    assert(twice.len() > once.len());
}

/// Clearing twice nests in the same way, and differs from clearing once.
pub proof fn lemma_cleared_twice_nests(text: Seq<char>)
    ensures
        cleared(cleared(text)) == reset_sequence() + reset_sequence() + text + reset_sequence()
            + reset_sequence(),
        cleared(cleared(text)) != cleared(text),
{
    let once = cleared(text);
    let twice = cleared(once);
    assert(twice =~= reset_sequence() + reset_sequence() + text + reset_sequence()
        + reset_sequence());
    assert(twice.len() > once.len());
}

} // verus!
