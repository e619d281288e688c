//! Labeled console messages: a colored, bolded label such as `error` or
//! `success`, a bold colon, a space, and a caller-supplied message. The
//! styling itself is advisory (it degrades to plain text on sinks that take
//! no color), so every contract here speaks of the text that remains once
//! the styling sequences are stripped away.

pub mod ansi;
mod paint;

use vstd::prelude::*;

verus! {

use crate::ansi::{no_esc, strip_ansi, ansi_wf};

/// The colors a label can take: the eight basic terminal colors. `Magenta`
/// is the color that terminals show for "purple".
#[derive(Clone, Copy, PartialEq, Eq, Structural)]
pub enum Hue {
    Black,
    Red,
    Green,
    Yellow,
    Blue,
    Magenta,
    Cyan,
    White,
}

/// The plain form of a labeled message: the label's name, a colon, one
/// space, then the message.
pub open spec fn labeled(name: Seq<char>, message: Seq<char>) -> Seq<char> {
    name + seq![':', ' '] + message
}

/// The visual style of a label: an optional color, and whether the label is
/// shown bold.
#[derive(Clone, Copy)]
pub struct Style {
    pub color: Option<Hue>,
    pub bold: bool,
}

/// A label: a short category name together with the style it is shown in.
pub struct Label {
    pub name: String,
    pub style: Style,
}

/// `Text` is the value that gets handed around between functions and
/// methods: a labeled, styled message. Its textual content never changes
/// after construction; its view is that content as a sequence of characters.
pub struct Text {
    text: String,
}

/// `Error` is an alias of `Text` used to denote errors specifically, so it
/// has every method that `Text` has.
pub type Error = Text;

impl View for Text {
    type V = Seq<char>;

    closed spec fn view(&self) -> Seq<char> {
        self.text@
    }
}

/// Renders one piece of text in the given style by calling into the styling
/// crate (or copying it unchanged when the style asks for nothing).
fn styled_fragment(s: &str, style: &Style) -> (r: String)
    ensures
        no_esc(s@) ==> ansi_wf(r@) && strip_ansi(r@) == s@,
{
    match style.color {
        Some(c) => {
            let cc = crate::paint::colored_color(&c);
            if style.bold {
                crate::paint::paint_bold(s, cc)
            } else {
                crate::paint::paint(s, cc)
            }
        },
        None => {
            if style.bold {
                crate::paint::bold_only(s)
            } else {
                let r = s.to_owned();
                proof {
                    if no_esc(s@) {
                        crate::ansi::lemma_no_esc_strip(s@);
                    }
                }
                r
            }
        },
    }
}

impl Text {
    /// Returns `Text` built from the given `label` and `message`: the
    /// styled label name, a bold colon, one space, and the message. Once
    /// the styling is stripped away, exactly `<name>: <message>` remains.
    pub fn make(label: &Label, message: &str) -> (t: Text)
        ensures
            no_esc(label.name@) && no_esc(message@) ==> ansi_wf(t@) && strip_ansi(t@) == labeled(
                label.name@,
                message@,
            ),
    {
        let mut text = styled_fragment(label.name.as_str(), &label.style);
        let colon = crate::paint::bold_only(":");
        let ghost a = text@;
        let ghost b = colon@;
        text.append(colon.as_str());
        text.append(" ");
        text.append(message);
        proof {
            if no_esc(label.name@) && no_esc(message@) {
                reveal_strlit(":");
                reveal_strlit(" ");
                assert(no_esc(":"@));
                assert(no_esc(" "@));
                crate::ansi::lemma_no_esc_strip(" "@);
                crate::ansi::lemma_no_esc_strip(message@);
                crate::ansi::lemma_strip_concat(a, b);
                crate::ansi::lemma_strip_concat(a + b, " "@);
                crate::ansi::lemma_strip_concat((a + b) + " "@, message@);
                assert(text@ == ((a + b) + " "@) + message@);
                assert(strip_ansi(text@) =~= labeled(label.name@, message@));
            }
        }
        Text { text }
    }

    /// The exact characters that printing would emit, styling included.
    pub fn render(&self) -> (r: String)
        ensures
            r@ == self@,
    {
        self.text.clone()
    }

    /// Writes the rendered text plus a single trailing newline to standard
    /// output.
    pub fn print(&self) {
        crate::paint::write_line(self.text.as_str());
    }
}

impl Label {
    /// Applies the label to one message, exactly as `Text::make` does. The
    /// label itself is untouched: it can be applied again and again.
    pub fn apply(&self, message: &str) -> (t: Text)
        ensures
            no_esc(self.name@) && no_esc(message@) ==> ansi_wf(t@) && strip_ansi(t@) == labeled(
                self.name@,
                message@,
            ),
    {
        Text::make(self, message)
    }
}

/// Builds a reusable label with a custom name and style: declare it once,
/// then `apply` it to any number of messages. This is how callers write
/// their own variants of `error`, `info` and the rest.
pub fn custom(style: Style, name: String) -> (l: Label)
    ensures
        l.style == style,
        l.name@ == name@,
{
    Label { name, style }
}

/// Returns a green and shiny success message.
pub fn success(message: &str) -> (t: Text)
    ensures
        no_esc(message@) ==> ansi_wf(t@) && strip_ansi(t@) == labeled("success"@, message@),
{
    let label = Label {
        name: "success".to_owned(),
        style: Style { color: Some(Hue::Green), bold: true },
    };
    proof {
        reveal_strlit("success");
        assert(no_esc("success"@));
    }
    Text::make(&label, message)
}

/// Returns a neutral info message, in bold magenta (purple).
pub fn info(message: &str) -> (t: Text)
    ensures
        no_esc(message@) ==> ansi_wf(t@) && strip_ansi(t@) == labeled("info"@, message@),
{
    let label = Label {
        name: "info".to_owned(),
        style: Style { color: Some(Hue::Magenta), bold: true },
    };
    proof {
        reveal_strlit("info");
        assert(no_esc("info"@));
    }
    Text::make(&label, message)
}

/// Displays a warning, in bold yellow.
pub fn warning(message: &str) -> (t: Text)
    ensures
        no_esc(message@) ==> ansi_wf(t@) && strip_ansi(t@) == labeled("warning"@, message@),
{
    let label = Label {
        name: "warning".to_owned(),
        style: Style { color: Some(Hue::Yellow), bold: true },
    };
    proof {
        reveal_strlit("warning");
        assert(no_esc("warning"@));
    }
    Text::make(&label, message)
}

/// Debug your code with style: a bold blue debug message.
pub fn debug(message: &str) -> (t: Text)
    ensures
        no_esc(message@) ==> ansi_wf(t@) && strip_ansi(t@) == labeled("debug"@, message@),
{
    let label = Label {
        name: "debug".to_owned(),
        style: Style { color: Some(Hue::Blue), bold: true },
    };
    proof {
        reveal_strlit("debug");
        assert(no_esc("debug"@));
    }
    Text::make(&label, message)
}

/// Returns a bright-red error message that draws attention.
pub fn error(message: &str) -> (t: Error)
    ensures
        no_esc(message@) ==> ansi_wf(t@) && strip_ansi(t@) == labeled("error"@, message@),
{
    let label = Label { name: "error".to_owned(), style: Style { color: Some(Hue::Red), bold: true } };
    proof {
        reveal_strlit("error");
        assert(no_esc("error"@));
    }
    Text::make(&label, message)
}

/// Turns any result with a textual error into `Result<O, Error>`: a success
/// value passes through unchanged, and a failure becomes the `error` label
/// on the failure's own text. This lets callers propagate foreign errors as
/// one labeled-message error type.
pub fn into<O>(result: Result<O, String>) -> (r: Result<O, Error>)
    ensures
        result is Ok <==> r is Ok,
        result matches Ok(v) ==> r matches Ok(w) && w == v,
        result matches Err(e) ==> r matches Err(t) && (no_esc(e@) ==> ansi_wf(t@) && strip_ansi(t@)
            == labeled("error"@, e@)),
{
    match result {
        Ok(o) => Ok(o),
        Err(e) => Err(error(e.as_str())),
    }
}

/// The plain form of a labeled message splits back into its parts: the
/// prefix of length `name.len() + 2` is the name followed by the colon and
/// the space, whatever the message is, and the rest is the message itself.
/// So two messages under one label share the label prefix and keep their
/// own message suffix.
pub proof fn lemma_labeled_parts(name: Seq<char>, message: Seq<char>)
    ensures
        labeled(name, message).len() == name.len() + 2 + message.len(),
        labeled(name, message).take(name.len() as int + 2) == name + seq![':', ' '],
        labeled(name, message).skip(name.len() as int + 2) == message,
{
    assert(labeled(name, message).take(name.len() as int + 2) =~= name + seq![':', ' ']);
    assert(labeled(name, message).skip(name.len() as int + 2) =~= message);
}

/// Different messages under one label give different labeled texts.
pub proof fn lemma_labeled_keeps_messages_apart(name: Seq<char>, m1: Seq<char>, m2: Seq<char>)
    requires
        m1 != m2,
    ensures
        labeled(name, m1) != labeled(name, m2),
{
    lemma_labeled_parts(name, m1);
    lemma_labeled_parts(name, m2);
    assert(labeled(name, m1).skip(name.len() as int + 2) == m1);
    assert(labeled(name, m2).skip(name.len() as int + 2) == m2);
}

} // verus!
