use crate::log::UI;
use vstd::prelude::*;

verus! {

/// A keyboard event, reduced to what the log's input handling tells apart.
#[derive(Debug, Clone, Copy, PartialEq, Eq, Structural)]
pub enum KeyInput {
    /// A printable character key.
    Char(char),
    Backspace,
    Enter,
    /// Any other key, or an event that is no key press.
    Other,
}

/// What the caller does after the editor took one event.
#[derive(Debug, Clone, PartialEq, Eq)]
pub enum EditAction {
    /// The buffer changed: echo it on the input row.
    Echo,
    /// Nothing changed: wait for the next event.
    Ignore,
    /// Input is complete; it holds the line, and the buffer is empty again.
    Submit(String),
}

/// The buffer after `ev`: a character is appended, backspace removes the
/// last character (if any), enter empties it, anything else leaves it.
pub open spec fn edited(buf: Seq<char>, ev: KeyInput) -> Seq<char> {
    match ev {
        KeyInput::Char(c) => buf.push(c),
        KeyInput::Backspace => if buf.len() > 0 {
            buf.drop_last()
        } else {
            buf
        },
        KeyInput::Enter => Seq::empty(),
        KeyInput::Other => buf,
    }
}

/// Relies on String::push: appends `c` at the end of `s`.
#[verifier::external_body]
fn push_char(s: &mut String, c: char)
    ensures
        final(s)@ == old(s)@.push(c),
{
    s.push(c)
}

/// Relies on String::pop: removes and returns the last character of `s`, and
/// returns `None`, leaving `s` alone, when `s` is empty.
#[verifier::external_body]
fn pop_char(s: &mut String) -> (r: Option<char>)
    ensures
        old(s)@.len() == 0 ==> r is None && final(s)@ == old(s)@,
        old(s)@.len() > 0 ==> r == Some(old(s)@.last()) && final(s)@ == old(s)@.drop_last(),
{
    s.pop()
}

/// A line being typed, one keyboard event at a time.
pub struct LineEditor {
    buffer: String,
}

impl View for LineEditor {
    type V = Seq<char>;

    closed spec fn view(&self) -> Seq<char> {
        self.buffer@
    }
}

impl LineEditor {
    /// An editor with an empty line.
    pub fn new() -> (r: LineEditor)
        ensures
            r@.len() == 0,
    {
        LineEditor { buffer: String::new() }
    }

    /// The line typed so far.
    pub fn text(&self) -> (r: &String)
        ensures
            r@ == self@,
    {
        &self.buffer
    }

    /// Takes one keyboard event and says what to do next.
    pub fn step(&mut self, ev: KeyInput) -> (r: EditAction)
        ensures
            final(self)@ == edited(old(self)@, ev),
            match ev {
                KeyInput::Char(_) => r == EditAction::Echo,
                KeyInput::Backspace => r == EditAction::Echo,
                KeyInput::Enter => r is Submit && r->Submit_0@ == old(self)@,
                KeyInput::Other => r == EditAction::Ignore,
            },
    {
        match ev {
            KeyInput::Char(c) => {
                push_char(&mut self.buffer, c);
                EditAction::Echo
            },
            KeyInput::Backspace => {
                let _ = pop_char(&mut self.buffer);
                EditAction::Echo
            },
            KeyInput::Enter => {
                let line = self.buffer.clone();
                self.buffer = String::new();
                EditAction::Submit(line)
            },
            KeyInput::Other => EditAction::Ignore,
        }
    }
}

impl UI {
    /// Whether `pending`, the event found when the keyboard was polled
    /// (`None` when nothing was waiting), is a press of `key`. A pending event
    /// of any other kind counts as no.
    pub fn key(key: char, pending: Option<KeyInput>) -> (r: bool)
        ensures
            r == (pending == Some(KeyInput::Char(key))),
            pending is None ==> !r,
    {
        match pending {
            Some(KeyInput::Char(k)) => k == key,
            _ => false,
        }
    }
}

} // verus!
