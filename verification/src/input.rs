//! Line editing over raw key events.
//!
//! The terminal delivers one key event at a time; the binary reads them
//! and echoes, while the step below carries the editing rule: printable
//! characters append to the buffer, the enter key finishes the line, and
//! everything else leaves the buffer alone.

use vstd::prelude::*;

verus! {

/// One key event, as the line editor sees it.
#[derive(Clone, Copy, Debug, PartialEq, Eq, Structural)]
pub enum LineEvent {
    /// A printable character was pressed.
    Char(char),
    /// The enter key was pressed.
    Enter,
    /// Any other key.
    Other,
}

/// Relies on std `String::push`.
#[verifier::external_body]
fn push_char(s: &mut String, c: char)
    ensures
        final(s)@ == old(s)@.push(c),
{
    s.push(c);
}

/// Feeds one key event into the line buffer. The returned flag says the
/// line is finished.
pub fn line_step(buf: String, ev: &LineEvent) -> (r: (String, bool))
    ensures
        ev matches LineEvent::Char(c) ==> r.0@ == buf@.push(*c) && !r.1,
        ev is Enter ==> r.0@ == buf@ && r.1,
        ev is Other ==> r.0@ == buf@ && !r.1,
{
    match ev {
        LineEvent::Char(c) => {
            let mut out = buf;
            push_char(&mut out, *c);
            (out, false)
        },
        LineEvent::Enter => (buf, true),
        LineEvent::Other => (buf, false),
    }
}

} // verus!
