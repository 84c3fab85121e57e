//! The terminal toolkit's input line, as far as the chat reads it.
//!
//! An input line is a value of `tui_input::Input`: a text and a cursor, with
//! editing rules of its own. Nothing here looks inside one. The text and the
//! cursor have a name each, and the few calls that the chat makes are stated
//! over those names; what an edit does to a line is left open.

use vstd::prelude::*;

verus! {

/// The input line of `tui_input`. Opaque: only the functions below read it.
#[verifier::external_type_specification]
#[verifier::external_body]
pub struct ExInput(tui_input::Input);

/// One edit of an input line, as `tui_input` names it. Opaque: it is handed
/// on to the line unread.
#[verifier::external_type_specification]
#[verifier::external_body]
pub struct ExInputRequest(tui_input::InputRequest);

/// The text that an input line holds: what `Input::value` returns.
pub uninterp spec fn input_text(input: tui_input::Input) -> Seq<char>;

/// The number of characters before the cursor of an input line: what
/// `Input::cursor` returns.
pub uninterp spec fn input_cursor(input: tui_input::Input) -> nat;

/// `Input::from(&str)`: a line that holds `text`, with the cursor behind its
/// last character.
#[verifier::external_body]
pub(crate) fn line_from(text: &str) -> (input: tui_input::Input)
    ensures
        input_text(input) == text@,
        input_cursor(input) == text@.len(),
{
    tui_input::Input::from(text)
}

/// `Input::value`: the text of the line.
#[verifier::external_body]
pub(crate) fn line_value<'a>(input: &'a tui_input::Input) -> (text: &'a str)
    ensures
        text@ == input_text(*input),
{
    input.value()
}

/// `Input::cursor`: the number of characters before the cursor.
#[verifier::external_body]
pub(crate) fn line_cursor(input: &tui_input::Input) -> (cursor: usize)
    ensures
        cursor == input_cursor(*input),
{
    input.cursor()
}

/// `Input::handle`: applies one edit to the line. What the line holds
/// afterwards is the toolkit's business; nothing is claimed of it.
#[verifier::external_body]
pub(crate) fn line_handle(input: &mut tui_input::Input, request: tui_input::InputRequest) {
    let _ = input.handle(request);
}

} // verus!
