use vstd::prelude::*;
use tui_input::{Input, InputRequest};

verus! {

/// One editing request on a line of text.
#[derive(Clone, Copy, Debug, PartialEq, Eq, Structural)]
pub enum Edit {
    /// Insert a character at the cursor and move past it.
    InsertChar(char),
    /// Delete the character before the cursor.
    DeletePrevChar,
    /// Delete the character under the cursor.
    DeleteNextChar,
    /// Move the cursor one character back.
    GoToPrevChar,
    /// Move the cursor one character forward.
    GoToNextChar,
}

/// The text and cursor that result from applying `e` to `value` with the
/// cursor at `cursor` (a character index).
pub open spec fn edited(value: Seq<char>, cursor: nat, e: Edit) -> (Seq<char>, nat) {
    match e {
        Edit::InsertChar(c) => (value.take(cursor as int) + seq![c] + value.skip(cursor as int), cursor + 1),
        Edit::DeletePrevChar => if cursor == 0 {
            (value, cursor)
        } else {
            (value.remove(cursor - 1), (cursor - 1) as nat)
        },
        Edit::DeleteNextChar => if cursor >= value.len() {
            (value, cursor)
        } else {
            (value.remove(cursor as int), cursor)
        },
        Edit::GoToPrevChar => if cursor == 0 {
            (value, cursor)
        } else {
            (value, (cursor - 1) as nat)
        },
        Edit::GoToNextChar => if cursor >= value.len() {
            (value, cursor)
        } else {
            (value, cursor + 1)
        },
    }
}

/// `edited`, except that an insertion with the cursor at the largest index
/// leaves the line as it is.
pub open spec fn apply_edit(value: Seq<char>, cursor: nat, e: Edit) -> (Seq<char>, nat) {
    if e is InsertChar && cursor >= usize::MAX {
        (value, cursor)
    } else {
        edited(value, cursor, e)
    }
}

/// Relies on tui_input's `Input::handle` (with `Input::new`, `with_cursor`,
/// `value` and `cursor` to carry the text in and out): each request edits the
/// text and moves the cursor as `edited` states.
#[verifier::external_body]
fn handle_request(value: String, cursor: usize, e: Edit) -> (r: (String, usize))
    requires
        cursor <= value@.len(),
        e is InsertChar ==> cursor < usize::MAX,
    ensures
        (r.0@, r.1 as nat) == edited(value@, cursor as nat, e),
{
    let req = match e {
        Edit::InsertChar(c) => InputRequest::InsertChar(c),
        Edit::DeletePrevChar => InputRequest::DeletePrevChar,
        Edit::DeleteNextChar => InputRequest::DeleteNextChar,
        Edit::GoToPrevChar => InputRequest::GoToPrevChar,
        Edit::GoToNextChar => InputRequest::GoToNextChar,
    };
    let mut input = Input::new(value).with_cursor(cursor);
    input.handle(req);
    (input.value().to_string(), input.cursor())
}

/// A line of free text with a cursor, given as a character index.
#[derive(Debug)]
pub struct TextInput {
    pub value: String,
    pub cursor: usize,
}

impl TextInput {
    /// The cursor lies within the text or just past its end.
    pub open spec fn wf(&self) -> bool {
        self.cursor <= self.value@.len()
    }

    /// An empty line.
    pub fn new() -> (r: TextInput)
        ensures
            r.wf(),
            r.value@ == Seq::<char>::empty(),
            r.cursor == 0,
    {
        TextInput { value: String::new(), cursor: 0 }
    }

    /// A line holding `value`, with the cursor at its end.
    pub fn with_value(value: String) -> (r: TextInput)
        ensures
            r.wf(),
            r.value@ == value@,
            r.cursor == value@.len(),
    {
        let cursor = value.as_str().unicode_len();
        TextInput { value, cursor }
    }

    /// Applies one editing request.
    pub fn handle(&mut self, e: Edit)
        requires
            old(self).wf(),
        ensures
            final(self).wf(),
            (final(self).value@, final(self).cursor as nat) == apply_edit(old(self).value@, old(self).cursor as nat, e),
    {
        if let Edit::InsertChar(_) = e {
            if self.cursor == usize::MAX {
                return;
            }
        }
        let value = self.value.clone();
        let (v, c) = handle_request(value, self.cursor, e);
        self.value = v;
        self.cursor = c;
    }

    /// Empties the line.
    pub fn reset(&mut self)
        ensures
            final(self).wf(),
            final(self).value@ == Seq::<char>::empty(),
            final(self).cursor == 0,
    {
        self.value = String::new();
        self.cursor = 0;
    }
}

} // verus!
