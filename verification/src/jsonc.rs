use vstd::prelude::*;
use crate::settings::opt_view;

verus! {

/// What `json_strip_comments::strip` leaves of `text`: the text with its
/// comments and trailing commas blanked out, or `None` where it refuses the
/// text (a `/` that starts no comment).
pub uninterp spec fn json_comments_stripped(text: Seq<char>) -> Option<Seq<char>>;

/// Text in which neither a comment nor a trailing comma can begin: it holds
/// no `/`, `#` or `,`.
pub open spec fn plain_json(text: Seq<char>) -> bool {
    forall|i: int| 0 <= i < text.len() ==> text[i] != '/' && text[i] != '#' && text[i] != ','
}

/// Why a data file could not be read.
#[derive(Clone, Copy, Debug, PartialEq, Eq, Structural)]
pub enum DataError {
    /// A `/` that begins neither a line comment nor a block comment.
    MalformedComment,
}

/// Calls `json_strip_comments::strip` on `text`. The contract says that the
/// result is the named result of that call, and, as the crate's state
/// machine shows, that text without `/`, `#` and `,` comes back unchanged:
/// such text never leaves the top and string states, which change no byte
/// and raise no error.
#[verifier::external_body]
fn strip_in_place(text: String) -> (r: Option<String>)
    ensures
        opt_view(r) == json_comments_stripped(text@),
        plain_json(text@) ==> opt_view(r) == Some(text@),
{
    let mut text = text;
    match json_strip_comments::strip(&mut text) {
        Ok(()) => Some(text),
        Err(_) => None,
    }
}

/// Prepares the text of a data file (marker, timer, shader or object
/// descriptions) for the JSON parser: comments and trailing commas are
/// blanked out.
pub fn strip_comments(text: String) -> (r: Result<String, DataError>)
    ensures
        match json_comments_stripped(text@) {
            Some(s) => r matches Ok(t) && t@ == s,
            None => r == Err::<String, DataError>(DataError::MalformedComment),
        },
        plain_json(text@) ==> (r matches Ok(t) && t@ == text@),
{
    match strip_in_place(text) {
        Some(t) => Ok(t),
        None => Err(DataError::MalformedComment),
    }
}

} // verus!
