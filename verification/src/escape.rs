//! Escape sequences in a delimiter, read by the `unescaper` crate.
//!
//! What `unescaper` does is taken on trust here, not proved: the three items
//! that stand for it say what its source shows, and everything else in the
//! library is proved from them.

use crate::failure::Failure;
use vstd::prelude::*;

verus! {

/// The error of `unescaper`, `unescaper::Error`: where in a text an escape
/// sequence could not be read, and why. Nothing is said of what it holds.
#[verifier::external_type_specification]
#[verifier::external_body]
pub struct ExUnescapeError(unescaper::Error);

/// What `unescaper::unescape` makes of a text: the text with every escape
/// sequence replaced by the character that it stands for, or nothing where a
/// sequence cannot be read. The function reads its argument and nothing else,
/// so one text always gives one result.
pub uninterp spec fn unescaped(s: Seq<char>) -> Option<Seq<char>>;

/// Calls `unescaper::unescape`. The contract claims two things of it: that
/// its result is `unescaped` of the text, success and failure alike; and that
/// a text without a backslash comes back unchanged, since the function copies
/// every character that is not a backslash as it is.
#[verifier::external_body]
fn unescape(s: &str) -> (r: Result<String, unescaper::Error>)
    ensures
        match r {
            Ok(t) => unescaped(s@) == Some(t@),
            Err(_) => unescaped(s@) is None,
        },
        !s@.contains('\\') ==> r is Ok && r->Ok_0@ == s@,
{
    unescaper::unescape(s)
}

/// Reads the escape sequences of a delimiter.
pub fn unescape_delimiter(delimiter: &str) -> (r: Result<String, Failure>)
    ensures
        match r {
            Ok(t) => unescaped(delimiter@) == Some(t@),
            Err(e) => unescaped(delimiter@) is None && e is InvalidDelimiter,
        },
        !delimiter@.contains('\\') ==> r is Ok && r->Ok_0@ == delimiter@,
{
    match unescape(delimiter) {
        Ok(t) => Ok(t),
        Err(_) => Err(Failure::InvalidDelimiter),
    }
}

} // verus!
