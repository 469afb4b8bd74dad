//! Views of the fallible texts that cross the library's boundary.

use vstd::prelude::*;

verus! {

/// The views of a text result: of the text on success, of the message on
/// failure.
pub open spec fn text_result(r: Result<String, String>) -> Result<Seq<char>, Seq<char>> {
    match r {
        Ok(text) => Ok(text@),
        Err(message) => Err(message@),
    }
}

} // verus!
