//! The commands that a client may have executed.

use vstd::prelude::*;

use crate::text::{same_text, texts};

verus! {

/// The answer to a request that the server does not know.
#[derive(Debug, PartialEq, Eq, Structural, Clone, Copy)]
pub struct InvalidRequest;

/// Which of the known commands a request names: the first one with its name.
pub fn find_command(known: &Vec<String>, command: &str) -> (found: Result<usize, InvalidRequest>)
    ensures
        found is Err <==> !texts(known@).contains(command@),
        found matches Ok(i) ==> {
            &&& i < known@.len()
            &&& texts(known@)[i as int] == command@
            &&& forall|j: int| 0 <= j < i ==> texts(known@)[j] != command@
        },
{
    let mut i: usize = 0;
    while i < known.len()
        invariant
            i <= known.len(),
            forall|j: int| 0 <= j < i ==> texts(known@)[j] != command@,
        decreases known.len() - i,
    {
        assert(texts(known@)[i as int] == known@[i as int]@);
        if same_text(known[i].as_str(), command) {
            return Ok(i);
        }
        i += 1;
    }
    Err(InvalidRequest)
}

} // verus!
