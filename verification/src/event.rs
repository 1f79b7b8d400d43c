//! The payload announced to the surrounding application when the edited file
//! changes.

use vstd::prelude::*;

verus! {

/// A change of the viewed file: the grammar text and the sample input text
/// that belong to it.
pub struct ChangeFileEvent {
    pub grammar: String,
    pub input: String,
}

impl ChangeFileEvent {
    /// An event carrying the given grammar and input texts.
    pub fn new(grammar: String, input: String) -> (r: ChangeFileEvent)
        ensures
            r.grammar == grammar,
            r.input == input,
    {
        ChangeFileEvent { grammar, input }
    }
}

} // verus!
