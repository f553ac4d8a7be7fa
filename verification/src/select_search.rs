//! Configuration for an input that searches within a fixed option list.

use vstd::prelude::*;

verus! {

/// Behaviour of the searchable select.
pub struct SelectSearchParams {
    pub min_chars: usize,
    pub input_title: String,
}

impl Default for SelectSearchParams {
    /// The dropdown opens at three letters.
    fn default() -> (r: Self)
        ensures
            r.min_chars == 3,
            r.input_title@ == "Enter phrase"@,
    {
        SelectSearchParams { min_chars: 3, input_title: "Enter phrase".to_owned() }
    }
}

} // verus!
