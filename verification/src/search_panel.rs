//! Configuration for a panel that takes a query and loads a result.

use vstd::prelude::*;

verus! {

/// What a loaded search result can tell the panel: whether it is empty, so
/// the panel can show its empty-state text.
pub trait SearchResult {
    fn is_empty(&self) -> bool;
}

impl<T> SearchResult for Vec<T> {
    fn is_empty(&self) -> bool {
        self.len() == 0
    }
}

/// Behaviour and labels of the search panel.
pub struct SearchPanelParams {
    pub min_chars: usize,
    pub prompt: String,
    pub hint: String,
    pub loading_text: String,
    pub empty_text: String,
}

impl Default for SearchPanelParams {
    /// Searches start at three letters, with plain English texts.
    fn default() -> (r: Self)
        ensures
            r.min_chars == 3,
            r.prompt@ == "Search: "@,
            r.hint@ == "Enter at least {min_chars} letters"@,
            r.loading_text@ == "Loading..."@,
            r.empty_text@ == "No results"@,
    {
        SearchPanelParams {
            min_chars: 3,
            prompt: "Search: ".to_owned(),
            hint: "Enter at least {min_chars} letters".to_owned(),
            loading_text: "Loading...".to_owned(),
            empty_text: "No results".to_owned(),
        }
    }
}

} // verus!
