//! Configuration for text inputs bound to a `Value<String>`.

use vstd::prelude::*;

verus! {

/// Labels for an input whose edits are applied by a button press.
pub struct InputWithButtonParams {
    pub button_label: String,
}

impl Default for InputWithButtonParams {
    /// The button reads "OK".
    fn default() -> (r: Self)
        ensures
            r.button_label@ == "OK"@,
    {
        InputWithButtonParams { button_label: "OK".to_owned() }
    }
}

} // verus!
