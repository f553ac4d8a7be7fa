//! Configuration for a toggle control bound to a `Value<bool>`.

use vstd::prelude::*;

verus! {

/// How the toggle presents itself.
pub enum DisplayType {
    Button,
    CheckBox,
}

/// Behaviour and labels of a toggle control.
pub struct SwitchParams {
    pub display_type: DisplayType,
    pub on_symbol: String,
    pub off_symbol: String,
}

impl Default for SwitchParams {
    /// A button toggle labelled ON/OFF.
    fn default() -> (r: Self)
        ensures
            r.display_type is Button,
            r.on_symbol@ == "ON"@,
            r.off_symbol@ == "OFF"@,
    {
        SwitchParams {
            display_type: DisplayType::Button,
            on_symbol: "ON".to_owned(),
            off_symbol: "OFF".to_owned(),
        }
    }
}

impl SwitchParams {
    /// A checkbox toggle: the state is shown by the box itself, so both
    /// symbols stay empty.
    pub fn checkbox() -> (r: Self)
        ensures
            r.display_type is CheckBox,
            r.on_symbol@.len() == 0,
            r.off_symbol@.len() == 0,
    {
        SwitchParams {
            display_type: DisplayType::CheckBox,
            on_symbol: String::new(),
            off_symbol: String::new(),
        }
    }
}

} // verus!
