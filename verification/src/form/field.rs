//! The closed set of field kinds. Each non-static kind owns exactly one
//! observable cell with its current edited value, plus immutable metadata:
//! the baseline value from construction time and, for choice kinds, the
//! option source.

use std::collections::HashMap;
use std::rc::Rc;
use vstd::prelude::*;

use crate::form::export::FieldExport;
use crate::reactive::rc_clone;

verus! {

/// A plain text field.
pub struct StringValue {
    pub value: vertigo::Value<String>,
    pub original_value: Rc<String>,
}

/// A multi-line text field with optional geometry hints.
pub struct TextAreaValue {
    pub value: vertigo::Value<String>,
    pub original_value: Option<Rc<String>>,
    pub rows: Option<i32>,
    pub cols: Option<i32>,
}

/// A string choice from a list of options.
pub struct ListValue {
    pub value: vertigo::Value<String>,
    pub original_value: Option<Rc<String>>,
    pub options: vertigo::Computed<Vec<String>>,
}

/// One selectable reference in a dict field: an id and its label.
#[derive(Clone, PartialEq)]
pub struct DictOption {
    pub id: i64,
    pub label: String,
}

/// An integer reference choice with a label for each id.
pub struct DictValue {
    pub value: vertigo::Value<i64>,
    pub original_value: Option<Rc<i64>>,
    pub options: vertigo::Computed<Vec<DictOption>>,
}

/// An ordered list of integer references, each in its own cell.
pub struct MultiValue {
    pub value: vertigo::Value<Vec<vertigo::Value<i64>>>,
    pub original_value: Rc<Vec<i64>>,
    pub options: vertigo::Computed<HashMap<i64, String>>,
    pub add_label: Rc<String>,
}

/// A checkbox.
pub struct BoolValue {
    pub value: vertigo::Value<bool>,
    pub original_value: Option<Rc<bool>>,
}

/// An image: a cell for a newly dropped payload, plus the immutable link the
/// image originally came from, if any.
pub struct ImageValue {
    pub value: vertigo::Value<Option<vertigo::DropFileItem>>,
    pub original_link: Option<Rc<String>>,
}

/// A string-backed field rendered by a host-supplied widget.
pub struct CustomValue {
    pub value: vertigo::Value<String>,
    pub original_value: Option<Rc<String>>,
}

/// The value of a field: a closed variant type, one case per field kind.
pub enum DataFieldValue {
    /// Regular string field.
    String(StringValue),
    /// Textarea string field.
    TextArea(TextAreaValue),
    /// String field with options.
    List(ListValue),
    /// Integer (foreign key) field with labels for each integer.
    Dict(DictValue),
    /// Array of integers (foreign key) field with labels for each integer.
    Multi(MultiValue),
    /// Checkbox.
    Bool(BoolValue),
    /// Image (bytes) field.
    Image(ImageValue),
    /// Custom string-backed field.
    Custom(CustomValue),
    /// Custom component without a value of its own.
    StaticCustom,
}

/// The 1:1 correspondence between field kinds and export cases: string-backed
/// kinds export a string, every other kind exports its own case.
pub open spec fn matches_kind(fv: DataFieldValue, e: FieldExport) -> bool {
    match fv {
        DataFieldValue::String(_) => e is String,
        DataFieldValue::TextArea(_) => e is String,
        DataFieldValue::List(_) => e is List,
        DataFieldValue::Dict(_) => e is Dict,
        DataFieldValue::Multi(_) => e is Multi,
        DataFieldValue::Bool(_) => e is Bool,
        DataFieldValue::Image(_) => e is Image,
        DataFieldValue::Custom(_) => e is String,
        DataFieldValue::StaticCustom => e is String,
    }
}

/// Everything an export of a field guarantees whatever its cells hold: the
/// export case matches the field kind; an image export carries the field's
/// original link unchanged; a static field exports the empty placeholder
/// string rather than omitting its key.
pub open spec fn export_consistent(fv: DataFieldValue, e: FieldExport) -> bool {
    &&& matches_kind(fv, e)
    &&& (fv matches DataFieldValue::Image(v) ==> (e matches FieldExport::Image(pair) && pair.0
        == v.original_link))
    &&& (fv is StaticCustom ==> (e matches FieldExport::String(s) && s@.len() == 0))
}

impl DataFieldValue {
    /// Exports the field's current value, reading every cell through the
    /// shared snapshot context. Exhaustive over all kinds: the result's case
    /// always matches the field's kind.
    pub fn export(&self, ctx: &vertigo::Context) -> (r: FieldExport)
        ensures
            export_consistent(*self, r),
    {
        match self {
            Self::String(val) => FieldExport::String(val.value.get(ctx)),
            Self::TextArea(val) => FieldExport::String(val.value.get(ctx)),
            Self::List(val) => FieldExport::List(val.value.get(ctx)),
            Self::Dict(val) => FieldExport::Dict(val.value.get(ctx)),
            Self::Multi(val) => {
                let refs = val.value.get(ctx);
                let mut ids: Vec<i64> = Vec::new();
                let n: usize = refs.len();
                let mut i: usize = 0;
                while i < n
                    invariant
                        i <= n,
                        n == refs@.len(),
                    decreases n - i,
                {
                    ids.push(refs[i].get(ctx));
                    i += 1;
                }
                FieldExport::Multi(ids)
            },
            Self::Bool(val) => FieldExport::Bool(val.value.get(ctx)),
            Self::Image(val) => {
                let link = match &val.original_link {
                    Some(l) => Some(rc_clone(l)),
                    None => None,
                };
                FieldExport::Image((link, val.value.get(ctx)))
            },
            Self::Custom(val) => FieldExport::String(val.value.get(ctx)),
            Self::StaticCustom => FieldExport::String(String::new()),
        }
    }
}

} // verus!
