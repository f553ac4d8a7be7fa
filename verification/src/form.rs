//! The form core: field kinds bound to observable cells, section and tab
//! assembly, the atomic export pipeline, and the submission coordinator.

pub mod data;
pub mod export;
pub mod field;
pub mod submit;

pub use data::{ControlsConfig, DataField, DataSection, FieldsetStyle, FormData};
pub use export::{FieldExport, FormExport};
pub use field::{
    BoolValue, CustomValue, DataFieldValue, DictOption, DictValue, ImageValue, ListValue,
    MultiValue, StringValue, TextAreaValue,
};
pub use submit::{submit, FormHost, Operation, SubmitReport};
