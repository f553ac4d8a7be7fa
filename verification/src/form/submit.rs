//! The submission coordinator: on submit the form is exported atomically, an
//! optional host validator inspects the candidate model, and only when
//! validation allows it is the host's submit handler invoked — exactly once.

use std::rc::Rc;
use vstd::prelude::*;

use crate::form::data::{export_reflects, FormData};
use crate::form::export::FormExport;
use crate::text::str_eq;
use crate::ValidationErrors;

verus! {

/// The observable status of a submission, kept in a cell the host and the
/// renderer share. The coordinator only ever moves it to `Saving`; the host's
/// persistence logic owns the final `Success` or `Error` step.
#[derive(Clone, Debug)]
pub enum Operation {
    /// No submission has been attempted yet.
    Idle,
    Saving,
    Success,
    Error(Rc<String>),
}

impl PartialEq for Operation {
    fn eq(&self, other: &Self) -> (r: bool) {
        match (self, other) {
            (Operation::Idle, Operation::Idle) => true,
            (Operation::Saving, Operation::Saving) => true,
            (Operation::Success, Operation::Success) => true,
            (Operation::Error(a), Operation::Error(b)) => str_eq(a.as_str(), b.as_str()),
            _ => false,
        }
    }
}

impl vstd::std_specs::cmp::PartialEqSpecImpl for Operation {
    open spec fn obeys_eq_spec() -> bool {
        true
    }

    open spec fn eq_spec(&self, other: &Operation) -> bool {
        match (self, other) {
            (Operation::Idle, Operation::Idle) => true,
            (Operation::Saving, Operation::Saving) => true,
            (Operation::Success, Operation::Success) => true,
            (Operation::Error(a), Operation::Error(b)) => a@ == b@,
            _ => false,
        }
    }
}

impl Default for Operation {
    /// No submission has been attempted yet.
    fn default() -> (r: Self)
        ensures
            r is Idle,
    {
        Operation::Idle
    }
}

impl Operation {
    /// An error status carrying a message for the renderer.
    pub fn err(message: &str) -> (r: Self)
        ensures
            r matches Operation::Error(m) && m@ == message@,
    {
        Operation::Error(Rc::new(message.to_owned()))
    }
}

/// What one `submit` run did: the sealed export it produced, what the
/// validator said (absent when none is registered), and whether the host's
/// submit handler was invoked.
pub struct SubmitReport {
    pub export: FormExport,
    pub validation: Option<bool>,
    pub submitted: bool,
}

/// What the host supplies around a form: the optional validator and the
/// submit handler that receives the accepted model.
pub trait FormHost<T: From<FormExport>> {
    /// Whether a validator is registered for this form.
    fn has_validator(&self) -> bool;

    /// Inspects a candidate model and may record messages; returning false
    /// blocks the submission.
    fn validate(&mut self, candidate: &T, errors: &mut ValidationErrors) -> bool;

    /// Receives the accepted model; invoked at most once per submission.
    fn on_submit(&mut self, model: T);
}

/// Runs one submission: marks the operation cell `Saving`, exports the whole
/// form in one atomic snapshot, converts the export into the host's model,
/// consults the validator if one is registered, and hands the model to the
/// host's submit handler exactly when validation did not refuse. The
/// operation cell is deliberately not moved out of `Saving` on a refusal:
/// the host owns every later status change.
pub fn submit<T: From<FormExport>, H: FormHost<T>>(
    form: &FormData,
    operation: &vertigo::Value<Operation>,
    errors: &mut ValidationErrors,
    host: &mut H,
) -> (r: SubmitReport)
    ensures
        export_reflects(*form, r.export),
        r.submitted <==> r.validation != Some(false),
        r.validation is None ==> *final(errors) == *old(errors),
{
    operation.set(Operation::Saving);
    let export = form.export();
    let candidate = T::from(export.clone());
    let validation = if host.has_validator() {
        Some(host.validate(&candidate, errors))
    } else {
        None
    };
    let submitted = match validation {
        Some(false) => false,
        _ => true,
    };
    if submitted {
        host.on_submit(candidate);
    }
    SubmitReport { export, validation, submitted }
}

} // verus!
