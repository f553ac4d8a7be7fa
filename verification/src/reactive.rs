//! Trusted declarations for the reactive layer and the browser-facing types
//! that field metadata carries.
//!
//! A cell's current contents depend on what the bound editor last wrote, so
//! nothing is assumed about the value a read returns: every caller is verified
//! for all possible outcomes.

use vstd::prelude::*;

verus! {

/// vertigo's writable reactive cell. A value of it is opaque here; its `get`
/// and `set` carry contracts below.
#[verifier::external_type_specification]
#[verifier::external_body]
#[verifier::reject_recursive_types(T)]
pub struct ExValue<T: Clone + PartialEq + 'static>(vertigo::Value<T>);

/// vertigo's read-only derived cell, recomputed from its source cells on demand.
#[verifier::external_type_specification]
#[verifier::external_body]
#[verifier::reject_recursive_types(T)]
pub struct ExComputed<T: Clone + PartialEq + 'static>(vertigo::Computed<T>);

/// vertigo's tracking context, handed to every cell read inside a transaction.
#[verifier::external_type_specification]
#[verifier::external_body]
pub struct ExContext(vertigo::Context);

/// vertigo's CSS style bundle; carried through as a rendering hint only.
#[verifier::external_type_specification]
#[verifier::external_body]
pub struct ExCss(vertigo::Css);

/// vertigo's dropped-file payload: a file name and its bytes.
#[verifier::external_type_specification]
pub struct ExDropFileItem(vertigo::DropFileItem);

/// Relies on vertigo's `Value::new`: creates a fresh cell holding `value`.
pub assume_specification<T: Clone + PartialEq + 'static>[ vertigo::Value::<T>::new ](
    value: T,
) -> vertigo::Value<T>;

/// Relies on vertigo's `Value::get`: returns the cell's current contents.
/// What a read returns depends on earlier writes, so no more is assumed.
pub assume_specification<T: Clone + PartialEq + 'static>[ vertigo::Value::<T>::get ](
    v: &vertigo::Value<T>,
    ctx: &vertigo::Context,
) -> T;

/// Relies on vertigo's `Value::set`: replaces the cell's contents.
pub assume_specification<T: Clone + PartialEq + 'static>[ vertigo::Value::<T>::set ](
    v: &vertigo::Value<T>,
    value: T,
);

/// Relies on `Rc::clone`: the clone points at the same allocation, so it
/// equals the original.
#[verifier::external_body]
pub(crate) fn rc_clone<T>(v: &std::rc::Rc<T>) -> (r: std::rc::Rc<T>)
    ensures
        r == *v,
{
    std::rc::Rc::clone(v)
}

/// Relies on vertigo's derived `Clone` for `DropFileItem`: the name string is
/// copied and the data `Rc` is shared, so the clone equals the original.
pub assume_specification[ <vertigo::DropFileItem as Clone>::clone ](
    v: &vertigo::DropFileItem,
) -> (r: vertigo::DropFileItem)
    ensures
        r == *v,
;

/// Relies on vertigo's `DropFileItem::new`: stores the name and the bytes.
pub assume_specification[ vertigo::DropFileItem::new ](name: String, data: Vec<u8>) -> (r:
    vertigo::DropFileItem)
    ensures
        r.name == name,
        r.data@ == data@,
;

/// Relies on vertigo's `Computed::from`: a derived cell whose compute closure
/// always yields a clone of `options`.
#[verifier::external_body]
pub(crate) fn list_options(options: Vec<String>) -> vertigo::Computed<Vec<String>> {
    vertigo::Computed::from(move |_ctx| options.clone())
}

/// Relies on vertigo's `Computed::from`: a derived cell whose compute closure
/// always yields a clone of `options`.
#[verifier::external_body]
pub(crate) fn dict_options(options: Vec<crate::form::field::DictOption>) -> vertigo::Computed<
    Vec<crate::form::field::DictOption>,
> {
    vertigo::Computed::from(move |_ctx| options.clone())
}

} // verus!
