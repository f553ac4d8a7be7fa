//! A schema-driven form engine: a closed set of field kinds, each bound to an
//! independently observable cell, assembled into sections and tabs, exported
//! atomically into a flat key-to-value map, and read back through typed,
//! default-safe accessors.

use vstd::prelude::*;

pub mod form;
pub mod image;
pub mod input;
pub mod reactive;
pub mod search_panel;
pub mod select_search;
pub mod switch;
pub mod text;

pub use crate::image::{image_as_uri, name_to_mime};
pub use crate::input::InputWithButtonParams;
pub use crate::search_panel::{SearchPanelParams, SearchResult};
pub use crate::select_search::SelectSearchParams;
pub use crate::switch::{DisplayType, SwitchParams};

use crate::text::{blank, is_blank, str_eq};

verus! {

/// A map from field key (or the reserved key `"submit"`) to a human-readable
/// message, filled by a host-supplied validator. A later `insert` for a key
/// shadows an earlier entry for the same key.
pub struct ValidationErrors {
    entries: Vec<(String, String)>,
}

/// The message stored for `key`: the most recently inserted one, if any.
pub open spec fn errors_lookup(entries: Seq<(String, String)>, key: Seq<char>) -> Option<Seq<char>>
    decreases entries.len(),
{
    if entries.len() == 0 {
        None
    } else if entries.last().0@ == key {
        Some(entries.last().1@)
    } else {
        errors_lookup(entries.drop_last(), key)
    }
}

impl ValidationErrors {
    /// The entries as recorded, in insertion order.
    pub closed spec fn entries_view(self) -> Seq<(String, String)> {
        self.entries@
    }

    /// The message stored for `key`, if any.
    pub open spec fn spec_get(self, key: Seq<char>) -> Option<Seq<char>> {
        errors_lookup(self.entries_view(), key)
    }

    /// An empty error map.
    pub fn new() -> (r: Self)
        ensures
            r.entries_view() == Seq::<(String, String)>::empty(),
            forall|k: Seq<char>| r.spec_get(k) is None,
    {
        ValidationErrors { entries: Vec::new() }
    }

    /// Whether no message has been recorded.
    pub fn is_empty(&self) -> (r: bool)
        ensures
            r == (self.entries_view().len() == 0),
    {
        self.entries.len() == 0
    }

    /// Records `message` under `key`, shadowing any earlier message for `key`.
    pub fn insert(&mut self, key: String, message: String)
        ensures
            forall|k: Seq<char>|
                final(self).spec_get(k) == if k == key@ {
                    Some(message@)
                } else {
                    old(self).spec_get(k)
                },
    {
        self.entries.push((key, message));
        proof {
            assert(self.entries@.drop_last() == old(self).entries@);
        }
    }

    /// The message stored for `key`, if any.
    pub fn get<'a>(&'a self, key: &str) -> (r: Option<&'a String>)
        ensures
            r is Some <==> self.spec_get(key@) is Some,
            r matches Some(m) ==> self.spec_get(key@) == Some(m@),
    {
        let n: usize = self.entries.len();
        let mut i: usize = n;
        proof {
            assert(self.entries@.take(n as int) =~= self.entries@);
        }
        while i > 0
            invariant
                i <= n,
                n == self.entries@.len(),
                errors_lookup(self.entries@, key@) == errors_lookup(
                    self.entries@.take(i as int),
                    key@,
                ),
            decreases i,
        {
            i -= 1;
            if str_eq(self.entries[i].0.as_str(), key) {
                proof {
                    assert(self.entries@.take(i + 1).last() == self.entries@[i as int]);
                }
                return Some(&self.entries[i].1);
            }
            proof {
                assert(self.entries@.take(i + 1).drop_last() == self.entries@.take(i as int));
            }
        }
        None
    }
}

/// A value that can be read out of a field's text. Implemented once, below,
/// for everything that parses from a string with a displayable error.
pub trait ParseFromText: Sized {
    /// Parses `value`, or explains in a message why it cannot be parsed.
    fn parse_text(value: &str) -> Result<Self, String>;
}

/// std's error for a failed integer parse; carried only to be displayed.
#[verifier::external_type_specification]
#[verifier::external_body]
pub struct ExParseIntError(core::num::ParseIntError);

/// std's error for a failed bool parse; carried only to be displayed.
#[verifier::external_type_specification]
#[verifier::external_body]
pub struct ExParseBoolError(core::str::ParseBoolError);

/// std's error for a failed char parse; carried only to be displayed.
#[verifier::external_type_specification]
#[verifier::external_body]
pub struct ExParseCharError(core::char::ParseCharError);

/// Relies on str::parse: parses `value` according to `T`'s string format.
/// A failure comes back as the error's display string.
#[verifier::external_body]
fn parse_str<T, E>(value: &str) -> (r: Result<T, String>) where
    T: core::str::FromStr<Err = E>,
    E: core::fmt::Display,
{
    value.parse::<T>().map_err(|e: E| e.to_string())
}

impl ParseFromText for i8 {
    fn parse_text(value: &str) -> Result<Self, String> {
        parse_str(value)
    }
}

impl ParseFromText for i16 {
    fn parse_text(value: &str) -> Result<Self, String> {
        parse_str(value)
    }
}

impl ParseFromText for i32 {
    fn parse_text(value: &str) -> Result<Self, String> {
        parse_str(value)
    }
}

impl ParseFromText for i64 {
    fn parse_text(value: &str) -> Result<Self, String> {
        parse_str(value)
    }
}

impl ParseFromText for i128 {
    fn parse_text(value: &str) -> Result<Self, String> {
        parse_str(value)
    }
}

impl ParseFromText for isize {
    fn parse_text(value: &str) -> Result<Self, String> {
        parse_str(value)
    }
}

impl ParseFromText for u8 {
    fn parse_text(value: &str) -> Result<Self, String> {
        parse_str(value)
    }
}

impl ParseFromText for u16 {
    fn parse_text(value: &str) -> Result<Self, String> {
        parse_str(value)
    }
}

impl ParseFromText for u32 {
    fn parse_text(value: &str) -> Result<Self, String> {
        parse_str(value)
    }
}

impl ParseFromText for u64 {
    fn parse_text(value: &str) -> Result<Self, String> {
        parse_str(value)
    }
}

impl ParseFromText for u128 {
    fn parse_text(value: &str) -> Result<Self, String> {
        parse_str(value)
    }
}

impl ParseFromText for usize {
    fn parse_text(value: &str) -> Result<Self, String> {
        parse_str(value)
    }
}

impl ParseFromText for bool {
    fn parse_text(value: &str) -> Result<Self, String> {
        parse_str(value)
    }
}

impl ParseFromText for char {
    fn parse_text(value: &str) -> Result<Self, String> {
        parse_str(value)
    }
}

/// Parses a value out of a field's text; a failure is recorded in the error
/// map under the field's key and yields nothing.
pub fn parse<T: ParseFromText>(value: String, field: &'static str, errors: &mut ValidationErrors) -> (r:
    Option<T>)
    ensures
        r is Some ==> *final(errors) == *old(errors),
        r is None ==> final(errors).spec_get(field@) is Some,
        r is None ==> forall|k: Seq<char>|
            k != field@ ==> final(errors).spec_get(k) == old(errors).spec_get(k),
{
    match T::parse_text(value.as_str()) {
        Ok(parsed) => Some(parsed),
        Err(message) => {
            errors.insert(field.to_owned(), message);
            None
        },
    }
}

/// Parses an optional value: blank text is simply absent, anything else is
/// parsed as in [`parse`], recording a failure in the error map.
pub fn parse_optional<T: ParseFromText>(
    value: String,
    field: &'static str,
    errors: &mut ValidationErrors,
) -> (r: Option<T>)
    ensures
        is_blank(value@) ==> r is None && *final(errors) == *old(errors),
        r is Some ==> *final(errors) == *old(errors),
        !is_blank(value@) && r is None ==> final(errors).spec_get(field@) is Some,
        r is None ==> forall|k: Seq<char>|
            k != field@ ==> final(errors).spec_get(k) == old(errors).spec_get(k),
{
    match nonify(value) {
        Some(value) => parse::<T>(value, field, errors),
        None => None,
    }
}

/// Treats a string as absent when it is empty or consists of whitespace only.
pub fn nonify(value: String) -> (r: Option<String>)
    ensures
        is_blank(value@) ==> r is None,
        !is_blank(value@) ==> r == Some(value),
{
    if blank(value.as_str()) {
        None
    } else {
        Some(value)
    }
}

} // verus!
