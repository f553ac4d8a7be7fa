//! The atomic snapshot of a form: a flat key-to-value map with typed,
//! default-safe accessors. Accessors are total: a missing key or a mismatched
//! kind yields the documented default, never a panic.

use std::rc::Rc;
use vstd::prelude::*;
use vstd::std_specs::convert::FromSpec;

use crate::image::{data_uri_chars, image_as_uri};
use crate::nonify;
use crate::reactive::rc_clone;
use crate::text::{is_blank, str_eq};

verus! {

/// The exported value of a single field: one case per field kind.
pub enum FieldExport {
    Bool(bool),
    String(String),
    List(String),
    Dict(i64),
    Multi(Vec<i64>),
    Image((Option<Rc<String>>, Option<vertigo::DropFileItem>)),
}

/// The entry a key resolves to: the latest entry wins, so a key inserted
/// twice reads as its later value.
pub open spec fn export_entry(entries: Seq<(String, FieldExport)>, key: Seq<char>) -> Option<
    FieldExport,
>
    decreases entries.len(),
{
    if entries.len() == 0 {
        None
    } else if entries.last().0@ == key {
        Some(entries.last().1)
    } else {
        export_entry(entries.drop_last(), key)
    }
}

/// What `get_string_opt` yields: the stored string, unless it is missing,
/// of another kind, or blank.
pub open spec fn spec_string_opt(entries: Seq<(String, FieldExport)>, key: Seq<char>) -> Option<
    String,
> {
    match export_entry(entries, key) {
        Some(FieldExport::String(s)) => if is_blank(s@) {
            None
        } else {
            Some(s)
        },
        _ => None,
    }
}

/// What `list` yields before conversion: the stored list string, unless it is
/// missing, of another kind, or blank.
pub open spec fn spec_list_opt(entries: Seq<(String, FieldExport)>, key: Seq<char>) -> Option<
    String,
> {
    match export_entry(entries, key) {
        Some(FieldExport::List(s)) => if is_blank(s@) {
            None
        } else {
            Some(s)
        },
        _ => None,
    }
}

/// What `dict_or_default` converts: the stored integer, or 0 when the key is
/// missing or of another kind.
pub open spec fn spec_dict_i64(entries: Seq<(String, FieldExport)>, key: Seq<char>) -> i64 {
    match export_entry(entries, key) {
        Some(FieldExport::Dict(v)) => v,
        _ => 0,
    }
}

/// What `multi` converts: the stored reference ids in order, or the empty
/// sequence when the key is missing or of another kind.
pub open spec fn spec_multi_ids(entries: Seq<(String, FieldExport)>, key: Seq<char>) -> Seq<i64> {
    match export_entry(entries, key) {
        Some(FieldExport::Multi(v)) => v@,
        _ => Seq::<i64>::empty(),
    }
}

/// What `get_bool_opt` yields: the stored flag, unless missing or mismatched.
pub open spec fn spec_bool_opt(entries: Seq<(String, FieldExport)>, key: Seq<char>) -> Option<
    bool,
> {
    match export_entry(entries, key) {
        Some(FieldExport::Bool(b)) => Some(b),
        _ => None,
    }
}

/// What `image_url_opt` yields: a dropped payload takes precedence as a
/// `data:` URI; otherwise the stored original link; otherwise nothing.
pub open spec fn spec_image_url(entries: Seq<(String, FieldExport)>, key: Seq<char>) -> Option<
    Seq<char>,
> {
    match export_entry(entries, key) {
        Some(FieldExport::Image(pair)) => match pair.1 {
            Some(item) => Some(data_uri_chars(item.name@, item.data@)),
            None => match pair.0 {
                Some(link) => Some(link@),
                None => None,
            },
        },
        _ => None,
    }
}

/// What `image_item_opt` yields: the dropped payload alone.
pub open spec fn spec_image_item(entries: Seq<(String, FieldExport)>, key: Seq<char>) -> Option<
    vertigo::DropFileItem,
> {
    match export_entry(entries, key) {
        Some(FieldExport::Image(pair)) => pair.1,
        _ => None,
    }
}

/// What `image_orig_url_opt` yields: the original link alone.
pub open spec fn spec_image_orig(entries: Seq<(String, FieldExport)>, key: Seq<char>) -> Option<
    Rc<String>,
> {
    match export_entry(entries, key) {
        Some(FieldExport::Image(pair)) => pair.0,
        _ => None,
    }
}

/// Law: on an export built from zero fields every accessor yields its
/// documented default — absent strings, lists and flags, the zero reference,
/// the empty id list, no image.
pub proof fn lemma_empty_export_defaults(key: Seq<char>)
    ensures
        export_entry(Seq::<(String, FieldExport)>::empty(), key) is None,
        spec_string_opt(Seq::<(String, FieldExport)>::empty(), key) is None,
        spec_list_opt(Seq::<(String, FieldExport)>::empty(), key) is None,
        spec_dict_i64(Seq::<(String, FieldExport)>::empty(), key) == 0,
        spec_multi_ids(Seq::<(String, FieldExport)>::empty(), key) == Seq::<i64>::empty(),
        spec_bool_opt(Seq::<(String, FieldExport)>::empty(), key) is None,
        spec_image_url(Seq::<(String, FieldExport)>::empty(), key) is None,
        spec_image_item(Seq::<(String, FieldExport)>::empty(), key) is None,
        spec_image_orig(Seq::<(String, FieldExport)>::empty(), key) is None,
{
}

/// Law: a dropped payload takes precedence — the image URL is the payload's
/// `data:` URI whatever the original link holds.
pub proof fn lemma_image_payload_precedence(
    entries: Seq<(String, FieldExport)>,
    key: Seq<char>,
    link: Option<Rc<String>>,
    item: vertigo::DropFileItem,
)
    requires
        export_entry(entries, key) == Some(FieldExport::Image((link, Some(item)))),
    ensures
        spec_image_url(entries, key) == Some(data_uri_chars(item.name@, item.data@)),
{
}

/// Law: without a dropped payload the image URL falls back to the stored
/// original link.
pub proof fn lemma_image_link_fallback(
    entries: Seq<(String, FieldExport)>,
    key: Seq<char>,
    link: Rc<String>,
)
    requires
        export_entry(entries, key) == Some(FieldExport::Image((Some(link), None))),
    ensures
        spec_image_url(entries, key) == Some(link@),
{
}

/// Law (round trip, decoding direction): an export that stores a kind's
/// value under a key yields that value back through the kind's accessor —
/// with a blank string read as absent by the string and list accessors.
pub proof fn lemma_decode_round_trip(entries: Seq<(String, FieldExport)>, key: Seq<char>)
    ensures
        export_entry(entries, key) matches Some(FieldExport::String(s)) ==> spec_string_opt(
            entries,
            key,
        ) == if is_blank(s@) {
            Option::<String>::None
        } else {
            Some(s)
        },
        export_entry(entries, key) matches Some(FieldExport::List(s)) ==> spec_list_opt(
            entries,
            key,
        ) == if is_blank(s@) {
            Option::<String>::None
        } else {
            Some(s)
        },
        export_entry(entries, key) matches Some(FieldExport::Dict(v)) ==> spec_dict_i64(
            entries,
            key,
        ) == v,
        export_entry(entries, key) matches Some(FieldExport::Multi(v)) ==> spec_multi_ids(
            entries,
            key,
        ) == v@,
        export_entry(entries, key) matches Some(FieldExport::Bool(b)) ==> spec_bool_opt(
            entries,
            key,
        ) == Some(b),
        export_entry(entries, key) matches Some(FieldExport::Image(pair)) ==> spec_image_orig(
            entries,
            key,
        ) == pair.0 && spec_image_item(entries, key) == pair.1,
{
}

/// The immutable result of one submission: every field's exported value,
/// keyed by field key, shared cheaply between validator and host.
pub struct FormExport(Rc<Vec<(String, FieldExport)>>);

impl Clone for FormExport {
    /// A clone shares the same entries.
    fn clone(&self) -> (r: Self)
        ensures
            r == *self,
    {
        FormExport(rc_clone(&self.0))
    }
}

impl FormExport {
    /// The exported entries, in the order the export engine wrote them.
    pub closed spec fn entries(self) -> Seq<(String, FieldExport)> {
        self.0@
    }

    /// Seals a list of exported entries.
    pub fn new(entries: Vec<(String, FieldExport)>) -> (r: Self)
        ensures
            r.entries() == entries@,
    {
        FormExport(Rc::new(entries))
    }

    /// The raw entry for `key`, if any; a later entry shadows an earlier one.
    pub fn get<'a>(&'a self, key: &str) -> (r: Option<&'a FieldExport>)
        ensures
            r is Some <==> export_entry(self.entries(), key@) is Some,
            r matches Some(e) ==> export_entry(self.entries(), key@) == Some(*e),
    {
        let n: usize = self.0.len();
        let mut i: usize = n;
        proof {
            assert(self.0@.take(n as int) =~= self.0@);
        }
        while i > 0
            invariant
                i <= n,
                n == self.0@.len(),
                export_entry(self.0@, key@) == export_entry(self.0@.take(i as int), key@),
            decreases i,
        {
            i -= 1;
            if str_eq(self.0[i].0.as_str(), key) {
                proof {
                    assert(self.0@.take(i + 1).last() == self.0@[i as int]);
                }
                return Some(&self.0[i].1);
            }
            proof {
                assert(self.0@.take(i + 1).drop_last() == self.0@.take(i as int));
            }
        }
        None
    }

    /// The string stored under `key`, or empty when missing, mismatched or blank.
    pub fn get_string(&self, key: &str) -> (r: String)
        ensures
            match spec_string_opt(self.entries(), key@) {
                Some(s) => r == s,
                None => r@.len() == 0,
            },
    {
        match self.get_string_opt(key) {
            Some(s) => s,
            None => String::new(),
        }
    }

    /// The string stored under `key`, with a blank string treated as absent.
    pub fn get_string_opt(&self, key: &str) -> (r: Option<String>)
        ensures
            r == spec_string_opt(self.entries(), key@),
    {
        match self.get(key) {
            Some(FieldExport::String(s)) => nonify(s.clone()),
            _ => None,
        }
    }

    /// The list choice stored under `key`, converted by the caller-supplied
    /// string conversion; a missing, mismatched or blank entry is absent.
    pub fn list<T: From<String>>(&self, key: &str) -> (r: Option<T>)
        ensures
            r is Some <==> spec_list_opt(self.entries(), key@) is Some,
            r matches Some(t) ==> (spec_list_opt(self.entries(), key@) matches Some(v)
                && T::from.ensures((v,), t) && (T::obeys_from_spec() ==> t == T::from_spec(v))),
    {
        match self.get(key) {
            Some(FieldExport::List(s)) => match nonify(s.clone()) {
                Some(v) => Some(T::from(v)),
                None => None,
            },
            _ => None,
        }
    }

    /// The list choice stored under `key`, or the conversion target's default
    /// when the entry is missing, mismatched or blank.
    pub fn list_or_default<T: Default + From<String>>(&self, key: &str) -> (r: T)
        ensures
            match spec_list_opt(self.entries(), key@) {
                Some(v) => {
                    &&& T::from.ensures((v,), r)
                    &&& T::obeys_from_spec() ==> r == T::from_spec(v)
                },
                None => T::default.ensures((), r),
            },
    {
        match self.list(key) {
            Some(v) => v,
            None => T::default(),
        }
    }

    /// The reference id stored under `key`, converted by the caller-supplied
    /// integer conversion; a missing or mismatched entry converts 0.
    pub fn dict_or_default<T: From<i64>>(&self, key: &str) -> (r: T)
        ensures
            T::from.ensures((spec_dict_i64(self.entries(), key@),), r),
            T::obeys_from_spec() ==> r == T::from_spec(spec_dict_i64(self.entries(), key@)),
    {
        let v: i64 = match self.get(key) {
            Some(FieldExport::Dict(v)) => *v,
            _ => 0,
        };
        T::from(v)
    }

    /// The reference ids stored under `key` in order, each converted
    /// independently; a missing or mismatched entry yields the empty list.
    pub fn multi<T: From<i64>>(&self, key: &str) -> (r: Vec<T>)
        ensures
            r@.len() == spec_multi_ids(self.entries(), key@).len(),
            forall|i: int|
                0 <= i < r@.len() ==> T::from.ensures(
                    (spec_multi_ids(self.entries(), key@)[i],),
                    #[trigger] r@[i],
                ),
            T::obeys_from_spec() ==> forall|i: int|
                0 <= i < r@.len() ==> #[trigger] r@[i] == T::from_spec(
                    spec_multi_ids(self.entries(), key@)[i],
                ),
    {
        let ghost ids = spec_multi_ids(self.entries(), key@);
        let mut out: Vec<T> = Vec::new();
        match self.get(key) {
            Some(FieldExport::Multi(v)) => {
                let n: usize = v.len();
                let mut i: usize = 0;
                while i < n
                    invariant
                        i <= n,
                        n == v@.len(),
                        v@ == ids,
                        out@.len() == i,
                        forall|j: int|
                            0 <= j < i ==> T::from.ensures((ids[j],), #[trigger] out@[j]),
                        T::obeys_from_spec() ==> forall|j: int|
                            0 <= j < i ==> #[trigger] out@[j] == T::from_spec(ids[j]),
                    decreases n - i,
                {
                    out.push(T::from(v[i]));
                    i += 1;
                }
            },
            _ => {},
        }
        out
    }

    /// The flag stored under `key`, or false when missing or mismatched.
    pub fn get_bool(&self, key: &str) -> (r: bool)
        ensures
            r == (spec_bool_opt(self.entries(), key@) == Some(true)),
    {
        match self.get_bool_opt(key) {
            Some(b) => b,
            None => false,
        }
    }

    /// The flag stored under `key`, if one is stored.
    pub fn get_bool_opt(&self, key: &str) -> (r: Option<bool>)
        ensures
            r == spec_bool_opt(self.entries(), key@),
    {
        match self.get(key) {
            Some(FieldExport::Bool(b)) => Some(*b),
            _ => None,
        }
    }

    /// The image for `key` as a URL: a dropped payload as a `data:` URI,
    /// else the original link, else empty.
    pub fn image_url(&self, key: &str) -> (r: String)
        ensures
            match spec_image_url(self.entries(), key@) {
                Some(s) => r@ == s,
                None => r@.len() == 0,
            },
    {
        match self.image_url_opt(key) {
            Some(s) => s,
            None => String::new(),
        }
    }

    /// The image for `key` as a URL, if the field holds one: a dropped
    /// payload takes precedence over the original link.
    pub fn image_url_opt(&self, key: &str) -> (r: Option<String>)
        ensures
            r is Some <==> spec_image_url(self.entries(), key@) is Some,
            r matches Some(s) ==> spec_image_url(self.entries(), key@) == Some(s@),
    {
        match self.get(key) {
            Some(FieldExport::Image(pair)) => match &pair.1 {
                Some(item) => Some(image_as_uri(item)),
                None => match &pair.0 {
                    Some(link) => Some(link.as_str().to_owned()),
                    None => None,
                },
            },
            _ => None,
        }
    }

    /// The dropped payload stored under `key`, ignoring the original link.
    pub fn image_item_opt(&self, key: &str) -> (r: Option<vertigo::DropFileItem>)
        ensures
            r == spec_image_item(self.entries(), key@),
    {
        match self.get(key) {
            Some(FieldExport::Image(pair)) => match &pair.1 {
                Some(item) => Some(item.clone()),
                None => None,
            },
            _ => None,
        }
    }

    /// The original link stored under `key`, ignoring any dropped payload.
    pub fn image_orig_url_opt(&self, key: &str) -> (r: Option<Rc<String>>)
        ensures
            r == spec_image_orig(self.entries(), key@),
    {
        match self.get(key) {
            Some(FieldExport::Image(pair)) => match &pair.0 {
                Some(link) => Some(rc_clone(link)),
                None => None,
            },
            _ => None,
        }
    }
}

} // verus!
