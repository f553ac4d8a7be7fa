//! Form assembly: fields grouped into labeled sections, sections optionally
//! partitioned into named tabs, and the export engine that snapshots every
//! field into one flat map.

use std::rc::Rc;
use vstd::prelude::*;

use crate::form::export::{export_entry, FieldExport, FormExport};
use crate::form::field::{
    export_consistent, BoolValue, DataFieldValue, DictOption, DictValue, ImageValue, ListValue,
    StringValue,
};
use crate::reactive::{dict_options, list_options};

verus! {

/// How a section's fields are laid out: a pure rendering hint with no
/// meaning for export.
#[derive(Clone, Copy, Debug, PartialEq, Eq, Structural)]
pub enum FieldsetStyle {
    /// Just one after another (piled).
    Plain,
    /// Interspersed with an "x" separator character.
    Dimensions,
}

impl Default for FieldsetStyle {
    /// Plain layout unless asked otherwise.
    fn default() -> (r: Self)
        ensures
            r == FieldsetStyle::Plain,
    {
        FieldsetStyle::Plain
    }
}

/// Which controls a form shows above or below its fields.
pub struct ControlsConfig {
    pub css: Option<vertigo::Css>,
    pub submit: bool,
    pub delete: bool,
}

impl ControlsConfig {
    /// Both submit and delete controls, unstyled.
    pub fn full() -> (r: Self)
        ensures
            r.submit,
            r.delete,
            r.css is None,
    {
        ControlsConfig { css: None, submit: true, delete: true }
    }

    /// The same controls with a style attached.
    pub fn with_css(self, css: vertigo::Css) -> (r: Self)
        ensures
            r.submit == self.submit,
            r.delete == self.delete,
            r.css is Some,
    {
        ControlsConfig { css: Some(css), ..self }
    }
}

impl Default for ControlsConfig {
    /// No controls at all.
    fn default() -> (r: Self)
        ensures
            !r.submit,
            !r.delete,
            r.css is None,
    {
        ControlsConfig { css: None, submit: false, delete: false }
    }
}

/// A single field in a form section: a key, unique across the whole form,
/// and the field's value.
pub struct DataField {
    pub key: String,
    pub value: DataFieldValue,
}

/// A labeled group of fields with layout hints. A section with no fields is
/// a layout placeholder only.
pub struct DataSection {
    pub label: String,
    pub fields: Vec<DataField>,
    pub error: Option<String>,
    pub fieldset_style: FieldsetStyle,
    pub fieldset_css: Option<vertigo::Css>,
    pub new_group: bool,
}

/// An ordered list of sections, optionally followed by named tabs of further
/// sections, plus the control rows shown above and below the fields.
pub struct FormData {
    pub sections: Vec<DataSection>,
    pub tabs: Vec<(String, Rc<Vec<DataSection>>)>,
    pub top_controls: ControlsConfig,
    pub bottom_controls: ControlsConfig,
}

/// All fields of a run of sections, in declaration order.
pub open spec fn sections_fields(ss: Seq<DataSection>) -> Seq<DataField>
    decreases ss.len(),
{
    if ss.len() == 0 {
        Seq::<DataField>::empty()
    } else {
        sections_fields(ss.drop_last()) + ss.last().fields@
    }
}

/// All fields of a run of tabs, in declaration order.
pub open spec fn tabs_fields(ts: Seq<(String, Rc<Vec<DataSection>>)>) -> Seq<DataField>
    decreases ts.len(),
{
    if ts.len() == 0 {
        Seq::<DataField>::empty()
    } else {
        tabs_fields(ts.drop_last()) + sections_fields(ts.last().1@)
    }
}

/// The exported entries mirror a field list one to one: same length, same
/// keys in the same order, and each entry consistent with its field.
pub open spec fn entries_reflect(
    fields: Seq<DataField>,
    entries: Seq<(String, FieldExport)>,
) -> bool {
    &&& entries.len() == fields.len()
    &&& forall|i: int|
        0 <= i < fields.len() ==> (#[trigger] entries[i]).0 == fields[i].key && export_consistent(
            fields[i].value,
            entries[i].1,
        )
}

/// What the export engine guarantees: the sealed entries mirror the form's
/// flattened field list, sections first, then every tab in order.
pub open spec fn export_reflects(form: FormData, ex: FormExport) -> bool {
    entries_reflect(form.flat_fields(), ex.entries())
}

/// Entry lists that mirror field lists compose by concatenation.
proof fn lemma_reflect_concat(
    f1: Seq<DataField>,
    f2: Seq<DataField>,
    e1: Seq<(String, FieldExport)>,
    e2: Seq<(String, FieldExport)>,
)
    requires
        entries_reflect(f1, e1),
        entries_reflect(f2, e2),
    ensures
        entries_reflect(f1 + f2, e1 + e2),
{
    assert forall|i: int| 0 <= i < (f1 + f2).len() implies ((#[trigger] (e1 + e2)[i]).0 == (f1
        + f2)[i].key && export_consistent((f1 + f2)[i].value, (e1 + e2)[i].1)) by {
        if i < f1.len() {
            assert((e1 + e2)[i] == e1[i]);
            assert((f1 + f2)[i] == f1[i]);
        } else {
            assert((e1 + e2)[i] == e2[i - f1.len()]);
            assert((f1 + f2)[i] == f2[i - f1.len()]);
        }
    }
}

/// Taking one more section appends exactly that section's fields.
proof fn lemma_sections_fields_step(ss: Seq<DataSection>, i: int)
    requires
        0 <= i < ss.len(),
    ensures
        sections_fields(ss.take(i + 1)) == sections_fields(ss.take(i)) + ss[i].fields@,
{
    assert(ss.take(i + 1).drop_last() =~= ss.take(i));
    assert(ss.take(i + 1).last() == ss[i]);
}

/// Taking one more tab appends exactly that tab's fields.
proof fn lemma_tabs_fields_step(ts: Seq<(String, Rc<Vec<DataSection>>)>, i: int)
    requires
        0 <= i < ts.len(),
    ensures
        tabs_fields(ts.take(i + 1)) == tabs_fields(ts.take(i)) + sections_fields(ts[i].1@),
{
    assert(ts.take(i + 1).drop_last() =~= ts.take(i));
    assert(ts.take(i + 1).last() == ts[i]);
}

/// Law (key collision): when several fields share one key, the exported map
/// resolves that key to the last of them in declaration order — a later
/// field silently overwrites an earlier one.
pub proof fn lemma_later_field_wins(
    fields: Seq<DataField>,
    entries: Seq<(String, FieldExport)>,
    i: int,
)
    requires
        entries_reflect(fields, entries),
        0 <= i < fields.len(),
        forall|j: int| i < j < fields.len() ==> fields[j].key@ != fields[i].key@,
    ensures
        export_entry(entries, fields[i].key@) matches Some(e) && export_consistent(
            fields[i].value,
            e,
        ),
    decreases entries.len(),
{
    if i == fields.len() - 1 {
        assert(entries.last() == entries[i]);
    } else {
        assert(entries.last() == entries[fields.len() - 1]);
        assert(entries.last().0 == fields.last().key);
        assert(entries_reflect(fields.drop_last(), entries.drop_last())) by {
            assert forall|k: int| 0 <= k < fields.drop_last().len() implies ((#[trigger] entries.drop_last()[k]).0
                == fields.drop_last()[k].key && export_consistent(
                fields.drop_last()[k].value,
                entries.drop_last()[k].1,
            )) by {
                assert(entries.drop_last()[k] == entries[k]);
                assert(fields.drop_last()[k] == fields[k]);
            }
        }
        lemma_later_field_wins(fields.drop_last(), entries.drop_last(), i);
    }
}

/// Law: a key that no field carries resolves to nothing, so every accessor
/// yields its documented default for it.
pub proof fn lemma_unused_key_missing(
    fields: Seq<DataField>,
    entries: Seq<(String, FieldExport)>,
    key: Seq<char>,
)
    requires
        entries_reflect(fields, entries),
        forall|j: int| 0 <= j < fields.len() ==> fields[j].key@ != key,
    ensures
        export_entry(entries, key) is None,
    decreases entries.len(),
{
    if entries.len() > 0 {
        assert(entries.last() == entries[entries.len() - 1]);
        assert(entries.last().0 == fields.last().key);
        assert(entries_reflect(fields.drop_last(), entries.drop_last())) by {
            assert forall|k: int| 0 <= k < fields.drop_last().len() implies ((#[trigger] entries.drop_last()[k]).0
                == fields.drop_last()[k].key && export_consistent(
                fields.drop_last()[k].value,
                entries.drop_last()[k].1,
            )) by {
                assert(entries.drop_last()[k] == entries[k]);
                assert(fields.drop_last()[k] == fields[k]);
            }
        }
        lemma_unused_key_missing(fields.drop_last(), entries.drop_last(), key);
    }
}

/// Law (missing-key defaults): a form with no fields exports an empty map,
/// so every accessor yields its documented default on it.
pub proof fn lemma_empty_form_defaults(form: FormData, ex: FormExport, key: Seq<char>)
    requires
        export_reflects(form, ex),
        form.flat_fields().len() == 0,
    ensures
        ex.entries().len() == 0,
        export_entry(ex.entries(), key) is None,
        crate::form::export::spec_bool_opt(ex.entries(), key) is None,
        crate::form::export::spec_string_opt(ex.entries(), key) is None,
        crate::form::export::spec_dict_i64(ex.entries(), key) == 0,
        crate::form::export::spec_multi_ids(ex.entries(), key) == Seq::<i64>::empty(),
{
}

/// Exports every field of `sections` in order, appending to `out`.
fn export_sections(
    sections: &Vec<DataSection>,
    ctx: &vertigo::Context,
    out: &mut Vec<(String, FieldExport)>,
)
    ensures
        final(out)@.len() == old(out)@.len() + sections_fields(sections@).len(),
        final(out)@.take(old(out)@.len() as int) == old(out)@,
        entries_reflect(
            sections_fields(sections@),
            final(out)@.skip(old(out)@.len() as int),
        ),
{
    let ghost base = out@;
    let n: usize = sections.len();
    let mut i: usize = 0;
    proof {
        assert(sections@.take(0) =~= Seq::<DataSection>::empty());
        assert(out@.skip(base.len() as int) =~= Seq::<(String, FieldExport)>::empty());
        assert(out@.take(base.len() as int) =~= base);
    }
    while i < n
        invariant
            i <= n,
            n == sections@.len(),
            out@.len() == base.len() + sections_fields(sections@.take(i as int)).len(),
            out@.take(base.len() as int) == base,
            entries_reflect(sections_fields(sections@.take(i as int)), out@.skip(base.len() as int)),
        decreases n - i,
    {
        let ghost before = out@;
        let section = &sections[i];
        let m: usize = section.fields.len();
        let mut j: usize = 0;
        proof {
            assert(section.fields@.take(0) =~= Seq::<DataField>::empty());
            assert(out@.skip(before.len() as int) =~= Seq::<(String, FieldExport)>::empty());
            assert(out@.take(before.len() as int) =~= before);
        }
        while j < m
            invariant
                j <= m,
                m == section.fields@.len(),
                section == &sections@[i as int],
                i < n == sections@.len(),
                out@.len() == before.len() + j,
                out@.take(before.len() as int) == before,
                entries_reflect(
                    sections@[i as int].fields@.take(j as int),
                    out@.skip(before.len() as int),
                ),
            decreases m - j,
        {
            let ghost pre = out@;
            let field = &section.fields[j];
            let exported = field.value.export(ctx);
            let key = field.key.clone();
            out.push((key, exported));
            proof {
                let fj = sections@[i as int].fields@;
                let seg_prev = pre.skip(before.len() as int);
                let seg = out@.skip(before.len() as int);
                assert(seg =~= seg_prev.push(out@.last()));
                assert(out@.take(before.len() as int) =~= pre.take(before.len() as int));
                assert forall|k: int| 0 <= k < j + 1 implies ((#[trigger] seg[k]).0 == fj.take(
                    j + 1,
                )[k].key && export_consistent(fj.take(j + 1)[k].value, seg[k].1)) by {
                    if k < j {
                        assert(seg[k] == seg_prev[k]);
                        assert(fj.take(j + 1)[k] == fj.take(j as int)[k]);
                    } else {
                        assert(seg[k] == out@.last());
                        assert(fj.take(j + 1)[k] == fj[j as int]);
                    }
                }
                assert(entries_reflect(fj.take(j + 1), seg));
            }
            j += 1;
        }
        proof {
            lemma_sections_fields_step(sections@, i as int);
            assert(sections@[i as int].fields@.take(m as int) =~= sections@[i as int].fields@);
            lemma_reflect_concat(
                sections_fields(sections@.take(i as int)),
                sections@[i as int].fields@,
                before.skip(base.len() as int),
                out@.skip(before.len() as int),
            );
            assert(out@.skip(base.len() as int) =~= before.skip(base.len() as int) + out@.skip(
                before.len() as int,
            ));
            assert(out@.take(base.len() as int) =~= before.take(base.len() as int));
        }
        i += 1;
    }
    proof {
        assert(sections@.take(n as int) =~= sections@);
    }
}

impl FormData {
    /// Every field of the form in declaration order: the plain sections
    /// first, then each tab's sections.
    pub open spec fn flat_fields(self) -> Seq<DataField> {
        sections_fields(self.sections@) + tabs_fields(self.tabs@)
    }

    /// Appends a section.
    pub fn with(self, section: DataSection) -> (r: Self)
        ensures
            r.sections@ == self.sections@.push(section),
            r.tabs@ == self.tabs@,
            r.top_controls == self.top_controls,
            r.bottom_controls == self.bottom_controls,
    {
        let mut form = self;
        form.sections.push(section);
        form
    }

    /// Appends a named tab holding its own run of sections. Keys must stay
    /// unique across all tabs: export flattens every tab into one map, and a
    /// later entry silently overwrites an earlier one with the same key.
    pub fn add_tab(self, name: &str, sections: Vec<DataSection>) -> (r: Self)
        ensures
            r.tabs@.len() == self.tabs@.len() + 1,
            r.tabs@.drop_last() == self.tabs@,
            r.tabs@.last().0@ == name@,
            r.tabs@.last().1@ == sections@,
            r.sections@ == self.sections@,
            r.top_controls == self.top_controls,
            r.bottom_controls == self.bottom_controls,
    {
        let mut form = self;
        form.tabs.push((name.to_owned(), Rc::new(sections)));
        proof {
            assert(form.tabs@.drop_last() =~= self.tabs@);
        }
        form
    }

    /// Shows submit and delete controls above the fields.
    pub fn add_top_controls(self) -> (r: Self)
        ensures
            r.top_controls.submit && r.top_controls.delete,
            r.sections@ == self.sections@,
            r.tabs@ == self.tabs@,
            r.bottom_controls == self.bottom_controls,
    {
        FormData { top_controls: ControlsConfig::full(), ..self }
    }

    /// Shows styled submit and delete controls above the fields.
    pub fn add_top_controls_styled(self, css: vertigo::Css) -> (r: Self)
        ensures
            r.top_controls.submit && r.top_controls.delete,
            r.sections@ == self.sections@,
            r.tabs@ == self.tabs@,
            r.bottom_controls == self.bottom_controls,
    {
        FormData { top_controls: ControlsConfig::full().with_css(css), ..self }
    }

    /// Shows submit and delete controls below the fields.
    pub fn add_bottom_controls(self) -> (r: Self)
        ensures
            r.bottom_controls.submit && r.bottom_controls.delete,
            r.sections@ == self.sections@,
            r.tabs@ == self.tabs@,
            r.top_controls == self.top_controls,
    {
        FormData { bottom_controls: ControlsConfig::full(), ..self }
    }

    /// Shows styled submit and delete controls below the fields.
    pub fn add_bottom_controls_styled(self, css: vertigo::Css) -> (r: Self)
        ensures
            r.bottom_controls.submit && r.bottom_controls.delete,
            r.sections@ == self.sections@,
            r.tabs@ == self.tabs@,
            r.top_controls == self.top_controls,
    {
        FormData { bottom_controls: ControlsConfig::full().with_css(css), ..self }
    }

    /// Snapshots every field, all tabs included, in one atomic transaction
    /// and seals the result. Each field's entry carries its key; on a key
    /// collision the later entry shadows the earlier when read back.
    pub fn export(&self) -> (r: FormExport)
        ensures
            export_reflects(*self, r),
    {
        export_in_transaction(self)
    }

    /// Exports every field using the given snapshot context: the plain
    /// sections in order, then every tab's sections in order.
    pub fn export_with(&self, ctx: &vertigo::Context) -> (r: FormExport)
        ensures
            export_reflects(*self, r),
    {
        let mut out: Vec<(String, FieldExport)> = Vec::new();
        export_sections(&self.sections, ctx, &mut out);
        let ghost section_part = out@;
        let n: usize = self.tabs.len();
        let mut i: usize = 0;
        proof {
            assert(self.tabs@.take(0) =~= Seq::<(String, Rc<Vec<DataSection>>)>::empty());
            assert(out@.skip(section_part.len() as int) =~= Seq::<(String, FieldExport)>::empty());
            assert(out@.take(section_part.len() as int) =~= section_part);
            assert(section_part.take(0) =~= Seq::<(String, FieldExport)>::empty());
            assert(section_part.skip(0) =~= section_part);
        }
        while i < n
            invariant
                i <= n,
                n == self.tabs@.len(),
                out@.len() == section_part.len() + tabs_fields(self.tabs@.take(i as int)).len(),
                out@.take(section_part.len() as int) == section_part,
                entries_reflect(sections_fields(self.sections@), section_part),
                entries_reflect(
                    tabs_fields(self.tabs@.take(i as int)),
                    out@.skip(section_part.len() as int),
                ),
            decreases n - i,
        {
            let ghost before = out@;
            export_sections(&self.tabs[i].1, ctx, &mut out);
            proof {
                lemma_tabs_fields_step(self.tabs@, i as int);
                lemma_reflect_concat(
                    tabs_fields(self.tabs@.take(i as int)),
                    sections_fields(self.tabs@[i as int].1@),
                    before.skip(section_part.len() as int),
                    out@.skip(before.len() as int),
                );
                assert(out@.skip(section_part.len() as int) =~= before.skip(
                    section_part.len() as int,
                ) + out@.skip(before.len() as int));
                assert(out@.take(section_part.len() as int) =~= before.take(
                    section_part.len() as int,
                ));
            }
            i += 1;
        }
        proof {
            assert(self.tabs@.take(n as int) =~= self.tabs@);
            lemma_reflect_concat(
                sections_fields(self.sections@),
                tabs_fields(self.tabs@),
                section_part,
                out@.skip(section_part.len() as int),
            );
            assert(out@ =~= section_part + out@.skip(section_part.len() as int));
        }
        FormExport::new(out)
    }
}

impl DataSection {
    /// A new form section without fields: a layout placeholder until fields
    /// are added.
    pub fn new(label: &str) -> (r: Self)
        ensures
            r.label@ == label@,
            r.fields@.len() == 0,
            r.error is None,
            r.fieldset_style == FieldsetStyle::Plain,
            r.fieldset_css is None,
            !r.new_group,
    {
        DataSection {
            label: label.to_owned(),
            fields: Vec::new(),
            error: None,
            fieldset_style: FieldsetStyle::Plain,
            fieldset_css: None,
            new_group: false,
        }
    }

    /// A new section holding a single string field whose baseline and
    /// initial cell contents are `original_value`.
    pub fn with_string_field(label: &str, key: &str, original_value: &str) -> (r: Self)
        ensures
            r.label@ == label@,
            r.fields@.len() == 1,
            r.fields@[0].key@ == key@,
            r.fields@[0].value matches DataFieldValue::String(v) && v.original_value@
                == original_value@,
            r.error is None,
            r.fieldset_style == FieldsetStyle::Plain,
            r.fieldset_css is None,
            !r.new_group,
    {
        DataSection::new(label).add_string_field(key, original_value)
    }

    /// Appends a field under `key` with an already built value.
    pub fn add_field(self, key: &str, value: DataFieldValue) -> (r: Self)
        ensures
            r.fields@.len() == self.fields@.len() + 1,
            r.fields@.drop_last() == self.fields@,
            r.fields@.last().key@ == key@,
            r.fields@.last().value == value,
            r.label == self.label,
            r.error == self.error,
            r.fieldset_style == self.fieldset_style,
            r.fieldset_css == self.fieldset_css,
            r.new_group == self.new_group,
    {
        let mut section = self;
        section.fields.push(DataField { key: key.to_owned(), value });
        proof {
            assert(section.fields@.drop_last() =~= self.fields@);
        }
        section
    }

    /// Appends a string field (text input); the baseline and the cell both
    /// start as `original_value`.
    pub fn add_string_field(self, key: &str, original_value: &str) -> (r: Self)
        ensures
            r.fields@.len() == self.fields@.len() + 1,
            r.fields@.drop_last() == self.fields@,
            r.fields@.last().key@ == key@,
            r.fields@.last().value matches DataFieldValue::String(v) && v.original_value@
                == original_value@,
            r.label == self.label,
            r.error == self.error,
            r.fieldset_style == self.fieldset_style,
            r.fieldset_css == self.fieldset_css,
            r.new_group == self.new_group,
    {
        let text = original_value.to_owned();
        let value = DataFieldValue::String(
            StringValue {
                value: vertigo::Value::new(text.clone()),
                original_value: Rc::new(text),
            },
        );
        self.add_field(key, value)
    }

    /// Appends a list field (dropdown with options); a missing baseline
    /// starts the cell empty.
    pub fn add_list_field(self, key: &str, original_value: Option<&str>, options: Vec<String>) -> (r:
        Self)
        ensures
            r.fields@.len() == self.fields@.len() + 1,
            r.fields@.drop_last() == self.fields@,
            r.fields@.last().key@ == key@,
            r.fields@.last().value matches DataFieldValue::List(v) && (match original_value {
                Some(s) => v.original_value matches Some(o) && o@ == s@,
                None => v.original_value is None,
            }),
            r.label == self.label,
            r.error == self.error,
            r.fieldset_style == self.fieldset_style,
            r.fieldset_css == self.fieldset_css,
            r.new_group == self.new_group,
    {
        let (cell_start, baseline) = match original_value {
            Some(s) => (s.to_owned(), Some(Rc::new(s.to_owned()))),
            None => (String::new(), None),
        };
        let value = DataFieldValue::List(
            ListValue {
                value: vertigo::Value::new(cell_start),
                original_value: baseline,
                options: list_options(options),
            },
        );
        self.add_field(key, value)
    }

    /// Appends a dict field (dropdown whose value is an integer reference);
    /// a missing baseline starts the cell at 0.
    pub fn add_dict_field(
        self,
        key: &str,
        original_value: Option<i64>,
        options: Vec<(i64, String)>,
    ) -> (r: Self)
        ensures
            r.fields@.len() == self.fields@.len() + 1,
            r.fields@.drop_last() == self.fields@,
            r.fields@.last().key@ == key@,
            r.fields@.last().value matches DataFieldValue::Dict(v) && (match original_value {
                Some(n) => v.original_value matches Some(o) && o@ == n,
                None => v.original_value is None,
            }),
            r.label == self.label,
            r.error == self.error,
            r.fieldset_style == self.fieldset_style,
            r.fieldset_css == self.fieldset_css,
            r.new_group == self.new_group,
    {
        let mut labeled: Vec<DictOption> = Vec::new();
        let n: usize = options.len();
        let mut i: usize = 0;
        while i < n
            invariant
                i <= n,
                n == options@.len(),
            decreases n - i,
        {
            let (id, label) = (options[i].0, options[i].1.clone());
            labeled.push(DictOption { id, label });
            i += 1;
        }
        let (cell_start, baseline) = match original_value {
            Some(v) => (v, Some(Rc::new(v))),
            None => (0i64, None),
        };
        let value = DataFieldValue::Dict(
            DictValue {
                value: vertigo::Value::new(cell_start),
                original_value: baseline,
                options: dict_options(labeled),
            },
        );
        self.add_field(key, value)
    }

    /// Appends a bool field (checkbox); a missing baseline starts the cell
    /// at false.
    pub fn add_bool_field(self, key: &str, original_value: Option<bool>) -> (r: Self)
        ensures
            r.fields@.len() == self.fields@.len() + 1,
            r.fields@.drop_last() == self.fields@,
            r.fields@.last().key@ == key@,
            r.fields@.last().value matches DataFieldValue::Bool(v) && (match original_value {
                Some(b) => v.original_value matches Some(o) && o@ == b,
                None => v.original_value is None,
            }),
            r.label == self.label,
            r.error == self.error,
            r.fieldset_style == self.fieldset_style,
            r.fieldset_css == self.fieldset_css,
            r.new_group == self.new_group,
    {
        let (cell_start, baseline) = match original_value {
            Some(b) => (b, Some(Rc::new(b))),
            None => (false, None),
        };
        let value = DataFieldValue::Bool(
            BoolValue { value: vertigo::Value::new(cell_start), original_value: baseline },
        );
        self.add_field(key, value)
    }

    /// Appends an image field: the drop cell starts empty, and the original
    /// link, if given, is kept as the immutable fallback.
    pub fn add_image_field(self, key: &str, original_value: Option<&str>) -> (r: Self)
        ensures
            r.fields@.len() == self.fields@.len() + 1,
            r.fields@.drop_last() == self.fields@,
            r.fields@.last().key@ == key@,
            r.fields@.last().value matches DataFieldValue::Image(v) && (match original_value {
                Some(s) => v.original_link matches Some(o) && o@ == s@,
                None => v.original_link is None,
            }),
            r.label == self.label,
            r.error == self.error,
            r.fieldset_style == self.fieldset_style,
            r.fieldset_css == self.fieldset_css,
            r.new_group == self.new_group,
    {
        let link = match original_value {
            Some(s) => Some(Rc::new(s.to_owned())),
            None => None,
        };
        let value = DataFieldValue::Image(
            ImageValue { value: vertigo::Value::new(None), original_link: link },
        );
        self.add_field(key, value)
    }

    /// Sets the layout hint for this section's fields.
    pub fn set_fieldset_style(self, fieldset_style: FieldsetStyle) -> (r: Self)
        ensures
            r.fieldset_style == fieldset_style,
            r.fields@ == self.fields@,
            r.label == self.label,
            r.error == self.error,
            r.fieldset_css == self.fieldset_css,
            r.new_group == self.new_group,
    {
        DataSection { fieldset_style, ..self }
    }

    /// Sets the style of this section's field container.
    pub fn set_fieldset_css(self, fieldset_css: vertigo::Css) -> (r: Self)
        ensures
            r.fieldset_css is Some,
            r.fields@ == self.fields@,
            r.label == self.label,
            r.error == self.error,
            r.fieldset_style == self.fieldset_style,
            r.new_group == self.new_group,
    {
        DataSection { fieldset_css: Some(fieldset_css), ..self }
    }

    /// Marks this section as starting a new visual group.
    pub fn starts_new_group(self) -> (r: Self)
        ensures
            r.new_group,
            r.fields@ == self.fields@,
            r.label == self.label,
            r.error == self.error,
            r.fieldset_style == self.fieldset_style,
            r.fieldset_css == self.fieldset_css,
    {
        DataSection { new_group: true, ..self }
    }
}

impl Default for FormData {
    /// An empty form: no sections, no tabs, no controls.
    fn default() -> (r: Self)
        ensures
            r.sections@.len() == 0,
            r.tabs@.len() == 0,
            !r.top_controls.submit && !r.top_controls.delete,
            !r.bottom_controls.submit && !r.bottom_controls.delete,
    {
        FormData {
            sections: Vec::new(),
            tabs: Vec::new(),
            top_controls: ControlsConfig::default(),
            bottom_controls: ControlsConfig::default(),
        }
    }
}

/// Relies on vertigo's `transaction`: the snapshot body runs under one
/// transaction, so every cell read observes one logical instant; what the
/// contract states holds of every outcome of those reads, since the verified
/// body it runs guarantees it for all of them.
#[verifier::external_body]
fn export_in_transaction(form: &FormData) -> (r: FormExport)
    ensures
        export_reflects(*form, r),
{
    vertigo::transaction(|ctx| form.export_with(ctx))
}

} // verus!
