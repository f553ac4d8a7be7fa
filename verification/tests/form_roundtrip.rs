//! Building forms from baselines, editing cells, and exporting: round trips
//! for every field kind, multi ordering, and tab flattening.

use std::collections::HashMap;
use std::rc::Rc;

use vertigo::{transaction, Value};
use vertigo_forms::form::{
    CustomValue, DataFieldValue, DataSection, FieldExport, FormData, MultiValue, TextAreaValue,
};

#[test]
fn string_round_trip() {
    let form = FormData::default()
        .with(DataSection::with_string_field("Name", "name", "Ada"))
        .with(DataSection::new("More").add_string_field("surname", "Lovelace"));
    let ex = form.export();
    assert_eq!(ex.get_string("name"), "Ada");
    assert_eq!(ex.get_string("surname"), "Lovelace");
    assert_eq!(ex.get_string_opt("name"), Some("Ada".to_string()));
}

#[test]
fn string_absent_baseline_exports_zero_value() {
    let form = FormData::default().with(DataSection::with_string_field("Name", "name", ""));
    let ex = form.export();
    assert_eq!(ex.get_string("name"), "");
    assert_eq!(ex.get_string_opt("name"), None);
}

#[test]
fn list_round_trip() {
    let options = vec!["petrol".to_string(), "diesel".to_string()];
    let form = FormData::default().with(DataSection::new("Engine").add_list_field(
        "engine",
        Some("diesel"),
        options.clone(),
    ));
    let ex = form.export();
    assert_eq!(ex.list::<String>("engine"), Some("diesel".to_string()));
    assert_eq!(ex.list_or_default::<String>("engine"), "diesel");

    let form = FormData::default().with(DataSection::new("Engine").add_list_field(
        "engine",
        None::<&str>,
        options,
    ));
    let ex = form.export();
    assert_eq!(ex.list::<String>("engine"), None);
    assert_eq!(ex.list_or_default::<String>("engine"), "");
}

#[test]
fn dict_round_trip() {
    let options = vec![(1i64, "Admin".to_string()), (2, "Viewer".to_string())];
    let form = FormData::default().with(DataSection::new("Role").add_dict_field(
        "role",
        Some(2),
        options.clone(),
    ));
    let ex = form.export();
    assert_eq!(ex.dict_or_default::<i64>("role"), 2);

    let form =
        FormData::default().with(DataSection::new("Role").add_dict_field("role", None, options));
    let ex = form.export();
    assert_eq!(ex.dict_or_default::<i64>("role"), 0);
}

#[test]
fn option_sources_hold_the_given_options() {
    let form = FormData::default()
        .with(DataSection::new("Engine").add_list_field(
            "engine",
            Some("diesel"),
            vec!["petrol".to_string(), "diesel".to_string()],
        ))
        .with(DataSection::new("Role").add_dict_field(
            "role",
            Some(1),
            vec![(1i64, "Admin".to_string()), (2, "Viewer".to_string())],
        ));
    match &form.sections[0].fields[0].value {
        DataFieldValue::List(v) => {
            let options = transaction(|ctx| v.options.get(ctx));
            assert_eq!(options, vec!["petrol".to_string(), "diesel".to_string()]);
        }
        _ => panic!("expected a list field"),
    }
    match &form.sections[1].fields[0].value {
        DataFieldValue::Dict(v) => {
            let options = transaction(|ctx| v.options.get(ctx));
            assert_eq!(options.len(), 2);
            assert_eq!(options[0].id, 1);
            assert_eq!(options[0].label, "Admin");
            assert_eq!(options[1].id, 2);
            assert_eq!(options[1].label, "Viewer");
        }
        _ => panic!("expected a dict field"),
    }
}

#[test]
fn bool_round_trip() {
    let form = FormData::default()
        .with(DataSection::new("Flags").add_bool_field("on", Some(true)))
        .with(DataSection::new("More").add_bool_field("off", None));
    let ex = form.export();
    assert_eq!(ex.get_bool("on"), true);
    assert_eq!(ex.get_bool_opt("on"), Some(true));
    assert_eq!(ex.get_bool("off"), false);
    assert_eq!(ex.get_bool_opt("off"), Some(false));
}

#[test]
fn image_round_trip() {
    let form = FormData::default().with(DataSection::new("Photo").add_image_field(
        "photo",
        Some("https://example.test/p.png"),
    ));
    let ex = form.export();
    assert_eq!(ex.image_url("photo"), "https://example.test/p.png");
    assert!(ex.image_item_opt("photo").is_none());

    let form = FormData::default()
        .with(DataSection::new("Photo").add_image_field("photo", None::<&str>));
    let ex = form.export();
    assert_eq!(ex.image_url("photo"), "");
    assert_eq!(ex.image_url_opt("photo"), None);
}

#[test]
fn edited_cell_exports_current_value() {
    let cell = Value::new("before".to_string());
    let form = FormData::default().with(DataSection::new("S").add_field(
        "k",
        DataFieldValue::Custom(CustomValue {
            value: cell.clone(),
            original_value: Some(Rc::new("before".to_string())),
        }),
    ));
    cell.set("after".to_string());
    let ex = form.export();
    assert_eq!(ex.get_string("k"), "after");
}

#[test]
fn textarea_and_static_custom_export() {
    let form = FormData::default()
        .with(DataSection::new("Notes").add_field(
            "notes",
            DataFieldValue::TextArea(TextAreaValue {
                value: Value::new("dear diary".to_string()),
                original_value: Some(Rc::new("dear diary".to_string())),
                rows: Some(10),
                cols: None,
            }),
        ))
        .with(DataSection::new("Decoration").add_field("deco", DataFieldValue::StaticCustom));
    let ex = form.export();
    assert_eq!(ex.get_string("notes"), "dear diary");
    // A static field still produces a well-formed entry: an empty string.
    assert!(matches!(ex.get("deco"), Some(FieldExport::String(s)) if s.is_empty()));
}

fn multi_field(ids: &[i64]) -> (Value<Vec<Value<i64>>>, DataFieldValue) {
    let cell = Value::new(ids.iter().map(|id| Value::new(*id)).collect::<Vec<_>>());
    let field = DataFieldValue::Multi(MultiValue {
        value: cell.clone(),
        original_value: Rc::new(ids.to_vec()),
        options: vertigo::Computed::from(move |_| HashMap::<i64, String>::new()),
        add_label: Rc::new("Add".to_string()),
    });
    (cell, field)
}

#[test]
fn multi_ordering_appends() {
    let (cell, field) = multi_field(&[]);
    let form = FormData::default().with(DataSection::new("Refs").add_field("k", field));
    for id in [1i64, 2, 3] {
        cell.change(|refs| refs.push(Value::new(id)));
    }
    let ex = form.export();
    assert_eq!(ex.multi::<i64>("k"), vec![1, 2, 3]);
}

#[test]
fn multi_ordering_removal() {
    let (cell, field) = multi_field(&[1, 2, 3]);
    let form = FormData::default().with(DataSection::new("Refs").add_field("k", field));
    cell.change(|refs| {
        refs.remove(1);
    });
    let ex = form.export();
    assert_eq!(ex.multi::<i64>("k"), vec![1, 3]);
}

#[test]
fn multi_reads_element_cells_at_export() {
    let one = Value::new(1i64);
    let cell = Value::new(vec![one.clone(), Value::new(2)]);
    let field = DataFieldValue::Multi(MultiValue {
        value: cell,
        original_value: Rc::new(vec![1, 2]),
        options: vertigo::Computed::from(move |_| HashMap::<i64, String>::new()),
        add_label: Rc::new("Add".to_string()),
    });
    let form = FormData::default().with(DataSection::new("Refs").add_field("k", field));
    one.set(7);
    let ex = form.export();
    assert_eq!(ex.multi::<i64>("k"), vec![7, 2]);
}

#[test]
fn tabs_flatten_into_one_map() {
    let form = FormData::default()
        .with(DataSection::with_string_field("First", "first", "a"))
        .add_tab(
            "Basic",
            vec![DataSection::with_string_field("Second", "second", "b")],
        )
        .add_tab(
            "Other",
            vec![DataSection::with_string_field("Third", "third", "c")],
        );
    let ex = form.export();
    assert_eq!(ex.get_string("first"), "a");
    assert_eq!(ex.get_string("second"), "b");
    assert_eq!(ex.get_string("third"), "c");
}

#[test]
fn key_collision_across_tabs_later_wins() {
    let form = FormData::default()
        .with(DataSection::with_string_field("Early", "k", "early"))
        .add_tab(
            "Tab",
            vec![DataSection::with_string_field("Late", "k", "late")],
        );
    let ex = form.export();
    assert_eq!(ex.get_string("k"), "late");
}

#[test]
fn export_is_a_snapshot_of_one_instant() {
    let cell = Value::new("initial".to_string());
    let form = FormData::default().with(DataSection::new("S").add_field(
        "k",
        DataFieldValue::Custom(CustomValue {
            value: cell.clone(),
            original_value: None,
        }),
    ));
    let ex = transaction(|_| {
        cell.set("written-before-export".to_string());
        form.export()
    });
    // Within the snapshot the export reflects the pending transaction state.
    assert_eq!(ex.get_string("k"), "written-before-export");
}
