//! The accessor facade on sealed exports: typed getters, documented defaults,
//! nonify, image precedence, and last-entry-wins on key collisions.

use std::rc::Rc;

use vertigo_forms::form::{FieldExport, FormExport};

fn export_of(entries: Vec<(&str, FieldExport)>) -> FormExport {
    FormExport::new(entries.into_iter().map(|(k, v)| (k.to_string(), v)).collect())
}

#[test]
fn missing_key_defaults() {
    let ex = export_of(vec![]);
    assert_eq!(ex.get_bool("x"), false);
    assert_eq!(ex.get_bool_opt("x"), None);
    assert_eq!(ex.get_string("missing"), "");
    assert_eq!(ex.get_string_opt("missing"), None);
    assert_eq!(ex.dict_or_default::<i64>("missing"), 0);
    assert_eq!(ex.multi::<i64>("missing"), Vec::<i64>::new());
    assert_eq!(ex.list::<String>("missing"), None);
    assert_eq!(ex.list_or_default::<String>("missing"), "");
    assert_eq!(ex.image_url("missing"), "");
    assert_eq!(ex.image_url_opt("missing"), None);
    assert!(ex.image_item_opt("missing").is_none());
    assert!(ex.image_orig_url_opt("missing").is_none());
    assert!(ex.get("missing").is_none());
}

#[test]
fn variant_mismatch_defaults() {
    let ex = export_of(vec![
        ("s", FieldExport::String("text".to_string())),
        ("b", FieldExport::Bool(true)),
    ]);
    assert_eq!(ex.get_bool("s"), false);
    assert_eq!(ex.get_string("b"), "");
    assert_eq!(ex.dict_or_default::<i64>("s"), 0);
    assert_eq!(ex.multi::<i64>("b"), Vec::<i64>::new());
    assert_eq!(ex.list::<String>("s"), None);
    assert_eq!(ex.image_url_opt("s"), None);
}

#[test]
fn string_accessors_and_nonify() {
    let ex = export_of(vec![
        ("plain", FieldExport::String("a".to_string())),
        ("blank", FieldExport::String("   ".to_string())),
        ("empty", FieldExport::String(String::new())),
        ("tabbed", FieldExport::String("\t\n ".to_string())),
    ]);
    assert_eq!(ex.get_string_opt("plain"), Some("a".to_string()));
    assert_eq!(ex.get_string("plain"), "a");
    assert_eq!(ex.get_string_opt("blank"), None);
    assert_eq!(ex.get_string("blank"), "");
    assert_eq!(ex.get_string_opt("empty"), None);
    assert_eq!(ex.get_string_opt("tabbed"), None);
}

#[test]
fn nonify_directly() {
    assert_eq!(vertigo_forms::nonify("   ".to_string()), None);
    assert_eq!(vertigo_forms::nonify("a".to_string()), Some("a".to_string()));
    assert_eq!(vertigo_forms::nonify(String::new()), None);
    assert_eq!(vertigo_forms::nonify(" a ".to_string()), Some(" a ".to_string()));
    // U+00A0 has the Unicode White_Space property.
    assert_eq!(vertigo_forms::nonify("\u{a0}\u{a0}".to_string()), None);
}

#[test]
fn list_accessors() {
    let ex = export_of(vec![
        ("choice", FieldExport::List("diesel".to_string())),
        ("blank", FieldExport::List("  ".to_string())),
    ]);
    assert_eq!(ex.list::<String>("choice"), Some("diesel".to_string()));
    assert_eq!(ex.list_or_default::<String>("choice"), "diesel");
    assert_eq!(ex.list::<String>("blank"), None);
    assert_eq!(ex.list_or_default::<String>("blank"), "");
}

#[test]
fn dict_and_multi_accessors() {
    let ex = export_of(vec![
        ("role", FieldExport::Dict(42)),
        ("refs", FieldExport::Multi(vec![5, 1, 9])),
    ]);
    assert_eq!(ex.dict_or_default::<i64>("role"), 42);
    assert_eq!(ex.multi::<i64>("refs"), vec![5, 1, 9]);
    assert_eq!(ex.multi::<i128>("refs"), vec![5i128, 1, 9]);
    assert_eq!(ex.get_bool_opt("role"), None);
}

#[test]
fn bool_accessors() {
    let ex = export_of(vec![
        ("yes", FieldExport::Bool(true)),
        ("no", FieldExport::Bool(false)),
    ]);
    assert_eq!(ex.get_bool("yes"), true);
    assert_eq!(ex.get_bool_opt("yes"), Some(true));
    assert_eq!(ex.get_bool("no"), false);
    assert_eq!(ex.get_bool_opt("no"), Some(false));
}

#[test]
fn image_precedence() {
    let item = vertigo::DropFileItem::new("photo.png".to_string(), vec![1, 2, 3]);
    let link = Rc::new("https://example.test/orig.png".to_string());

    // Original link only: the URL falls back to the link.
    let ex = export_of(vec![("img", FieldExport::Image((Some(link.clone()), None)))]);
    assert_eq!(ex.image_url("img"), "https://example.test/orig.png");
    assert_eq!(
        ex.image_url_opt("img"),
        Some("https://example.test/orig.png".to_string())
    );
    assert!(ex.image_item_opt("img").is_none());
    assert_eq!(
        ex.image_orig_url_opt("img").map(|l| l.to_string()),
        Some("https://example.test/orig.png".to_string())
    );

    // A dropped payload wins over the link, as a data URI.
    let ex = export_of(vec![(
        "img",
        FieldExport::Image((Some(link), Some(item.clone()))),
    )]);
    assert_eq!(ex.image_url("img"), "data:image/png;base64,AQID");
    assert_eq!(ex.image_item_opt("img"), Some(item));
    assert_eq!(
        ex.image_orig_url_opt("img").map(|l| l.to_string()),
        Some("https://example.test/orig.png".to_string())
    );

    // Neither payload nor link.
    let ex = export_of(vec![("img", FieldExport::Image((None, None)))]);
    assert_eq!(ex.image_url("img"), "");
    assert_eq!(ex.image_url_opt("img"), None);
}

#[test]
fn image_data_uri_exact() {
    let item = vertigo::DropFileItem::new("scan.jpeg".to_string(), b"hello".to_vec());
    assert_eq!(
        vertigo_forms::image_as_uri(&item),
        "data:image/jpeg;base64,aGVsbG8"
    );
    let empty = vertigo::DropFileItem::new("a.gif".to_string(), Vec::new());
    assert_eq!(vertigo_forms::image_as_uri(&empty), "data:image/gif;base64,");
}

#[test]
fn mime_lookup() {
    assert_eq!(vertigo_forms::name_to_mime("a.jpg"), "image/jpeg");
    assert_eq!(vertigo_forms::name_to_mime("a.jpeg"), "image/jpeg");
    assert_eq!(vertigo_forms::name_to_mime("a.jpe"), "image/jpeg");
    assert_eq!(vertigo_forms::name_to_mime("a.png"), "image/png");
    assert_eq!(vertigo_forms::name_to_mime("a.svg"), "image/svg+xml");
    assert_eq!(vertigo_forms::name_to_mime("a.gif"), "image/gif");
    assert_eq!(vertigo_forms::name_to_mime("a.bmp"), "image/bmp");
    assert_eq!(vertigo_forms::name_to_mime("a.ico"), "image/ico");
    assert_eq!(
        vertigo_forms::name_to_mime("archive.tar.png"),
        "image/png"
    );
    assert_eq!(
        vertigo_forms::name_to_mime("noext"),
        "application/octet-stream"
    );
    assert_eq!(
        vertigo_forms::name_to_mime(".gitignore"),
        "application/octet-stream"
    );
    assert_eq!(
        vertigo_forms::name_to_mime("dir/sub.png/file"),
        "application/octet-stream"
    );
    assert_eq!(vertigo_forms::name_to_mime("dir.d/img.png"), "image/png");
    assert_eq!(vertigo_forms::name_to_mime(""), "application/octet-stream");
}

#[test]
fn key_collision_later_entry_wins() {
    let ex = export_of(vec![
        ("k", FieldExport::String("first".to_string())),
        ("k", FieldExport::String("second".to_string())),
    ]);
    assert_eq!(ex.get_string("k"), "second");

    let ex = export_of(vec![
        ("k", FieldExport::String("text".to_string())),
        ("k", FieldExport::Bool(true)),
    ]);
    assert_eq!(ex.get_bool("k"), true);
    assert_eq!(ex.get_string("k"), "");
}
