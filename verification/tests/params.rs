//! Widget parameter defaults and section/form configuration flags.

use vertigo_forms::form::{ControlsConfig, DataSection, FieldsetStyle, FormData};
use vertigo_forms::{
    DisplayType, InputWithButtonParams, SearchPanelParams, SearchResult, SelectSearchParams,
    SwitchParams,
};

#[test]
fn switch_params_defaults() {
    let params = SwitchParams::default();
    assert!(matches!(params.display_type, DisplayType::Button));
    assert_eq!(params.on_symbol, "ON");
    assert_eq!(params.off_symbol, "OFF");

    let params = SwitchParams::checkbox();
    assert!(matches!(params.display_type, DisplayType::CheckBox));
    assert_eq!(params.on_symbol, "");
    assert_eq!(params.off_symbol, "");
}

#[test]
fn input_with_button_params_default() {
    assert_eq!(InputWithButtonParams::default().button_label, "OK");
}

#[test]
fn search_panel_params_default() {
    let params = SearchPanelParams::default();
    assert_eq!(params.min_chars, 3);
    assert_eq!(params.prompt, "Search: ");
    assert_eq!(params.hint, "Enter at least {min_chars} letters");
    assert_eq!(params.loading_text, "Loading...");
    assert_eq!(params.empty_text, "No results");
}

#[test]
fn search_result_for_vec() {
    assert!(SearchResult::is_empty(&Vec::<u8>::new()));
    assert!(!SearchResult::is_empty(&vec![1]));
}

#[test]
fn select_search_params_default() {
    let params = SelectSearchParams::default();
    assert_eq!(params.min_chars, 3);
    assert_eq!(params.input_title, "Enter phrase");
}

#[test]
fn section_and_controls_configuration() {
    let section = DataSection::new("Dims")
        .set_fieldset_style(FieldsetStyle::Dimensions)
        .starts_new_group();
    assert_eq!(section.fieldset_style, FieldsetStyle::Dimensions);
    assert!(section.new_group);
    assert_eq!(section.label, "Dims");
    assert!(section.fields.is_empty());
    assert_eq!(FieldsetStyle::default(), FieldsetStyle::Plain);

    let full = ControlsConfig::full();
    assert!(full.submit && full.delete);
    let none = ControlsConfig::default();
    assert!(!none.submit && !none.delete);

    let form = FormData::default().add_top_controls().add_bottom_controls();
    assert!(form.top_controls.submit && form.top_controls.delete);
    assert!(form.bottom_controls.submit && form.bottom_controls.delete);
    assert!(form.sections.is_empty());
    assert!(form.tabs.is_empty());
}

#[test]
fn styled_controls_and_fieldset_css() {
    let css = vertigo::Css::str("margin: 5px;");
    let styled = ControlsConfig::full().with_css(css.clone());
    assert!(styled.submit && styled.delete);
    assert!(styled.css.is_some());

    let form = FormData::default()
        .add_top_controls_styled(css.clone())
        .add_bottom_controls_styled(css.clone());
    assert!(form.top_controls.css.is_some());
    assert!(form.bottom_controls.css.is_some());

    let section = DataSection::new("S").set_fieldset_css(css);
    assert!(section.fieldset_css.is_some());
}
