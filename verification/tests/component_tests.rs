use cosmic_application_template::app::{CosmicApplicationTemplate, Message, Theme, SLIDER_MAX};
use cosmic_application_template::app_id;

#[test]
fn initial_state() {
    let t = CosmicApplicationTemplate::new();
    assert_eq!(t.theme, Theme::Dark);
    assert_eq!(t.input_value, "");
    assert_eq!(t.slider_value, 0);
    assert!(!t.checkbox_value);
    assert!(!t.toggler_value);

    let d = CosmicApplicationTemplate::default();
    assert_eq!(d.theme, t.theme);
    assert_eq!(d.input_value, t.input_value);
    assert_eq!(d.slider_value, t.slider_value);
}

#[test]
fn title_is_the_application_id() {
    let t = CosmicApplicationTemplate::new();
    assert_eq!(t.title(), app_id());
}

#[test]
fn input_changed_sets_only_the_input() {
    let mut t = CosmicApplicationTemplate::new();
    t.update(Message::InputChanged("hello".to_string()));
    assert_eq!(t.input_value, "hello");
    assert_eq!(t.slider_value, 0);
    assert!(!t.checkbox_value);
    assert!(!t.toggler_value);
    assert_eq!(t.theme, Theme::Dark);
}

#[test]
fn button_press_changes_nothing() {
    let mut t = CosmicApplicationTemplate::new();
    t.update(Message::InputChanged("kept".to_string()));
    t.update(Message::ButtonPressed);
    assert_eq!(t.input_value, "kept");
    assert_eq!(t.slider_value, 0);
    assert!(!t.checkbox_value);
    assert!(!t.toggler_value);
}

#[test]
fn slider_changed_sets_only_the_slider() {
    let mut t = CosmicApplicationTemplate::new();
    t.update(Message::SliderChanged(SLIDER_MAX / 2));
    assert_eq!(t.slider_value, SLIDER_MAX / 2);
    assert_eq!(t.input_value, "");
    assert!(!t.checkbox_value);
}

#[test]
fn checkbox_and_toggler_keep_their_own_fields() {
    let mut t = CosmicApplicationTemplate::new();
    t.update(Message::CheckboxToggled(true));
    assert!(t.checkbox_value);
    assert!(!t.toggler_value);

    t.update(Message::TogglerToggled(true));
    assert!(t.toggler_value);
    assert!(t.checkbox_value);

    t.update(Message::CheckboxToggled(false));
    assert!(!t.checkbox_value);
    assert!(t.toggler_value);
}

#[test]
fn close_request_becomes_a_closed_message() {
    let t = CosmicApplicationTemplate::new();
    assert_eq!(t.close_requested(7), Message::Closed(7));
}

#[test]
fn theme_getter_mirrors_the_state() {
    let t = CosmicApplicationTemplate::new();
    assert_eq!(t.theme(), Theme::Dark);
}

#[test]
fn view_mirrors_the_state() {
    let mut t = CosmicApplicationTemplate::new();
    t.update(Message::InputChanged("typed".to_string()));
    t.update(Message::SliderChanged(2500));
    t.update(Message::CheckboxToggled(true));

    let v = t.view_model();
    assert_eq!(v.input_placeholder, "Type something...");
    assert_eq!(v.input_value, "typed");
    assert_eq!(v.button_label, "Submit");
    assert_eq!(v.slider_value, 2500);
    assert_eq!(v.progress_value, 2500);
    assert_eq!(v.checkbox_label, "Check me!");
    assert!(v.checkbox_checked);
    assert_eq!(v.toggler_label, "Toggle me!");
    assert!(!v.toggler_active);
}

#[test]
fn progress_bar_always_mirrors_the_slider() {
    let mut t = CosmicApplicationTemplate::new();
    for position in [0, 1, 99, SLIDER_MAX] {
        t.update(Message::SliderChanged(position));
        let v = t.view_model();
        assert_eq!(v.progress_value, v.slider_value);
        assert_eq!(v.progress_value, position);
    }
}
