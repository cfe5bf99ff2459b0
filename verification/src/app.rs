//! The elm-style demonstration component: a window with a text input, a
//! submit button, a slider mirrored by a progress bar, a checkbox and a
//! toggler.
//!
//! The component's state is five fields; its update function maps each
//! user-interface message to the one field it sets and touches nothing
//! else, and never issues a follow-up command.  The slider's position is
//! kept in hundredths of its unit range, so the toolkit's fractional
//! positions carry over to plain integers.

use vstd::prelude::*;

use crate::config::spec_app_id;

verus! {

/// The slider's (and the progress bar's) largest position, in hundredths
/// of a range unit: the range runs from 0 to 100 units.
pub const SLIDER_MAX: u32 = 10000;

/// The colour theme the component is rendered with.
#[derive(Clone, Copy, Debug, PartialEq, Eq, Structural)]
pub enum Theme {
    Light,
    Dark,
}

impl Default for Theme {
    /// The desktop's dark style is the initial theme.
    fn default() -> (t: Theme)
        ensures
            t is Dark,
    {
        Theme::Dark
    }
}

/// A user-interface message the component can receive.
#[derive(Clone, Debug, PartialEq, Eq)]
pub enum Message {
    /// The text input's content changed.
    InputChanged(String),
    /// The submit button was pressed.
    ButtonPressed,
    /// The slider was moved; the position is in hundredths of a unit.
    SliderChanged(u32),
    /// The checkbox was toggled.
    CheckboxToggled(bool),
    /// The toggler was flipped.
    TogglerToggled(bool),
    /// The surface with the given id asked to close.
    Closed(u64),
}

/// The component's state.
#[derive(Clone, Debug)]
pub struct CosmicApplicationTemplate {
    /// The theme the component is rendered with.
    pub theme: Theme,
    /// Content of the text input.
    pub input_value: String,
    /// Position of the slider, in hundredths of a unit.
    pub slider_value: u32,
    /// Whether the checkbox is checked.
    pub checkbox_value: bool,
    /// Whether the toggler is on.
    pub toggler_value: bool,
}

/// What the widgets of the component's view display, as plain values:
/// the data the view draws from the state, beside its fixed labels.
pub struct ViewModel {
    /// Placeholder shown by the empty text input.
    pub input_placeholder: &'static str,
    /// Content of the text input.
    pub input_value: String,
    /// Label of the submit button.
    pub button_label: &'static str,
    /// The slider's position, in hundredths of a unit.
    pub slider_value: u32,
    /// The progress bar's position: it mirrors the slider.
    pub progress_value: u32,
    /// Label and state of the checkbox.
    pub checkbox_label: &'static str,
    pub checkbox_checked: bool,
    /// Label and state of the toggler.
    pub toggler_label: &'static str,
    pub toggler_active: bool,
}

impl CosmicApplicationTemplate {
    /// The slider position never leaves the slider's range.
    pub open spec fn wf(self) -> bool {
        self.slider_value <= SLIDER_MAX
    }

    /// Build the component in its initial state: everything empty, off
    /// and at zero, under the default theme.
    pub fn new() -> (t: CosmicApplicationTemplate)
        ensures
            t.theme is Dark,
            t.input_value@ == Seq::<char>::empty(),
            t.slider_value == 0,
            !t.checkbox_value,
            !t.toggler_value,
            t.wf(),
    {
        CosmicApplicationTemplate {
            theme: Theme::Dark,
            input_value: String::new(),
            slider_value: 0,
            checkbox_value: false,
            toggler_value: false,
        }
    }

    /// The window title: the application identifier.
    pub fn title(&self) -> (t: String)
        ensures
            t@ == spec_app_id(),
    {
        crate::config::app_id().to_string()
    }

    /// Apply a message: each message sets the one field it is about and
    /// leaves every other field alone; no message asks for follow-up
    /// work.  A close message is not handled here — the surrounding
    /// runtime tears the surface down instead.
    pub fn update(&mut self, message: Message)
        requires
            old(self).wf(),
            !(message is Closed),
            message matches Message::SliderChanged(v) ==> v <= SLIDER_MAX,
        ensures
            final(self).wf(),
            message matches Message::InputChanged(value) ==> final(self).input_value == value,
            !(message is InputChanged) ==> final(self).input_value == old(self).input_value,
            message matches Message::SliderChanged(value) ==> final(self).slider_value == value,
            !(message is SliderChanged) ==> final(self).slider_value == old(self).slider_value,
            message matches Message::CheckboxToggled(value) ==> final(self).checkbox_value
                == value,
            !(message is CheckboxToggled) ==> final(self).checkbox_value == old(
                self,
            ).checkbox_value,
            message matches Message::TogglerToggled(value) ==> final(self).toggler_value == value,
            !(message is TogglerToggled) ==> final(self).toggler_value == old(self).toggler_value,
            final(self).theme == old(self).theme,
    {
        match message {
            Message::InputChanged(value) => self.input_value = value,
            Message::ButtonPressed => {},
            Message::SliderChanged(value) => self.slider_value = value,
            Message::CheckboxToggled(value) => self.checkbox_value = value,
            Message::TogglerToggled(value) => self.toggler_value = value,
            Message::Closed(_) => {},
        }
    }

    /// The data the view displays.  Every stateful widget mirrors its
    /// field of the state, and the progress bar mirrors the slider.
    pub fn view_model(&self) -> (v: ViewModel)
        ensures
            v.input_placeholder@ == "Type something..."@,
            v.input_value == self.input_value,
            v.button_label@ == "Submit"@,
            v.slider_value == self.slider_value,
            v.progress_value == self.slider_value,
            v.checkbox_label@ == "Check me!"@,
            v.checkbox_checked == self.checkbox_value,
            v.toggler_label@ == "Toggle me!"@,
            v.toggler_active == self.toggler_value,
    {
        ViewModel {
            input_placeholder: "Type something...",
            input_value: self.input_value.clone(),
            button_label: "Submit",
            slider_value: self.slider_value,
            progress_value: self.slider_value,
            checkbox_label: "Check me!",
            checkbox_checked: self.checkbox_value,
            toggler_label: "Toggle me!",
            toggler_active: self.toggler_value,
        }
    }

    /// The theme the component is rendered with.
    pub fn theme(&self) -> (t: Theme)
        ensures
            t == self.theme,
    {
        self.theme
    }

    /// The message a close request on the surface with the given id
    /// becomes.
    pub fn close_requested(&self, id: u64) -> (m: Message)
        ensures
            m == Message::Closed(id),
    {
        Message::Closed(id)
    }
}

impl Default for CosmicApplicationTemplate {
    /// The initial state, as `new` builds it.
    fn default() -> (t: CosmicApplicationTemplate)
        ensures
            t.theme is Dark,
            t.input_value@ == Seq::<char>::empty(),
            t.slider_value == 0,
            !t.checkbox_value,
            !t.toggler_value,
    {
        CosmicApplicationTemplate::new()
    }
}

} // verus!
