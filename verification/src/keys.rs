//! The key bindings: from a pressed key to the controller's closed event
//! set. A few keys change meaning with the focused section; the binding
//! reads the state but never changes it.

use vstd::prelude::*;
use crate::app::App;
use crate::events::InputEvent;
use crate::sections::Focus;
use crate::sections::Section;

verus! {

/// A pressed key, as the controller sees it: the named keys it binds,
/// any printable character, the same with the control modifier held, and
/// everything else folded into `Other`.
#[derive(Clone, Copy, PartialEq, Eq, Structural, Debug)]
pub enum Key {
    Up,
    Down,
    Left,
    Right,
    Enter,
    Tab,
    Backspace,
    Delete,
    PageUp,
    PageDown,
    Char(char),
    CtrlChar(char),
    Other,
}

/// The event a printable character maps to: the quit key, the section
/// shortcuts, the adjustment keys, and — in the Bates prefix field —
/// plain text entry.
pub open spec fn char_binding_spec(app: App, c: char) -> Option<InputEvent> {
    let in_main = app.focus == Focus::Main;
    if c == 'q' {
        Option::Some(InputEvent::Quit)
    } else if in_main && app.current_section == Section::Topics && c == 'l' {
        Option::Some(InputEvent::SecondaryActivate)
    } else if in_main && app.current_section == Section::Topics && c == ' ' {
        Option::Some(InputEvent::Activate)
    } else if in_main && app.current_section == Section::Convert && c == ' ' {
        Option::Some(InputEvent::SecondaryActivate)
    } else if in_main && app.current_section == Section::Run && c == 's' {
        Option::Some(InputEvent::SecondaryActivate)
    } else if in_main && (app.current_section == Section::Quantity || app.current_section
        == Section::Bates) && (c == '+' || c == '=') {
        Option::Some(InputEvent::AdjustUp)
    } else if in_main && (app.current_section == Section::Quantity || app.current_section
        == Section::Bates) && (c == '-' || c == '_') {
        Option::Some(InputEvent::AdjustDown)
    } else if in_main && app.current_section == Section::Bates && app.bates_active_area == 1 {
        Option::Some(InputEvent::TextEdit(c))
    } else {
        Option::None
    }
}

/// The event a key maps to in state `app`: the named keys bind
/// unconditionally, control with `q` or `c` quits, and characters go
/// through [`char_binding_spec`].
pub open spec fn key_binding_spec(app: App, key: Key) -> Option<InputEvent> {
    match key {
        Key::Up => Option::Some(InputEvent::Up),
        Key::Down => Option::Some(InputEvent::Down),
        Key::Left => Option::Some(InputEvent::Left),
        Key::Right => Option::Some(InputEvent::Right),
        Key::Enter => Option::Some(InputEvent::Activate),
        Key::Tab => Option::Some(InputEvent::CycleArea),
        Key::Backspace => Option::Some(InputEvent::Remove),
        Key::Delete => Option::Some(InputEvent::Remove),
        Key::PageUp => Option::Some(InputEvent::ScrollLogUp),
        Key::PageDown => Option::Some(InputEvent::ScrollLogDown),
        Key::Char(c) => char_binding_spec(app, c),
        Key::CtrlChar(c) => if c == 'q' || c == 'c' {
            Option::Some(InputEvent::Quit)
        } else {
            char_binding_spec(app, c)
        },
        Key::Other => Option::None,
    }
}

impl App {
    /// Maps one pressed key to an input event, or to nothing when the key
    /// is unbound in the current state.
    pub fn map_key(&self, key: Key) -> (r: Option<InputEvent>)
        ensures
            r == key_binding_spec(*self, key),
    {
        match key {
            Key::Up => Option::Some(InputEvent::Up),
            Key::Down => Option::Some(InputEvent::Down),
            Key::Left => Option::Some(InputEvent::Left),
            Key::Right => Option::Some(InputEvent::Right),
            Key::Enter => Option::Some(InputEvent::Activate),
            Key::Tab => Option::Some(InputEvent::CycleArea),
            Key::Backspace => Option::Some(InputEvent::Remove),
            Key::Delete => Option::Some(InputEvent::Remove),
            Key::PageUp => Option::Some(InputEvent::ScrollLogUp),
            Key::PageDown => Option::Some(InputEvent::ScrollLogDown),
            Key::Char(c) => self.map_char(c),
            Key::CtrlChar(c) => {
                if c == 'q' || c == 'c' {
                    Option::Some(InputEvent::Quit)
                } else {
                    self.map_char(c)
                }
            },
            Key::Other => Option::None,
        }
    }

    /// Maps one printable character.
    fn map_char(&self, c: char) -> (r: Option<InputEvent>)
        ensures
            r == char_binding_spec(*self, c),
    {
        let in_main = self.focus == Focus::Main;
        if c == 'q' {
            Option::Some(InputEvent::Quit)
        } else if in_main && self.current_section == Section::Topics && c == 'l' {
            Option::Some(InputEvent::SecondaryActivate)
        } else if in_main && self.current_section == Section::Topics && c == ' ' {
            Option::Some(InputEvent::Activate)
        } else if in_main && self.current_section == Section::Convert && c == ' ' {
            Option::Some(InputEvent::SecondaryActivate)
        } else if in_main && self.current_section == Section::Run && c == 's' {
            Option::Some(InputEvent::SecondaryActivate)
        } else if in_main && (self.current_section == Section::Quantity || self.current_section
            == Section::Bates) && (c == '+' || c == '=') {
            Option::Some(InputEvent::AdjustUp)
        } else if in_main && (self.current_section == Section::Quantity || self.current_section
            == Section::Bates) && (c == '-' || c == '_') {
            Option::Some(InputEvent::AdjustDown)
        } else if in_main && self.current_section == Section::Bates && self.bates_active_area == 1 {
            Option::Some(InputEvent::TextEdit(c))
        } else {
            Option::None
        }
    }
}

} // verus!
