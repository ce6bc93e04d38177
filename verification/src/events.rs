//! The closed input-event set and the single dispatch that turns one
//! event into a state transition plus, for a few events, a side effect
//! the host must carry out.

use vstd::prelude::*;
use vstd::string::StrSliceExecFns;
use vstd::string::StringExecFns;
use crate::app::App;
use crate::app::BATES_PREFIX_CAP;
use crate::channel::JobKind;
use crate::data::BATES_SEPARATOR_COUNT;
use crate::data::theme_name;
use crate::data::theme_name_spec;
use crate::jobs::GenerationLaunch;
use crate::jobs::JobLaunch;
use crate::launch::bates_launch_decided;
use crate::launch::conversion_launch_decided;
use crate::launch::gen_launch_decided;
use crate::logbuf::log_appended;
use crate::logbuf::log_scrolled_down;
use crate::logbuf::log_scrolled_up;
use crate::nav::nav_down;
use crate::nav::nav_up;
use crate::nav::quantity_decremented;
use crate::nav::quantity_incremented;
use crate::sections::Focus;
use crate::sections::Section;
use crate::topics::topic_panel_cycled;
use crate::topics::topic_removed;
use crate::topics::topic_selection;

verus! {

/// The closed set of input events the controller understands.
#[derive(Clone, Copy, PartialEq, Eq, Structural, Debug)]
pub enum InputEvent {
    Up,
    Down,
    Left,
    Right,
    Activate,
    SecondaryActivate,
    CycleArea,
    Remove,
    TextEdit(char),
    AdjustUp,
    AdjustDown,
    ScrollLogUp,
    ScrollLogDown,
    Quit,
}

/// What the host must do after a transition: nothing, run one of the two
/// value-producing collaborators, or spawn a described job.
#[derive(Debug)]
pub enum Effect {
    Nothing,
    LoadTopics,
    GenerateCompanies,
    Launch(JobLaunch),
    LaunchGeneration(GenerationLaunch),
}

/// Relies on String::push: appends the given character to the end.
#[verifier::external_body]
pub(crate) fn push_char(s: &mut String, c: char)
    ensures
        final(s)@ == old(s)@.push(c),
{
    s.push(c)
}

/// Relies on String::pop: removes and returns the last character, or
/// returns nothing from an empty string.
#[verifier::external_body]
pub(crate) fn pop_char(s: &mut String) -> (r: Option<char>)
    ensures
        old(s)@.len() == 0 ==> final(s)@ == old(s)@ && r is None,
        old(s)@.len() > 0 ==> final(s)@ == old(s)@.drop_last() && r == Option::Some(
            old(s)@.last(),
        ),
{
    s.pop()
}

/// Holds around one Activate: with the sidebar focused nothing happens;
/// otherwise the current section's activation runs — a topic move or load
/// request, a company-generation request, a launch decision, or
/// committing the theme under the settings cursor.
pub open spec fn activated(pre: App, post: App, eff: Effect) -> bool {
    if pre.focus != Focus::Main {
        post == pre && eff is Nothing
    } else {
        match pre.current_section {
            Section::Topics => {
                &&& topic_selection(pre, post, pre.topic_panel == 0)
                &&& if pre.topic_panel == 0 {
                    eff is LoadTopics
                } else {
                    eff is Nothing
                }
            },
            Section::Companies => post == pre && eff is GenerateCompanies,
            Section::Run => gen_activation(pre, post, eff),
            Section::Convert => if pre.convert_active_area == 2 {
                conversion_activation(pre, post, eff)
            } else {
                post == pre && eff is Nothing
            },
            Section::Bates => if pre.bates_active_area == 5 {
                bates_activation(pre, post, eff)
            } else {
                post == pre && eff is Nothing
            },
            Section::Settings => theme_committed(pre, post) && eff is Nothing,
            _ => post == pre && eff is Nothing,
        }
    }
}

/// A generation-launch decision, with the decision's outcome carried in
/// the effect.
pub open spec fn gen_activation(pre: App, post: App, eff: Effect) -> bool {
    match eff {
        Effect::LaunchGeneration(g) => gen_launch_decided(pre, post, Option::Some(g)),
        Effect::Nothing => gen_launch_decided(pre, post, Option::None),
        _ => false,
    }
}

/// A conversion-launch decision, with the outcome carried in the effect.
pub open spec fn conversion_activation(pre: App, post: App, eff: Effect) -> bool {
    match eff {
        Effect::Launch(l) => l.kind == JobKind::Conversion && conversion_launch_decided(
            pre,
            post,
            Option::Some(l),
        ),
        Effect::Nothing => conversion_launch_decided(pre, post, Option::None),
        _ => false,
    }
}

/// A stamping-launch decision, with the outcome carried in the effect.
pub open spec fn bates_activation(pre: App, post: App, eff: Effect) -> bool {
    match eff {
        Effect::Launch(l) => l.kind == JobKind::Stamping && bates_launch_decided(
            pre,
            post,
            Option::Some(l),
        ),
        Effect::Nothing => bates_launch_decided(pre, post, Option::None),
        _ => false,
    }
}

/// Commits the palette under the settings cursor as the active theme and
/// logs the change.
pub open spec fn theme_committed(pre: App, post: App) -> bool {
    &&& post == (App { theme_index: pre.settings_cursor, logs: post.logs, ..pre })
    &&& log_appended(
        pre.logs,
        post.logs,
        "Theme changed to: "@ + theme_name_spec(pre.settings_cursor as int),
    )
}

/// Holds around one SecondaryActivate: re-triggers topic loading, toggles
/// the combine flag while that area is active, or starts generation from
/// the Run section.
pub open spec fn secondary_activated(pre: App, post: App, eff: Effect) -> bool {
    if pre.focus != Focus::Main {
        post == pre && eff is Nothing
    } else {
        match pre.current_section {
            Section::Topics => post == pre && eff is LoadTopics,
            Section::Convert => if pre.convert_active_area == 1 {
                post == (App { convert_combine: !pre.convert_combine, ..pre }) && eff is Nothing
            } else {
                post == pre && eff is Nothing
            },
            Section::Run => gen_activation(pre, post, eff),
            _ => post == pre && eff is Nothing,
        }
    }
}

/// Holds around one CycleArea: the topic panels cycle with their skip
/// rule; the Convert and Bates areas advance modulo their own counts.
pub open spec fn area_cycled(pre: App, post: App) -> bool {
    if pre.focus != Focus::Main {
        post == pre
    } else {
        match pre.current_section {
            Section::Topics => topic_panel_cycled(pre, post),
            Section::Convert => post == (App {
                convert_active_area: ((pre.convert_active_area + 1) % 3) as usize,
                ..pre
            }),
            Section::Bates => post == (App {
                bates_active_area: ((pre.bates_active_area + 1) % 6) as usize,
                ..pre
            }),
            _ => post == pre,
        }
    }
}

/// Holds around one Remove: deletes the selected topic under the cursor,
/// or erases the last character of the Bates prefix while its area is
/// active.
pub open spec fn remove_handled(pre: App, post: App) -> bool {
    if pre.focus != Focus::Main {
        post == pre
    } else {
        match pre.current_section {
            Section::Topics => topic_removed(pre, post),
            Section::Bates => if pre.bates_active_area == 1 {
                &&& post == (App { bates_prefix: post.bates_prefix, ..pre })
                &&& post.bates_prefix@ == (if pre.bates_prefix@.len() == 0 {
                    pre.bates_prefix@
                } else {
                    pre.bates_prefix@.drop_last()
                })
            } else {
                post == pre
            },
            _ => post == pre,
        }
    }
}

/// Holds around one TextEdit: appends the character to the Bates prefix
/// while its area is active and the field is under its cap.
pub open spec fn text_edited(pre: App, post: App, c: char) -> bool {
    if pre.focus == Focus::Main && pre.current_section == Section::Bates
        && pre.bates_active_area == 1 && pre.bates_prefix@.len() < BATES_PREFIX_CAP as int {
        &&& post == (App { bates_prefix: post.bates_prefix, ..pre })
        &&& post.bates_prefix@ == pre.bates_prefix@.push(c)
    } else {
        post == pre
    }
}

/// Holds around one AdjustUp: raises the active Quantity field, or cycles
/// and raises the Bates fields — the separator wraps forward, the start
/// number grows freely, the padding caps at twelve.
pub open spec fn adjusted_up(pre: App, post: App) -> bool {
    if pre.focus != Focus::Main {
        post == pre
    } else {
        match pre.current_section {
            Section::Quantity => quantity_incremented(pre, post),
            Section::Bates => if pre.bates_active_area == 2 {
                post == (App {
                    bates_separator_index: ((pre.bates_separator_index + 1) % (
                    BATES_SEPARATOR_COUNT as int)) as usize,
                    ..pre
                })
            } else if pre.bates_active_area == 3 {
                post == (App {
                    bates_start: (if pre.bates_start == 0xFFFF_FFFF {
                        0xFFFF_FFFFint
                    } else {
                        pre.bates_start + 1
                    }) as u32,
                    ..pre
                })
            } else if pre.bates_active_area == 4 {
                post == (App {
                    bates_padding: (if pre.bates_padding + 1 > 12 {
                        12int
                    } else {
                        pre.bates_padding + 1
                    }) as u32,
                    ..pre
                })
            } else {
                post == pre
            },
            _ => post == pre,
        }
    }
}

/// Holds around one AdjustDown: lowers the active Quantity field, or
/// cycles and lowers the Bates fields — the separator wraps backward, the
/// start number and padding floor at one.
pub open spec fn adjusted_down(pre: App, post: App) -> bool {
    if pre.focus != Focus::Main {
        post == pre
    } else {
        match pre.current_section {
            Section::Quantity => quantity_decremented(pre, post),
            Section::Bates => if pre.bates_active_area == 2 {
                post == (App {
                    bates_separator_index: (if pre.bates_separator_index == 0 {
                        BATES_SEPARATOR_COUNT - 1
                    } else {
                        pre.bates_separator_index - 1
                    }) as usize,
                    ..pre
                })
            } else if pre.bates_active_area == 3 {
                post == (App {
                    bates_start: (if pre.bates_start <= 1 {
                        1int
                    } else {
                        pre.bates_start - 1
                    }) as u32,
                    ..pre
                })
            } else if pre.bates_active_area == 4 {
                post == (App {
                    bates_padding: (if pre.bates_padding <= 1 {
                        1int
                    } else {
                        pre.bates_padding - 1
                    }) as u32,
                    ..pre
                })
            } else {
                post == pre
            },
            _ => post == pre,
        }
    }
}

/// Holds between the states around one dispatched input event, with the
/// effect the host must carry out. Every pair of state and event has a
/// defined outcome; there is no rejection path.
pub open spec fn event_handled(pre: App, post: App, ev: InputEvent, eff: Effect) -> bool {
    match ev {
        InputEvent::Quit => post == (App { should_quit: true, ..pre }) && eff is Nothing,
        InputEvent::Up => nav_up(pre, post) && eff is Nothing,
        InputEvent::Down => nav_down(pre, post) && eff is Nothing,
        InputEvent::Left => post == (App { focus: Focus::Sidebar, ..pre }) && eff is Nothing,
        InputEvent::Right => (if pre.focus == Focus::Sidebar {
            post == (App { focus: Focus::Main, ..pre })
        } else {
            post == pre
        }) && eff is Nothing,
        InputEvent::ScrollLogUp => post == (App { logs: post.logs, ..pre }) && log_scrolled_up(
            pre.logs,
            post.logs,
        ) && eff is Nothing,
        InputEvent::ScrollLogDown => post == (App { logs: post.logs, ..pre }) && log_scrolled_down(
            pre.logs,
            post.logs,
        ) && eff is Nothing,
        InputEvent::Activate => activated(pre, post, eff),
        InputEvent::SecondaryActivate => secondary_activated(pre, post, eff),
        InputEvent::CycleArea => area_cycled(pre, post) && eff is Nothing,
        InputEvent::Remove => remove_handled(pre, post) && eff is Nothing,
        InputEvent::TextEdit(c) => text_edited(pre, post, c) && eff is Nothing,
        InputEvent::AdjustUp => adjusted_up(pre, post) && eff is Nothing,
        InputEvent::AdjustDown => adjusted_down(pre, post) && eff is Nothing,
    }
}

impl App {
    /// Activate on the current section.
    fn activate(&mut self) -> (eff: Effect)
        requires
            old(self).wf(),
        ensures
            final(self).wf(),
            activated(*old(self), *final(self), eff),
    {
        if self.focus != Focus::Main {
            return Effect::Nothing;
        }
        match self.current_section {
            Section::Topics => {
                let load = self.select_topic();
                if load {
                    Effect::LoadTopics
                } else {
                    Effect::Nothing
                }
            },
            Section::Companies => Effect::GenerateCompanies,
            Section::Run => {
                match self.start_generation() {
                    Option::Some(g) => Effect::LaunchGeneration(g),
                    Option::None => Effect::Nothing,
                }
            },
            Section::Convert => {
                if self.convert_active_area == 2 {
                    match self.start_conversion() {
                        Option::Some(l) => Effect::Launch(l),
                        Option::None => Effect::Nothing,
                    }
                } else {
                    Effect::Nothing
                }
            },
            Section::Bates => {
                if self.bates_active_area == 5 {
                    match self.start_bates_stamp() {
                        Option::Some(l) => Effect::Launch(l),
                        Option::None => Effect::Nothing,
                    }
                } else {
                    Effect::Nothing
                }
            },
            Section::Settings => {
                self.theme_index = self.settings_cursor;
                let msg = String::from_str("Theme changed to: ").concat(
                    theme_name(self.settings_cursor),
                );
                self.logs.push(msg);
                Effect::Nothing
            },
            _ => Effect::Nothing,
        }
    }

    /// SecondaryActivate on the current section.
    fn secondary_activate(&mut self) -> (eff: Effect)
        requires
            old(self).wf(),
        ensures
            final(self).wf(),
            secondary_activated(*old(self), *final(self), eff),
    {
        if self.focus != Focus::Main {
            return Effect::Nothing;
        }
        match self.current_section {
            Section::Topics => Effect::LoadTopics,
            Section::Convert => {
                if self.convert_active_area == 1 {
                    self.convert_combine = !self.convert_combine;
                }
                Effect::Nothing
            },
            Section::Run => {
                match self.start_generation() {
                    Option::Some(g) => Effect::LaunchGeneration(g),
                    Option::None => Effect::Nothing,
                }
            },
            _ => Effect::Nothing,
        }
    }

    /// CycleArea on the current section.
    fn cycle_area(&mut self)
        requires
            old(self).wf(),
        ensures
            final(self).wf(),
            area_cycled(*old(self), *final(self)),
    {
        if self.focus != Focus::Main {
            return ;
        }
        match self.current_section {
            Section::Topics => self.cycle_topic_panel(),
            Section::Convert => {
                self.convert_active_area = (self.convert_active_area + 1) % 3;
            },
            Section::Bates => {
                self.bates_active_area = (self.bates_active_area + 1) % 6;
            },
            _ => {},
        }
    }

    /// Remove on the current section.
    fn remove_item(&mut self)
        requires
            old(self).wf(),
        ensures
            final(self).wf(),
            remove_handled(*old(self), *final(self)),
    {
        if self.focus != Focus::Main {
            return ;
        }
        match self.current_section {
            Section::Topics => self.remove_selected_topic(),
            Section::Bates => {
                if self.bates_active_area == 1 {
                    let _ = pop_char(&mut self.bates_prefix);
                }
            },
            _ => {},
        }
    }

    /// TextEdit on the current section.
    fn text_edit(&mut self, c: char)
        requires
            old(self).wf(),
        ensures
            final(self).wf(),
            text_edited(*old(self), *final(self), c),
    {
        if self.focus == Focus::Main && matches!(self.current_section, Section::Bates)
            && self.bates_active_area == 1 {
            if self.bates_prefix.as_str().unicode_len() < BATES_PREFIX_CAP {
                push_char(&mut self.bates_prefix, c);
            }
        }
    }

    /// AdjustUp on the current section.
    fn adjust_up(&mut self)
        requires
            old(self).wf(),
        ensures
            final(self).wf(),
            adjusted_up(*old(self), *final(self)),
    {
        if self.focus != Focus::Main {
            return ;
        }
        match self.current_section {
            Section::Quantity => self.increment_quantity(),
            Section::Bates => {
                if self.bates_active_area == 2 {
                    self.bates_separator_index = (self.bates_separator_index + 1)
                        % BATES_SEPARATOR_COUNT;
                } else if self.bates_active_area == 3 {
                    self.bates_start = self.bates_start.saturating_add(1);
                } else if self.bates_active_area == 4 {
                    let next = self.bates_padding + 1;
                    self.bates_padding = if next > 12 {
                        12
                    } else {
                        next
                    };
                }
            },
            _ => {},
        }
    }

    /// AdjustDown on the current section.
    fn adjust_down(&mut self)
        requires
            old(self).wf(),
        ensures
            final(self).wf(),
            adjusted_down(*old(self), *final(self)),
    {
        if self.focus != Focus::Main {
            return ;
        }
        match self.current_section {
            Section::Quantity => self.decrement_quantity(),
            Section::Bates => {
                if self.bates_active_area == 2 {
                    self.bates_separator_index = if self.bates_separator_index == 0 {
                        BATES_SEPARATOR_COUNT - 1
                    } else {
                        self.bates_separator_index - 1
                    };
                } else if self.bates_active_area == 3 {
                    let next = self.bates_start.saturating_sub(1);
                    self.bates_start = if next < 1 {
                        1
                    } else {
                        next
                    };
                } else if self.bates_active_area == 4 {
                    let next = self.bates_padding.saturating_sub(1);
                    self.bates_padding = if next < 1 {
                        1
                    } else {
                        next
                    };
                }
            },
            _ => {},
        }
    }

    /// Dispatches one input event: the state machine is total, so every
    /// event gets a defined transition, and the returned effect tells the
    /// host what outside work the transition asks for.
    pub fn handle_event(&mut self, ev: InputEvent) -> (eff: Effect)
        requires
            old(self).wf(),
        ensures
            final(self).wf(),
            event_handled(*old(self), *final(self), ev, eff),
    {
        match ev {
            InputEvent::Quit => {
                self.should_quit = true;
                Effect::Nothing
            },
            InputEvent::Up => {
                self.navigate_up();
                Effect::Nothing
            },
            InputEvent::Down => {
                self.navigate_down();
                Effect::Nothing
            },
            InputEvent::Left => {
                self.navigate_left();
                Effect::Nothing
            },
            InputEvent::Right => {
                if self.focus == Focus::Sidebar {
                    self.navigate_right();
                }
                Effect::Nothing
            },
            InputEvent::ScrollLogUp => {
                self.scroll_logs_up();
                Effect::Nothing
            },
            InputEvent::ScrollLogDown => {
                self.scroll_logs_down();
                Effect::Nothing
            },
            InputEvent::Activate => self.activate(),
            InputEvent::SecondaryActivate => self.secondary_activate(),
            InputEvent::CycleArea => {
                self.cycle_area();
                Effect::Nothing
            },
            InputEvent::Remove => {
                self.remove_item();
                Effect::Nothing
            },
            InputEvent::TextEdit(c) => {
                self.text_edit(c);
                Effect::Nothing
            },
            InputEvent::AdjustUp => {
                self.adjust_up();
                Effect::Nothing
            },
            InputEvent::AdjustDown => {
                self.adjust_down();
                Effect::Nothing
            },
        }
    }
}

} // verus!
