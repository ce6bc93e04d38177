//! Directional navigation: the sidebar, each section's cursors and
//! sub-areas, and the boundary rules that escalate focus between them.

use vstd::prelude::*;
use crate::app::App;
use crate::app::BATES_AREA_COUNT;
use crate::app::CONVERT_AREA_COUNT;
use crate::app::QUANTITY_FIELD_COUNT;
use crate::data::THEME_COUNT;
use crate::sections::Focus;
use crate::sections::Section;
use crate::sections::SECTION_COUNT;

verus! {

/// Holds between the states before and after one Up step. With the
/// sidebar focused the selection moves up without wrapping; with the main
/// panel focused the step is the current section's own: the model list
/// wraps, plain cursors clamp at zero, and a cursor at the top of a list
/// de-escalates to the area or panel above it.
pub open spec fn nav_up(pre: App, post: App) -> bool {
    if pre.focus == Focus::Sidebar {
        if pre.sidebar_index > 0 {
            post == (App {
                sidebar_index: (pre.sidebar_index - 1) as usize,
                current_section: Section::at_spec(pre.sidebar_index - 1),
                ..pre
            })
        } else {
            post == pre
        }
    } else {
        match pre.current_section {
            Section::Model => post == (App {
                selected_model_index: (if pre.selected_model_index > 0 {
                    pre.selected_model_index - 1
                } else {
                    pre.available_models@.len() - 1
                }) as usize,
                ..pre
            }),
            Section::Quantity => if pre.quantity_field_index > 0 {
                post == (App { quantity_field_index: (pre.quantity_field_index - 1) as usize, ..pre })
            } else {
                post == pre
            },
            Section::Preview => post == (App {
                preview_scroll: (if pre.preview_scroll > 0 {
                    pre.preview_scroll - 1
                } else {
                    0int
                }) as u16,
                ..pre
            }),
            Section::Topics => if pre.topic_panel == 1 {
                if pre.topic_cursor > 0 {
                    post == (App { topic_cursor: (pre.topic_cursor - 1) as usize, ..pre })
                } else {
                    post == (App { topic_panel: 0usize, ..pre })
                }
            } else if pre.topic_panel == 2 {
                if pre.selected_topic_cursor > 0 {
                    post == (App {
                        selected_topic_cursor: (pre.selected_topic_cursor - 1) as usize,
                        ..pre
                    })
                } else {
                    post == (App {
                        topic_panel: if pre.generated_topics@.len() > 0 {
                            1usize
                        } else {
                            0usize
                        },
                        ..pre
                    })
                }
            } else {
                post == pre
            },
            Section::Convert => if pre.convert_active_area == 0 {
                if pre.convert_selected_index > 0 {
                    post == (App {
                        convert_selected_index: (pre.convert_selected_index - 1) as usize,
                        ..pre
                    })
                } else {
                    post == pre
                }
            } else {
                post == (App { convert_active_area: (pre.convert_active_area - 1) as usize, ..pre })
            },
            Section::Bates => if pre.bates_active_area == 0 {
                if pre.bates_file_index > 0 {
                    post == (App { bates_file_index: (pre.bates_file_index - 1) as usize, ..pre })
                } else {
                    post == pre
                }
            } else {
                post == (App { bates_active_area: (pre.bates_active_area - 1) as usize, ..pre })
            },
            Section::Settings => if pre.settings_cursor > 0 {
                post == (App { settings_cursor: (pre.settings_cursor - 1) as usize, ..pre })
            } else {
                post == pre
            },
            _ => post == pre,
        }
    }
}

/// Holds between the states before and after one Down step: the mirror of
/// [`nav_up`], with a cursor at the bottom of a list escalating to the
/// area or panel below it when that target can take the focus.
pub open spec fn nav_down(pre: App, post: App) -> bool {
    if pre.focus == Focus::Sidebar {
        if pre.sidebar_index < SECTION_COUNT - 1 {
            post == (App {
                sidebar_index: (pre.sidebar_index + 1) as usize,
                current_section: Section::at_spec(pre.sidebar_index + 1),
                ..pre
            })
        } else {
            post == pre
        }
    } else {
        match pre.current_section {
            Section::Model => post == (App {
                selected_model_index: ((pre.selected_model_index + 1) % pre.available_models@.len(
                ) as int) as usize,
                ..pre
            }),
            Section::Quantity => if pre.quantity_field_index < QUANTITY_FIELD_COUNT - 1 {
                post == (App { quantity_field_index: (pre.quantity_field_index + 1) as usize, ..pre })
            } else {
                post == pre
            },
            Section::Preview => post == (App {
                preview_scroll: (if pre.preview_scroll < 0xFFFF {
                    pre.preview_scroll + 1
                } else {
                    0xFFFFint
                }) as u16,
                ..pre
            }),
            Section::Topics => if pre.topic_panel == 0 {
                if pre.generated_topics@.len() > 0 {
                    post == (App { topic_panel: 1usize, topic_cursor: 0usize, ..pre })
                } else {
                    post == pre
                }
            } else if pre.topic_panel == 1 {
                if pre.topic_cursor + 1 < pre.generated_topics@.len() {
                    post == (App { topic_cursor: (pre.topic_cursor + 1) as usize, ..pre })
                } else if pre.selected_topics@.len() > 0 {
                    post == (App { topic_panel: 2usize, selected_topic_cursor: 0usize, ..pre })
                } else {
                    post == pre
                }
            } else if pre.topic_panel == 2 {
                if pre.selected_topic_cursor + 1 < pre.selected_topics@.len() {
                    post == (App {
                        selected_topic_cursor: (pre.selected_topic_cursor + 1) as usize,
                        ..pre
                    })
                } else {
                    post == pre
                }
            } else {
                post == pre
            },
            Section::Convert => if pre.convert_active_area == 0 {
                if pre.convert_subfolders@.len() > 0 && pre.convert_selected_index + 1
                    < pre.convert_subfolders@.len() {
                    post == (App {
                        convert_selected_index: (pre.convert_selected_index + 1) as usize,
                        ..pre
                    })
                } else if pre.convert_subfolders@.len() > 0 {
                    post == (App { convert_active_area: 1usize, ..pre })
                } else {
                    post == pre
                }
            } else if pre.convert_active_area + 1 < CONVERT_AREA_COUNT {
                post == (App { convert_active_area: (pre.convert_active_area + 1) as usize, ..pre })
            } else {
                post == pre
            },
            Section::Bates => if pre.bates_active_area == 0 {
                if pre.bates_pdf_files@.len() > 0 && pre.bates_file_index + 1
                    < pre.bates_pdf_files@.len() {
                    post == (App { bates_file_index: (pre.bates_file_index + 1) as usize, ..pre })
                } else {
                    post == (App { bates_active_area: 1usize, ..pre })
                }
            } else if pre.bates_active_area + 1 < BATES_AREA_COUNT {
                post == (App { bates_active_area: (pre.bates_active_area + 1) as usize, ..pre })
            } else {
                post == pre
            },
            Section::Settings => if pre.settings_cursor < THEME_COUNT - 1 {
                post == (App { settings_cursor: (pre.settings_cursor + 1) as usize, ..pre })
            } else {
                post == pre
            },
            _ => post == pre,
        }
    }
}

/// Holds between the states around one upward adjustment of the active
/// Quantity field: one step of five, saturating at the field's ceiling;
/// the two thread-shape percentages share a combined budget of one
/// hundred.
pub open spec fn quantity_incremented(pre: App, post: App) -> bool {
    if pre.quantity_field_index == 0 {
        post == (App {
            total_files: (if pre.total_files + 5 > 500 {
                500int
            } else {
                pre.total_files + 5
            }) as u32,
            ..pre
        })
    } else if pre.quantity_field_index == 1 {
        post == (App {
            percent_attachments: (if pre.percent_attachments + 5 > 100 {
                100int
            } else {
                pre.percent_attachments + 5
            }) as u32,
            ..pre
        })
    } else if pre.quantity_field_index == 2 {
        post == (App {
            reply_percent: (if pre.reply_percent + 5 > 100 - pre.forward_percent {
                100 - pre.forward_percent
            } else {
                pre.reply_percent + 5
            }) as u32,
            ..pre
        })
    } else {
        post == (App {
            forward_percent: (if pre.forward_percent + 5 > 100 - pre.reply_percent {
                100 - pre.reply_percent
            } else {
                pre.forward_percent + 5
            }) as u32,
            ..pre
        })
    }
}

/// Holds between the states around one downward adjustment of the active
/// Quantity field: one step of five, saturating at the field's floor.
pub open spec fn quantity_decremented(pre: App, post: App) -> bool {
    if pre.quantity_field_index == 0 {
        post == (App {
            total_files: (if pre.total_files <= 6 {
                1int
            } else {
                pre.total_files - 5
            }) as u32,
            ..pre
        })
    } else if pre.quantity_field_index == 1 {
        post == (App {
            percent_attachments: (if pre.percent_attachments <= 5 {
                0int
            } else {
                pre.percent_attachments - 5
            }) as u32,
            ..pre
        })
    } else if pre.quantity_field_index == 2 {
        post == (App {
            reply_percent: (if pre.reply_percent <= 5 {
                0int
            } else {
                pre.reply_percent - 5
            }) as u32,
            ..pre
        })
    } else {
        post == (App {
            forward_percent: (if pre.forward_percent <= 5 {
                0int
            } else {
                pre.forward_percent - 5
            }) as u32,
            ..pre
        })
    }
}

impl App {
    /// One Up step of the navigation state machine.
    pub fn navigate_up(&mut self)
        requires
            old(self).wf(),
        ensures
            final(self).wf(),
            nav_up(*old(self), *final(self)),
    {
        if self.focus == Focus::Sidebar {
            if self.sidebar_index > 0 {
                self.sidebar_index = self.sidebar_index - 1;
                self.current_section = Section::at(self.sidebar_index);
            }
        } else {
            match self.current_section {
                Section::Model => {
                    if self.selected_model_index > 0 {
                        self.selected_model_index = self.selected_model_index - 1;
                    } else {
                        self.selected_model_index = self.available_models.len() - 1;
                    }
                },
                Section::Quantity => {
                    if self.quantity_field_index > 0 {
                        self.quantity_field_index = self.quantity_field_index - 1;
                    }
                },
                Section::Preview => {
                    self.preview_scroll = self.preview_scroll.saturating_sub(1);
                },
                Section::Topics => {
                    if self.topic_panel == 1 {
                        if self.topic_cursor > 0 {
                            self.topic_cursor = self.topic_cursor - 1;
                        } else {
                            self.topic_panel = 0;
                        }
                    } else if self.topic_panel == 2 {
                        if self.selected_topic_cursor > 0 {
                            self.selected_topic_cursor = self.selected_topic_cursor - 1;
                        } else {
                            self.topic_panel = if self.generated_topics.len() > 0 {
                                1
                            } else {
                                0
                            };
                        }
                    }
                },
                Section::Convert => {
                    if self.convert_active_area == 0 {
                        if self.convert_selected_index > 0 {
                            self.convert_selected_index = self.convert_selected_index - 1;
                        }
                    } else {
                        self.convert_active_area = self.convert_active_area - 1;
                    }
                },
                Section::Bates => {
                    if self.bates_active_area == 0 {
                        if self.bates_file_index > 0 {
                            self.bates_file_index = self.bates_file_index - 1;
                        }
                    } else {
                        self.bates_active_area = self.bates_active_area - 1;
                    }
                },
                Section::Settings => {
                    if self.settings_cursor > 0 {
                        self.settings_cursor = self.settings_cursor - 1;
                    }
                },
                _ => {},
            }
        }
    }

    /// One Down step of the navigation state machine.
    pub fn navigate_down(&mut self)
        requires
            old(self).wf(),
        ensures
            final(self).wf(),
            nav_down(*old(self), *final(self)),
    {
        if self.focus == Focus::Sidebar {
            if self.sidebar_index < SECTION_COUNT - 1 {
                self.sidebar_index = self.sidebar_index + 1;
                self.current_section = Section::at(self.sidebar_index);
            }
        } else {
            match self.current_section {
                Section::Model => {
                    let count = self.available_models.len();
                    self.selected_model_index = (self.selected_model_index + 1) % count;
                },
                Section::Quantity => {
                    if self.quantity_field_index < QUANTITY_FIELD_COUNT - 1 {
                        self.quantity_field_index = self.quantity_field_index + 1;
                    }
                },
                Section::Preview => {
                    self.preview_scroll = self.preview_scroll.saturating_add(1);
                },
                Section::Topics => {
                    if self.topic_panel == 0 {
                        if self.generated_topics.len() > 0 {
                            self.topic_panel = 1;
                            self.topic_cursor = 0;
                        }
                    } else if self.topic_panel == 1 {
                        let count = self.generated_topics.len();
                        if self.topic_cursor + 1 < count {
                            self.topic_cursor = self.topic_cursor + 1;
                        } else if self.selected_topics.len() > 0 {
                            self.topic_panel = 2;
                            self.selected_topic_cursor = 0;
                        }
                    } else if self.topic_panel == 2 {
                        let count = self.selected_topics.len();
                        if self.selected_topic_cursor + 1 < count {
                            self.selected_topic_cursor = self.selected_topic_cursor + 1;
                        }
                    }
                },
                Section::Convert => {
                    if self.convert_active_area == 0 {
                        let count = self.convert_subfolders.len();
                        if count > 0 && self.convert_selected_index + 1 < count {
                            self.convert_selected_index = self.convert_selected_index + 1;
                        } else if self.convert_subfolders.len() > 0 {
                            self.convert_active_area = 1;
                        }
                    } else if self.convert_active_area + 1 < CONVERT_AREA_COUNT {
                        self.convert_active_area = self.convert_active_area + 1;
                    }
                },
                Section::Bates => {
                    if self.bates_active_area == 0 {
                        let count = self.bates_pdf_files.len();
                        if count > 0 && self.bates_file_index + 1 < count {
                            self.bates_file_index = self.bates_file_index + 1;
                        } else {
                            self.bates_active_area = 1;
                        }
                    } else if self.bates_active_area + 1 < BATES_AREA_COUNT {
                        self.bates_active_area = self.bates_active_area + 1;
                    }
                },
                Section::Settings => {
                    if self.settings_cursor < THEME_COUNT - 1 {
                        self.settings_cursor = self.settings_cursor + 1;
                    }
                },
                _ => {},
            }
        }
    }

    /// Hands focus to the main panel.
    pub fn navigate_right(&mut self)
        requires
            old(self).wf(),
        ensures
            final(self).wf(),
            *final(self) == (App { focus: Focus::Main, ..*old(self) }),
    {
        self.focus = Focus::Main;
    }

    /// Hands focus back to the sidebar, from anywhere.
    pub fn navigate_left(&mut self)
        requires
            old(self).wf(),
        ensures
            final(self).wf(),
            *final(self) == (App { focus: Focus::Sidebar, ..*old(self) }),
    {
        self.focus = Focus::Sidebar;
    }

    /// Raises the active Quantity field by one step of five, saturating at
    /// the field's own ceiling; the two thread-shape percentages share a
    /// combined budget of one hundred.
    pub fn increment_quantity(&mut self)
        requires
            old(self).wf(),
        ensures
            final(self).wf(),
            quantity_incremented(*old(self), *final(self)),
    {
        if self.quantity_field_index == 0 {
            let next = self.total_files.saturating_add(5);
            self.total_files = if next > 500 {
                500
            } else {
                next
            };
        } else if self.quantity_field_index == 1 {
            let next = self.percent_attachments.saturating_add(5);
            self.percent_attachments = if next > 100 {
                100
            } else {
                next
            };
        } else if self.quantity_field_index == 2 {
            let max = 100 - self.forward_percent;
            let next = self.reply_percent.saturating_add(5);
            self.reply_percent = if next > max {
                max
            } else {
                next
            };
        } else {
            let max = 100 - self.reply_percent;
            let next = self.forward_percent.saturating_add(5);
            self.forward_percent = if next > max {
                max
            } else {
                next
            };
        }
    }

    /// Lowers the active Quantity field by one step of five, saturating at
    /// the field's own floor.
    pub fn decrement_quantity(&mut self)
        requires
            old(self).wf(),
        ensures
            final(self).wf(),
            quantity_decremented(*old(self), *final(self)),
    {
        if self.quantity_field_index == 0 {
            let next = self.total_files.saturating_sub(5);
            self.total_files = if next < 1 {
                1
            } else {
                next
            };
        } else if self.quantity_field_index == 1 {
            self.percent_attachments = self.percent_attachments.saturating_sub(5);
        } else if self.quantity_field_index == 2 {
            self.reply_percent = self.reply_percent.saturating_sub(5);
        } else {
            self.forward_percent = self.forward_percent.saturating_sub(5);
        }
    }
}

} // verus!
