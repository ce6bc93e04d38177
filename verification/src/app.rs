//! The session state aggregate and the controller methods that mutate it.

use vstd::prelude::*;
use vstd::string::StringExecFns;
use crate::channel::ChannelMsg;
use crate::channel::JobKind;
use crate::channel::new_log_channel;
use crate::channel::try_recv_log;
use crate::data::Company;
use crate::data::Settings;
use crate::data::clone_companies;
use crate::data::clone_strings;
use crate::data::companies_view;
use crate::data::strings_view;
use crate::numfmt::dec_spec;
use crate::numfmt::u64_to_dec;
use crate::data::BATES_SEPARATOR_COUNT;
use crate::data::PROVIDER_COUNT;
use crate::data::THEME_COUNT;
use crate::data::provider_label;
use crate::data::provider_label_spec;
use crate::logbuf::LogBuffer;
use crate::logbuf::log_appended;
use crate::sections::Focus;
use crate::sections::Section;
use crate::sections::SECTION_COUNT;

verus! {

/// Fields the Quantity section cycles through.
pub const QUANTITY_FIELD_COUNT: usize = 4;

/// Sub-areas of the Convert section: folder list, combine toggle, button.
pub const CONVERT_AREA_COUNT: usize = 3;

/// Sub-areas of the Bates section: file list, prefix, separator, start,
/// padding, button.
pub const BATES_AREA_COUNT: usize = 6;

/// Longest prefix the Bates text field accepts.
pub const BATES_PREFIX_CAP: usize = 20;

/// A cursor over a list: inside the list while the list is non-empty, and
/// parked at zero when it is empty.
pub open spec fn cursor_ok(cursor: usize, len: nat) -> bool {
    if len == 0 {
        cursor == 0
    } else {
        (cursor as nat) < len
    }
}

/// The session state: everything the controller reads or mutates.
#[derive(Debug)]
pub struct App {
    pub current_section: Section,
    pub sidebar_index: usize,
    pub focus: Focus,
    pub provider_index: usize,
    pub api_key: String,
    pub openrouter_api_key: String,
    pub available_models: Vec<String>,
    pub selected_model_index: usize,
    pub gemini_models: Vec<String>,
    pub openrouter_models: Vec<String>,
    pub gemini_model_index: usize,
    pub openrouter_model_index: usize,
    pub total_files: u32,
    pub percent_attachments: u32,
    pub reply_percent: u32,
    pub forward_percent: u32,
    pub quantity_field_index: usize,
    pub generated_topics: Vec<String>,
    pub selected_topics: Vec<String>,
    pub topic_cursor: usize,
    pub selected_topic_cursor: usize,
    pub topic_panel: usize,
    pub company_size: u32,
    pub companies: Vec<Company>,
    pub logs: LogBuffer,
    pub log_tx: tokio::sync::mpsc::UnboundedSender<ChannelMsg>,
    pub log_rx: tokio::sync::mpsc::UnboundedReceiver<ChannelMsg>,
    pub should_quit: bool,
    pub is_generating: bool,
    pub convert_subfolders: Vec<String>,
    pub convert_selected_index: usize,
    pub convert_combine: bool,
    pub is_converting: bool,
    pub convert_active_area: usize,
    pub bates_prefix: String,
    pub bates_separator_index: usize,
    pub bates_start: u32,
    pub bates_padding: u32,
    pub bates_active_area: usize,
    pub bates_pdf_files: Vec<String>,
    pub bates_file_index: usize,
    pub is_stamping: bool,
    pub preview_scroll: u16,
    pub theme_index: usize,
    pub settings_cursor: usize,
}

impl App {
    /// Every cursor sits inside the list it indexes, every index inside its
    /// fixed range, the numeric parameters inside their domains, and the
    /// log buffer inside its capacity.
    pub open spec fn wf(self) -> bool {
        &&& self.sidebar_index < SECTION_COUNT
        &&& self.current_section == Section::at_spec(self.sidebar_index as int)
        &&& self.provider_index < PROVIDER_COUNT
        &&& self.available_models@ == if self.provider_index == 0 {
            self.gemini_models@
        } else {
            self.openrouter_models@
        }
        &&& self.available_models@.len() > 0
        &&& self.selected_model_index < self.available_models@.len()
        &&& self.gemini_models@.len() > 0
        &&& self.gemini_model_index < self.gemini_models@.len()
        &&& self.openrouter_models@.len() > 0
        &&& self.openrouter_model_index < self.openrouter_models@.len()
        &&& 1 <= self.total_files <= 500
        &&& self.percent_attachments <= 100
        &&& self.reply_percent + self.forward_percent <= 100
        &&& self.quantity_field_index < QUANTITY_FIELD_COUNT
        &&& self.topic_panel <= 2
        &&& cursor_ok(self.topic_cursor, self.generated_topics@.len())
        &&& cursor_ok(self.selected_topic_cursor, self.selected_topics@.len())
        &&& (self.topic_panel == 1 ==> self.generated_topics@.len() > 0)
        &&& (self.topic_panel == 2 ==> self.selected_topics@.len() > 0)
        &&& self.convert_active_area < CONVERT_AREA_COUNT
        &&& cursor_ok(self.convert_selected_index, self.convert_subfolders@.len())
        &&& self.bates_active_area < BATES_AREA_COUNT
        &&& cursor_ok(self.bates_file_index, self.bates_pdf_files@.len())
        &&& self.bates_separator_index < BATES_SEPARATOR_COUNT
        &&& 1 <= self.bates_start
        &&& 1 <= self.bates_padding <= 12
        &&& self.theme_index < THEME_COUNT
        &&& self.settings_cursor < THEME_COUNT
        &&& self.logs.wf()
    }

    /// The busy flag guarding job kind `k`.
    pub open spec fn busy_flag(self, k: JobKind) -> bool {
        match k {
            JobKind::Generation => self.is_generating,
            JobKind::Conversion => self.is_converting,
            JobKind::Stamping => self.is_stamping,
        }
    }

    /// Appends one line to the log feed; everything else stays put.
    pub fn log(&mut self, msg: String)
        requires
            old(self).wf(),
        ensures
            final(self).wf(),
            log_appended(old(self).logs, final(self).logs, msg@),
            *final(self) == (App { logs: final(self).logs, ..*old(self) }),
    {
        self.logs.push(msg);
    }

    /// Scrolls the log view one line up.
    pub fn scroll_logs_up(&mut self)
        requires
            old(self).wf(),
        ensures
            final(self).wf(),
            crate::logbuf::log_scrolled_up(old(self).logs, final(self).logs),
            *final(self) == (App { logs: final(self).logs, ..*old(self) }),
    {
        self.logs.scroll_up();
    }

    /// Scrolls the log view one line down.
    pub fn scroll_logs_down(&mut self)
        requires
            old(self).wf(),
        ensures
            final(self).wf(),
            crate::logbuf::log_scrolled_down(old(self).logs, final(self).logs),
            *final(self) == (App { logs: final(self).logs, ..*old(self) }),
    {
        self.logs.scroll_down();
    }

    /// The API key of the provider currently selected.
    pub fn current_api_key(&self) -> (r: &str)
        ensures
            r@ == if self.provider_index == 0 {
                self.api_key@
            } else {
                self.openrouter_api_key@
            },
    {
        if self.provider_index == 0 {
            self.api_key.as_str()
        } else {
            self.openrouter_api_key.as_str()
        }
    }

    /// The short name of the provider currently selected, as the external
    /// generator expects it.
    pub fn provider_name(&self) -> (r: &'static str)
        ensures
            r@ == crate::data::provider_short_spec(self.provider_index as int),
    {
        if self.provider_index == 0 {
            "gemini"
        } else {
            "openrouter"
        }
    }

    /// Switches to the other provider: the current model choice is stowed
    /// in its provider's slot, the other provider's model list and stored
    /// choice take over, and the change is logged.
    pub fn toggle_provider(&mut self)
        requires
            old(self).wf(),
        ensures
            final(self).wf(),
            final(self).provider_index == (old(self).provider_index + 1) % (
            PROVIDER_COUNT as int),
            old(self).provider_index == 0 ==> {
                &&& final(self).gemini_model_index == old(self).selected_model_index
                &&& final(self).openrouter_model_index == old(self).openrouter_model_index
                &&& final(self).available_models@ == old(self).openrouter_models@
                &&& final(self).selected_model_index == old(self).openrouter_model_index
            },
            old(self).provider_index != 0 ==> {
                &&& final(self).openrouter_model_index == old(self).selected_model_index
                &&& final(self).gemini_model_index == old(self).gemini_model_index
                &&& final(self).available_models@ == old(self).gemini_models@
                &&& final(self).selected_model_index == old(self).gemini_model_index
            },
            final(self).gemini_models@ == old(self).gemini_models@,
            final(self).openrouter_models@ == old(self).openrouter_models@,
            log_appended(
                old(self).logs,
                final(self).logs,
                "Provider: "@ + provider_label_spec(final(self).provider_index as int),
            ),
            *final(self) == (App {
                provider_index: final(self).provider_index,
                gemini_model_index: final(self).gemini_model_index,
                openrouter_model_index: final(self).openrouter_model_index,
                available_models: final(self).available_models,
                selected_model_index: final(self).selected_model_index,
                logs: final(self).logs,
                ..*old(self)
            }),
    {
        if self.provider_index == 0 {
            self.gemini_model_index = self.selected_model_index;
        } else {
            self.openrouter_model_index = self.selected_model_index;
        }
        self.provider_index = (self.provider_index + 1) % PROVIDER_COUNT;
        if self.provider_index == 0 {
            self.available_models = crate::data::clone_strings(&self.gemini_models);
            self.selected_model_index = self.gemini_model_index;
        } else {
            self.available_models = crate::data::clone_strings(&self.openrouter_models);
            self.selected_model_index = self.openrouter_model_index;
        }
        let msg = String::from_str("Provider: ").concat(provider_label(self.provider_index));
        self.logs.push(msg);
    }
}

/// The fixed model catalogue of the Gemini provider.
pub open spec fn gemini_models_spec() -> Seq<Seq<char>> {
    seq![
        "gemini-2.5-flash"@,
        "gemini-2.5-pro"@,
        "gemini-3-pro-preview"@,
        "gemini-3-flash-preview"@,
    ]
}

/// The fixed model catalogue of the OpenRouter provider.
pub open spec fn openrouter_models_spec() -> Seq<Seq<char>> {
    seq!["moonshotai/kimi-k2"@]
}

/// Holds between a freshly built session state and the persisted record it
/// was built from. A present record wins over the built-in defaults, but
/// every index is pulled back into its range and every numeric parameter
/// into its domain, so a stale or hand-edited record can never seed a
/// dangling cursor.
pub open spec fn initialized_from(
    r: App,
    saved: Option<Settings>,
    api_key: String,
    openrouter_api_key: String,
) -> bool {
    &&& r.current_section == Section::Model
    &&& r.sidebar_index == 0
    &&& r.focus == Focus::Sidebar
    &&& r.api_key == api_key
    &&& r.openrouter_api_key == openrouter_api_key
    &&& strings_view(r.gemini_models@) == gemini_models_spec()
    &&& strings_view(r.openrouter_models@) == openrouter_models_spec()
    &&& r.available_models@ == if r.provider_index == 0 {
        r.gemini_models@
    } else {
        r.openrouter_models@
    }
    &&& r.quantity_field_index == 0
    &&& r.generated_topics@.len() == 0
    &&& r.topic_cursor == 0
    &&& r.selected_topic_cursor == 0
    &&& r.topic_panel == 0
    &&& r.logs.capacity == crate::logbuf::LOG_CAPACITY
    &&& strings_view(r.logs.lines@) == seq![
        "Application initialized"@,
        if saved is Some {
            "Loaded saved settings"@
        } else {
            "No saved settings found, using defaults"@
        },
    ]
    &&& r.logs.pin is None
    &&& !r.should_quit
    &&& !r.is_generating
    &&& !r.is_converting
    &&& !r.is_stamping
    &&& r.convert_subfolders@.len() == 0
    &&& r.convert_selected_index == 0
    &&& r.convert_active_area == 0
    &&& r.bates_active_area == 0
    &&& r.bates_pdf_files@.len() == 0
    &&& r.bates_file_index == 0
    &&& r.preview_scroll == 0
    &&& match saved {
        Option::Some(s) => {
            &&& r.provider_index == (if s.provider_index == 0 {
                0int
            } else {
                1int
            })
            &&& r.gemini_model_index == (if s.selected_model_index < 4 {
                s.selected_model_index as int
            } else {
                0int
            })
            &&& r.openrouter_model_index == (if s.openrouter_model_index < 1 {
                s.openrouter_model_index as int
            } else {
                0int
            })
            &&& r.selected_model_index == (if r.provider_index == 0 {
                r.gemini_model_index as int
            } else {
                r.openrouter_model_index as int
            })
            &&& r.total_files == (if s.total_files < 1 {
                1int
            } else if s.total_files > 500 {
                500int
            } else {
                s.total_files as int
            })
            &&& r.percent_attachments == (if s.percent_attachments > 100 {
                100int
            } else {
                s.percent_attachments as int
            })
            &&& r.reply_percent == (if s.reply_percent > 100 {
                100int
            } else {
                s.reply_percent as int
            })
            &&& r.forward_percent == (if s.forward_percent > 100 - r.reply_percent {
                100 - r.reply_percent
            } else {
                s.forward_percent as int
            })
            &&& strings_view(r.selected_topics@) == strings_view(s.selected_topics@)
            &&& r.company_size == s.company_size
            &&& companies_view(r.companies@) == companies_view(s.companies@)
            &&& r.convert_combine == s.convert_combine
            &&& r.bates_prefix@ == s.bates_prefix@
            &&& r.bates_separator_index == (if s.bates_separator_index
                < BATES_SEPARATOR_COUNT {
                s.bates_separator_index as int
            } else {
                0int
            })
            &&& r.bates_start == (if s.bates_start < 1 {
                1int
            } else {
                s.bates_start as int
            })
            &&& r.bates_padding == (if s.bates_padding < 1 {
                1int
            } else if s.bates_padding > 12 {
                12int
            } else {
                s.bates_padding as int
            })
            &&& r.theme_index == (if s.theme_index < THEME_COUNT {
                s.theme_index as int
            } else {
                0int
            })
            &&& r.settings_cursor == r.theme_index
        },
        Option::None => {
            &&& r.provider_index == 0
            &&& r.gemini_model_index == 0
            &&& r.openrouter_model_index == 0
            &&& r.selected_model_index == 0
            &&& r.total_files == 25
            &&& r.percent_attachments == 30
            &&& r.reply_percent == 80
            &&& r.forward_percent == 10
            &&& r.selected_topics@.len() == 0
            &&& r.company_size == 10
            &&& r.companies@.len() == 0
            &&& !r.convert_combine
            &&& r.bates_prefix@ == "BATES"@
            &&& r.bates_separator_index == 0
            &&& r.bates_start == 1
            &&& r.bates_padding == 7
            &&& r.theme_index == 0
            &&& r.settings_cursor == 0
        },
    }
}

/// The log line announcing that job kind `k` finished.
pub open spec fn finish_text(k: JobKind) -> Seq<char> {
    match k {
        JobKind::Generation => "Generation process finished."@,
        JobKind::Conversion => "Conversion process finished."@,
        JobKind::Stamping => "Bates stamping process finished."@,
    }
}

/// Holds between the states before and after the controller interprets one
/// drained channel message: plain text lands in the log feed unchanged; a
/// completion sentinel clears exactly its kind's busy flag (whatever that
/// flag held), logs a finished line, and — for the conversion kind only —
/// asks for a rescan of the output folder.
pub open spec fn message_handled(pre: App, post: App, msg: ChannelMsg, rescan: bool) -> bool {
    match msg {
        ChannelMsg::LogLine(s) => {
            &&& post == (App { logs: post.logs, ..pre })
            &&& log_appended(pre.logs, post.logs, s@)
            &&& rescan == false
        },
        ChannelMsg::JobFinished(k) => {
            &&& post == (App {
                is_generating: if k == JobKind::Generation {
                    false
                } else {
                    pre.is_generating
                },
                is_converting: if k == JobKind::Conversion {
                    false
                } else {
                    pre.is_converting
                },
                is_stamping: if k == JobKind::Stamping {
                    false
                } else {
                    pre.is_stamping
                },
                logs: post.logs,
                ..pre
            })
            &&& log_appended(pre.logs, post.logs, finish_text(k))
            &&& rescan == (k == JobKind::Conversion)
        },
    }
}

impl App {
    /// Builds the session state at startup from the persisted record, if
    /// one was read, and the two API keys found in the environment.
    pub fn new(saved: Option<Settings>, api_key: String, openrouter_api_key: String) -> (r: App)
        ensures
            r.wf(),
            initialized_from(r, saved, api_key, openrouter_api_key),
    {
        let mut gemini_models: Vec<String> = Vec::new();
        gemini_models.push(String::from_str("gemini-2.5-flash"));
        gemini_models.push(String::from_str("gemini-2.5-pro"));
        gemini_models.push(String::from_str("gemini-3-pro-preview"));
        gemini_models.push(String::from_str("gemini-3-flash-preview"));
        let mut openrouter_models: Vec<String> = Vec::new();
        openrouter_models.push(String::from_str("moonshotai/kimi-k2"));
        proof {
            assert(strings_view(gemini_models@) =~= gemini_models_spec());
            assert(strings_view(openrouter_models@) =~= openrouter_models_spec());
        }
        let (log_tx, log_rx) = new_log_channel();
        let mut logs = LogBuffer::new(crate::logbuf::LOG_CAPACITY);
        logs.push(String::from_str("Application initialized"));
        match saved {
            Option::Some(s) => {
                let Settings {
                    selected_model_index: saved_gemini_choice,
                    provider_index: saved_provider,
                    openrouter_model_index: saved_openrouter_choice,
                    total_files: saved_total_files,
                    percent_attachments: saved_attachments,
                    selected_topics,
                    company_size,
                    companies,
                    convert_combine,
                    bates_prefix,
                    bates_separator_index: saved_separator,
                    bates_start: saved_start,
                    bates_padding: saved_padding,
                    reply_percent: saved_reply,
                    forward_percent: saved_forward,
                    theme_index: saved_theme,
                } = s;
                logs.push(String::from_str("Loaded saved settings"));
                proof {
                    assert(strings_view(logs.lines@) =~= seq![
                        "Application initialized"@,
                        "Loaded saved settings"@,
                    ]);
                }
                let provider_index: usize = if saved_provider == 0 {
                    0
                } else {
                    1
                };
                let gemini_model_index: usize = if saved_gemini_choice < gemini_models.len() {
                    saved_gemini_choice
                } else {
                    0
                };
                let openrouter_model_index: usize = if saved_openrouter_choice
                    < openrouter_models.len() {
                    saved_openrouter_choice
                } else {
                    0
                };
                let available_models = if provider_index == 0 {
                    clone_strings(&gemini_models)
                } else {
                    clone_strings(&openrouter_models)
                };
                let selected_model_index = if provider_index == 0 {
                    gemini_model_index
                } else {
                    openrouter_model_index
                };
                let total_files = if saved_total_files < 1 {
                    1
                } else if saved_total_files > 500 {
                    500
                } else {
                    saved_total_files
                };
                let percent_attachments = if saved_attachments > 100 {
                    100
                } else {
                    saved_attachments
                };
                let reply_percent = if saved_reply > 100 {
                    100
                } else {
                    saved_reply
                };
                let forward_percent = if saved_forward > 100 - reply_percent {
                    100 - reply_percent
                } else {
                    saved_forward
                };
                let bates_separator_index = if saved_separator < BATES_SEPARATOR_COUNT {
                    saved_separator
                } else {
                    0
                };
                let bates_start = if saved_start < 1 {
                    1
                } else {
                    saved_start
                };
                let bates_padding = if saved_padding < 1 {
                    1
                } else if saved_padding > 12 {
                    12
                } else {
                    saved_padding
                };
                let theme_index = if saved_theme < THEME_COUNT {
                    saved_theme
                } else {
                    0
                };
                App {
                    current_section: Section::Model,
                    sidebar_index: 0,
                    focus: Focus::Sidebar,
                    provider_index,
                    api_key,
                    openrouter_api_key,
                    available_models,
                    selected_model_index,
                    gemini_models,
                    openrouter_models,
                    gemini_model_index,
                    openrouter_model_index,
                    total_files,
                    percent_attachments,
                    reply_percent,
                    forward_percent,
                    quantity_field_index: 0,
                    generated_topics: Vec::new(),
                    selected_topics,
                    topic_cursor: 0,
                    selected_topic_cursor: 0,
                    topic_panel: 0,
                    company_size,
                    companies,
                    logs,
                    log_tx,
                    log_rx,
                    should_quit: false,
                    is_generating: false,
                    convert_subfolders: Vec::new(),
                    convert_selected_index: 0,
                    convert_combine,
                    is_converting: false,
                    convert_active_area: 0,
                    bates_prefix,
                    bates_separator_index,
                    bates_start,
                    bates_padding,
                    bates_active_area: 0,
                    bates_pdf_files: Vec::new(),
                    bates_file_index: 0,
                    is_stamping: false,
                    preview_scroll: 0,
                    theme_index,
                    settings_cursor: theme_index,
                }
            },
            Option::None => {
                logs.push(String::from_str("No saved settings found, using defaults"));
                proof {
                    assert(strings_view(logs.lines@) =~= seq![
                        "Application initialized"@,
                        "No saved settings found, using defaults"@,
                    ]);
                }
                App {
                    current_section: Section::Model,
                    sidebar_index: 0,
                    focus: Focus::Sidebar,
                    provider_index: 0,
                    api_key,
                    openrouter_api_key,
                    available_models: clone_strings(&gemini_models),
                    selected_model_index: 0,
                    gemini_models,
                    openrouter_models,
                    gemini_model_index: 0,
                    openrouter_model_index: 0,
                    total_files: 25,
                    percent_attachments: 30,
                    reply_percent: crate::data::default_reply_pct(),
                    forward_percent: crate::data::default_forward_pct(),
                    quantity_field_index: 0,
                    generated_topics: Vec::new(),
                    selected_topics: Vec::new(),
                    topic_cursor: 0,
                    selected_topic_cursor: 0,
                    topic_panel: 0,
                    company_size: 10,
                    companies: Vec::new(),
                    logs,
                    log_tx,
                    log_rx,
                    should_quit: false,
                    is_generating: false,
                    convert_subfolders: Vec::new(),
                    convert_selected_index: 0,
                    convert_combine: false,
                    is_converting: false,
                    convert_active_area: 0,
                    bates_prefix: crate::data::default_bates_prefix(),
                    bates_separator_index: 0,
                    bates_start: crate::data::default_bates_start(),
                    bates_padding: crate::data::default_bates_padding(),
                    bates_active_area: 0,
                    bates_pdf_files: Vec::new(),
                    bates_file_index: 0,
                    is_stamping: false,
                    preview_scroll: 0,
                    theme_index: 0,
                    settings_cursor: 0,
                }
            },
        }
    }

    /// Interprets one message drained from the log channel.
    pub fn handle_message(&mut self, msg: ChannelMsg) -> (rescan: bool)
        requires
            old(self).wf(),
        ensures
            final(self).wf(),
            message_handled(*old(self), *final(self), msg, rescan),
    {
        match msg {
            ChannelMsg::LogLine(s) => {
                self.logs.push(s);
                false
            },
            ChannelMsg::JobFinished(k) => {
                match k {
                    JobKind::Generation => {
                        self.is_generating = false;
                        self.logs.push(String::from_str("Generation process finished."));
                        false
                    },
                    JobKind::Conversion => {
                        self.is_converting = false;
                        self.logs.push(String::from_str("Conversion process finished."));
                        true
                    },
                    JobKind::Stamping => {
                        self.is_stamping = false;
                        self.logs.push(String::from_str("Bates stamping process finished."));
                        false
                    },
                }
            },
        }
    }

    /// Drains the log channel without blocking, interpreting each message
    /// in arrival order: at most a full buffer's worth per tick, so one
    /// tick does a bounded amount of work; anything left waits for the
    /// next tick. Returns whether a completed conversion asked for the
    /// output folder to be scanned again.
    pub fn update(&mut self) -> (rescan: bool)
        requires
            old(self).wf(),
        ensures
            final(self).wf(),
            final(self).should_quit == old(self).should_quit,
    {
        let mut rescan = false;
        let mut budget: usize = crate::logbuf::LOG_CAPACITY;
        while budget > 0
            invariant
                self.wf(),
                self.should_quit == old(self).should_quit,
            decreases budget,
        {
            budget -= 1;
            match try_recv_log(&mut self.log_rx) {
                Option::Some(m) => {
                    let r = self.handle_message(m);
                    if r {
                        rescan = true;
                    }
                },
                Option::None => {
                    break ;
                },
            }
        }
        rescan
    }

    /// Records that a launch handed to the host could not be carried out:
    /// the kind's busy flag drops back and the reason is logged.
    pub fn launch_failed(&mut self, kind: JobKind, msg: String)
        requires
            old(self).wf(),
        ensures
            final(self).wf(),
            !final(self).busy_flag(kind),
            log_appended(old(self).logs, final(self).logs, msg@),
            *final(self) == (App {
                is_generating: final(self).is_generating,
                is_converting: final(self).is_converting,
                is_stamping: final(self).is_stamping,
                logs: final(self).logs,
                ..*old(self)
            }),
            forall|k: JobKind| k != kind ==> final(self).busy_flag(k) == old(self).busy_flag(k),
    {
        match kind {
            JobKind::Generation => {
                self.is_generating = false;
            },
            JobKind::Conversion => {
                self.is_converting = false;
            },
            JobKind::Stamping => {
                self.is_stamping = false;
            },
        }
        self.logs.push(msg);
    }

    /// Installs a freshly loaded topic list: the Generated panel takes the
    /// list, its cursor is clamped into the new bounds, an emptied panel
    /// hands its sub-focus to a non-empty neighbor, and the count is
    /// logged.
    pub fn set_generated_topics(&mut self, topics: Vec<String>)
        requires
            old(self).wf(),
        ensures
            final(self).wf(),
            final(self).generated_topics == topics,
            final(self).topic_cursor == (if topics@.len() == 0 {
                0int
            } else if old(self).topic_cursor < topics@.len() {
                old(self).topic_cursor as int
            } else {
                topics@.len() - 1
            }),
            final(self).topic_panel == (if topics@.len() == 0 && old(self).topic_panel == 1 {
                if old(self).selected_topics@.len() > 0 {
                    2int
                } else {
                    0int
                }
            } else {
                old(self).topic_panel as int
            }),
            log_appended(
                old(self).logs,
                final(self).logs,
                "Randomly selected "@ + dec_spec(topics@.len() as int) + " topics from file"@,
            ),
            *final(self) == (App {
                generated_topics: final(self).generated_topics,
                topic_cursor: final(self).topic_cursor,
                topic_panel: final(self).topic_panel,
                logs: final(self).logs,
                ..*old(self)
            }),
    {
        let count = topics.len();
        self.generated_topics = topics;
        if count == 0 {
            self.topic_cursor = 0;
            if self.topic_panel == 1 {
                self.topic_panel = if self.selected_topics.len() > 0 {
                    2
                } else {
                    0
                };
            }
        } else if self.topic_cursor >= count {
            self.topic_cursor = count - 1;
        }
        let msg = String::from_str("Randomly selected ").concat(
            u64_to_dec(count as u64).as_str(),
        ).concat(" topics from file");
        self.logs.push(msg);
    }

    /// Installs a freshly generated company list.
    pub fn set_companies(&mut self, companies: Vec<Company>)
        requires
            old(self).wf(),
        ensures
            final(self).wf(),
            final(self).companies == companies,
            *final(self) == (App { companies: final(self).companies, ..*old(self) }),
    {
        self.companies = companies;
    }

    /// Installs the scanned list of output subfolders, resetting the
    /// folder cursor when it no longer fits.
    pub fn set_convert_subfolders(&mut self, folders: Vec<String>)
        requires
            old(self).wf(),
        ensures
            final(self).wf(),
            final(self).convert_subfolders == folders,
            final(self).convert_selected_index == (if old(self).convert_selected_index
                < folders@.len() {
                old(self).convert_selected_index as int
            } else {
                0int
            }),
            *final(self) == (App {
                convert_subfolders: final(self).convert_subfolders,
                convert_selected_index: final(self).convert_selected_index,
                ..*old(self)
            }),
    {
        let count = folders.len();
        self.convert_subfolders = folders;
        if self.convert_selected_index >= count {
            self.convert_selected_index = 0;
        }
    }

    /// Installs the scanned list of combined PDF files, resetting the file
    /// cursor when it no longer fits.
    pub fn set_bates_pdfs(&mut self, files: Vec<String>)
        requires
            old(self).wf(),
        ensures
            final(self).wf(),
            final(self).bates_pdf_files == files,
            final(self).bates_file_index == (if old(self).bates_file_index < files@.len() {
                old(self).bates_file_index as int
            } else {
                0int
            }),
            *final(self) == (App {
                bates_pdf_files: final(self).bates_pdf_files,
                bates_file_index: final(self).bates_file_index,
                ..*old(self)
            }),
    {
        let count = files.len();
        self.bates_pdf_files = files;
        if self.bates_file_index >= count {
            self.bates_file_index = 0;
        }
    }

    /// The flat record of the reproducible configuration, as the outside
    /// collaborator persists it. The current model choice lands in its
    /// provider's slot; the other provider's stored choice is kept.
    pub fn snapshot_settings(&self) -> (r: Settings)
        requires
            self.wf(),
        ensures
            r.selected_model_index == if self.provider_index == 0 {
                self.selected_model_index
            } else {
                self.gemini_model_index
            },
            r.openrouter_model_index == if self.provider_index == 0 {
                self.openrouter_model_index
            } else {
                self.selected_model_index
            },
            r.provider_index == self.provider_index,
            r.total_files == self.total_files,
            r.percent_attachments == self.percent_attachments,
            strings_view(r.selected_topics@) == strings_view(self.selected_topics@),
            r.company_size == self.company_size,
            companies_view(r.companies@) == companies_view(self.companies@),
            r.convert_combine == self.convert_combine,
            r.bates_prefix@ == self.bates_prefix@,
            r.bates_separator_index == self.bates_separator_index,
            r.bates_start == self.bates_start,
            r.bates_padding == self.bates_padding,
            r.reply_percent == self.reply_percent,
            r.forward_percent == self.forward_percent,
            r.theme_index == self.theme_index,
    {
        let (gmi, ormi) = if self.provider_index == 0 {
            (self.selected_model_index, self.openrouter_model_index)
        } else {
            (self.gemini_model_index, self.selected_model_index)
        };
        Settings {
            selected_model_index: gmi,
            provider_index: self.provider_index,
            openrouter_model_index: ormi,
            total_files: self.total_files,
            percent_attachments: self.percent_attachments,
            selected_topics: clone_strings(&self.selected_topics),
            company_size: self.company_size,
            companies: clone_companies(&self.companies),
            convert_combine: self.convert_combine,
            bates_prefix: self.bates_prefix.clone(),
            bates_separator_index: self.bates_separator_index,
            bates_start: self.bates_start,
            bates_padding: self.bates_padding,
            reply_percent: self.reply_percent,
            forward_percent: self.forward_percent,
            theme_index: self.theme_index,
        }
    }
}

} // verus!
