//! The launch decisions: each job starts only when its preconditions hold
//! and its busy flag is clear; a refused launch only logs why.

use vstd::prelude::*;
use vstd::string::StringExecFns;
use crate::app::App;
use crate::channel::JobKind;
use crate::data::bates_separator;
use crate::data::bates_separator_spec;
use crate::data::provider_short_spec;
use crate::data::strings_view;
use crate::jobs::EnvVar;
use crate::jobs::GenerationLaunch;
use crate::jobs::JobLaunch;
use crate::jobs::bates_args;
use crate::jobs::bates_argv;
use crate::jobs::conversion_args;
use crate::jobs::conversion_argv;
use crate::jobs::generation_args;
use crate::jobs::generation_argv;
use crate::logbuf::log_appended;

verus! {

/// The topic handed to the generation job: the first selected topic, or
/// nothing when none is selected.
pub open spec fn gen_topic_text(pre: App) -> Seq<char> {
    if pre.selected_topics@.len() > 0 {
        pre.selected_topics@[0]@
    } else {
        Seq::<char>::empty()
    }
}

/// The generation launch built from state `pre`: the fixed interpreter,
/// the exact argument vector, the selected provider's API key under that
/// provider's variable name, and the first company as the roster to
/// write.
pub open spec fn gen_launch_matches(pre: App, g: GenerationLaunch) -> bool {
    &&& g.launch.kind == JobKind::Generation
    &&& g.launch.program@ == "python3"@
    &&& strings_view(g.launch.args@) == generation_argv(
        pre.total_files as int,
        pre.percent_attachments as int,
        provider_short_spec(pre.provider_index as int),
        pre.available_models@[pre.selected_model_index as int]@,
        pre.reply_percent as int,
        pre.forward_percent as int,
        gen_topic_text(pre),
    )
    &&& g.launch.env matches Option::Some(e) && e.name@ == (if pre.provider_index == 0 {
        "GEMINI_API_KEY"@
    } else {
        "OPENROUTER_API_KEY"@
    }) && e.value@ == (if pre.provider_index == 0 {
        pre.api_key@
    } else {
        pre.openrouter_api_key@
    })
    &&& g.roster@ == pre.companies@[0]@
}

/// Holds between the states around one generation-launch decision: with no
/// companies, or with a generation already running, nothing is launched
/// and one diagnostic line says why; otherwise the busy flag goes up, a
/// starting line is logged, and the returned launch is exactly the one
/// [`gen_launch_matches`] describes.
pub open spec fn gen_launch_decided(pre: App, post: App, r: Option<GenerationLaunch>) -> bool {
    if pre.companies@.len() == 0 {
        &&& r is None
        &&& post == (App { logs: post.logs, ..pre })
        &&& log_appended(pre.logs, post.logs, "No companies generated!"@)
    } else if pre.is_generating {
        &&& r is None
        &&& post == (App { logs: post.logs, ..pre })
        &&& log_appended(pre.logs, post.logs, "Already generating!"@)
    } else {
        &&& post == (App { is_generating: true, logs: post.logs, ..pre })
        &&& log_appended(pre.logs, post.logs, "Starting email generation..."@)
        &&& r matches Option::Some(g) && gen_launch_matches(pre, g)
    }
}

/// Holds between the states around one conversion-launch decision.
pub open spec fn conversion_launch_decided(pre: App, post: App, r: Option<JobLaunch>) -> bool {
    if pre.convert_subfolders@.len() == 0 {
        &&& r is None
        &&& post == (App { logs: post.logs, ..pre })
        &&& log_appended(pre.logs, post.logs, "No subfolders to convert!"@)
    } else if pre.is_converting {
        &&& r is None
        &&& post == (App { logs: post.logs, ..pre })
        &&& log_appended(pre.logs, post.logs, "Already converting!"@)
    } else {
        {
            let folder = pre.convert_subfolders@[pre.convert_selected_index as int]@;
            &&& post == (App { is_converting: true, logs: post.logs, ..pre })
            &&& log_appended(
                pre.logs,
                post.logs,
                "Starting PDF conversion for "@ + folder + "..."@,
            )
            &&& r matches Option::Some(l) && l.kind == JobKind::Conversion && l.program@
                == "python3"@ && strings_view(l.args@) == conversion_argv(
                "output/"@ + folder,
                pre.convert_combine,
            ) && l.env is None
        }
    }
}

/// Holds between the states around one stamping-launch decision.
pub open spec fn bates_launch_decided(pre: App, post: App, r: Option<JobLaunch>) -> bool {
    if pre.bates_pdf_files@.len() == 0 {
        &&& r is None
        &&& post == (App { logs: post.logs, ..pre })
        &&& log_appended(pre.logs, post.logs, "No combined PDF files found for Bates stamping!"@)
    } else if pre.is_stamping {
        &&& r is None
        &&& post == (App { logs: post.logs, ..pre })
        &&& log_appended(pre.logs, post.logs, "Already stamping!"@)
    } else {
        {
            let file = pre.bates_pdf_files@[pre.bates_file_index as int]@;
            &&& post == (App { is_stamping: true, logs: post.logs, ..pre })
            &&& log_appended(pre.logs, post.logs, "Starting Bates stamping on "@ + file + "..."@)
            &&& r matches Option::Some(l) && l.kind == JobKind::Stamping && l.program@
                == "python3"@ && strings_view(l.args@) == bates_argv(
                "output/"@ + file,
                pre.bates_prefix@,
                bates_separator_spec(pre.bates_separator_index as int),
                pre.bates_start as int,
                pre.bates_padding as int,
            ) && l.env is None
        }
    }
}

impl App {
    /// Decides whether the generation job may start. On success the busy
    /// flag is already up and the host must write the returned roster to
    /// disk, spawn the launch, and report a failure of either through
    /// [`App::launch_failed`].
    pub fn start_generation(&mut self) -> (r: Option<GenerationLaunch>)
        requires
            old(self).wf(),
        ensures
            final(self).wf(),
            gen_launch_decided(*old(self), *final(self), r),
    {
        if self.companies.len() == 0 {
            self.logs.push(String::from_str("No companies generated!"));
            return Option::None;
        }
        if self.is_generating {
            self.logs.push(String::from_str("Already generating!"));
            return Option::None;
        }
        self.is_generating = true;
        self.logs.push(String::from_str("Starting email generation..."));
        let provider = self.provider_name();
        let model = self.available_models[self.selected_model_index].clone();
        let topic = if self.selected_topics.len() > 0 {
            self.selected_topics[0].clone()
        } else {
            String::new()
        };
        proof {
            assert(topic@ == gen_topic_text(*old(self)));
        }
        let args = generation_args(
            self.total_files,
            self.percent_attachments,
            provider,
            model.as_str(),
            self.reply_percent,
            self.forward_percent,
            topic.as_str(),
        );
        let env_name = if self.provider_index == 0 {
            "GEMINI_API_KEY"
        } else {
            "OPENROUTER_API_KEY"
        };
        let env = EnvVar {
            name: String::from_str(env_name),
            value: String::from_str(self.current_api_key()),
        };
        let roster = self.companies[0].clone();
        Option::Some(
            GenerationLaunch {
                launch: JobLaunch {
                    kind: JobKind::Generation,
                    program: String::from_str("python3"),
                    args,
                    env: Option::Some(env),
                },
                roster,
            },
        )
    }

    /// Decides whether the conversion job may start on the selected
    /// output subfolder. On success the busy flag is already up and the
    /// host spawns the launch.
    pub fn start_conversion(&mut self) -> (r: Option<JobLaunch>)
        requires
            old(self).wf(),
        ensures
            final(self).wf(),
            conversion_launch_decided(*old(self), *final(self), r),
    {
        if self.convert_subfolders.len() == 0 {
            self.logs.push(String::from_str("No subfolders to convert!"));
            return Option::None;
        }
        if self.is_converting {
            self.logs.push(String::from_str("Already converting!"));
            return Option::None;
        }
        self.is_converting = true;
        let folder = self.convert_subfolders[self.convert_selected_index].clone();
        let msg = String::from_str("Starting PDF conversion for ").concat(folder.as_str()).concat(
            "...",
        );
        self.logs.push(msg);
        let folder_path = String::from_str("output/").concat(folder.as_str());
        let args = conversion_args(folder_path.as_str(), self.convert_combine);
        Option::Some(
            JobLaunch {
                kind: JobKind::Conversion,
                program: String::from_str("python3"),
                args,
                env: Option::None,
            },
        )
    }

    /// Decides whether the stamping job may start on the selected
    /// combined PDF. On success the busy flag is already up and the host
    /// spawns the launch.
    pub fn start_bates_stamp(&mut self) -> (r: Option<JobLaunch>)
        requires
            old(self).wf(),
        ensures
            final(self).wf(),
            bates_launch_decided(*old(self), *final(self), r),
    {
        if self.bates_pdf_files.len() == 0 {
            self.logs.push(String::from_str("No combined PDF files found for Bates stamping!"));
            return Option::None;
        }
        if self.is_stamping {
            self.logs.push(String::from_str("Already stamping!"));
            return Option::None;
        }
        self.is_stamping = true;
        let file = self.bates_pdf_files[self.bates_file_index].clone();
        let msg = String::from_str("Starting Bates stamping on ").concat(file.as_str()).concat(
            "...",
        );
        self.logs.push(msg);
        let file_path = String::from_str("output/").concat(file.as_str());
        let args = bates_args(
            file_path.as_str(),
            self.bates_prefix.as_str(),
            bates_separator(self.bates_separator_index),
            self.bates_start,
            self.bates_padding,
        );
        Option::Some(
            JobLaunch {
                kind: JobKind::Stamping,
                program: String::from_str("python3"),
                args,
                env: Option::None,
            },
        )
    }
}

} // verus!
