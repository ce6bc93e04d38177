//! The Preview section's text: a rendering of the thread-shape numbers
//! and a sample of the prompt the generation job will be driven by.

use vstd::prelude::*;
use vstd::string::StringExecFns;
use crate::app::App;
use crate::data::provider_label;
use crate::data::provider_label_spec;
use crate::data::strings_view;
use crate::numfmt::dec_spec;
use crate::numfmt::u64_to_dec;

verus! {

/// The sample topic: the first selected topic, or a stand-in.
pub open spec fn preview_topic(app: App) -> Seq<char> {
    if app.selected_topics@.len() > 0 {
        app.selected_topics@[0]@
    } else {
        "General check-in"@
    }
}

/// The sample sender's name, title and department: the first employee of
/// the first company, or stand-ins.
pub open spec fn preview_sender(app: App) -> (Seq<char>, Seq<char>, Seq<char>) {
    if app.companies@.len() > 0 && app.companies@[0]@.employees.len() > 0 {
        let e = app.companies@[0]@.employees[0];
        (e.name@, e.title@, e.department@)
    } else {
        ("John Smith"@, "Manager"@, "Engineering"@)
    }
}

/// The sample recipients: up to two employees after the sender, joined
/// with a comma, or stand-ins when no company exists yet.
pub open spec fn preview_recipients(app: App) -> Seq<char> {
    if app.companies@.len() == 0 {
        "Jane Doe, Bob Wilson"@
    } else {
        {
            let emps = app.companies@[0]@.employees;
            if emps.len() <= 1 {
                Seq::<char>::empty()
            } else if emps.len() == 2 {
                emps[1].name@
            } else {
                emps[1].name@ + ", "@ + emps[2].name@
            }
        }
    }
}

/// Every line of the Preview section, in order.
pub open spec fn preview_prompt_spec(app: App) -> Seq<Seq<char>> {
    let terminate = 100 - app.reply_percent - app.forward_percent;
    let sender = preview_sender(app);
    seq![
        "── Thread Generation Logic ──"@,
        Seq::<char>::empty(),
        "Each file = one inclusive (leaf) email thread."@,
        "The generator creates a root email, then iterates:"@,
        "  Reply:     "@ + dec_spec(app.reply_percent as int) + "%  (continue thread with reply)"@,
        "  Forward:   "@ + dec_spec(app.forward_percent as int)
            + "%  (forward to new recipients)"@,
        "  Terminate: "@ + dec_spec(terminate) + "%  (end the chain)"@,
        Seq::<char>::empty(),
        "Replies keep the same thread; forwards start a new"@,
        "thread with new recipients. Each inclusive email"@,
        "contains the full quoted history of its branch."@,
        Seq::<char>::empty(),
        "── Sample Email Prompt ──"@,
        Seq::<char>::empty(),
        "Generate a professional business email."@,
        "Sender: "@ + sender.0 + " ("@ + sender.1 + " in "@ + sender.2 + ")"@,
        "Recipients: "@ + preview_recipients(app),
        "Topic: "@ + preview_topic(app),
        "Style/Tone: [randomly selected at runtime]"@,
        Seq::<char>::empty(),
        "INSTRUCTIONS:"@,
        "1. This is the start of a new email thread."@,
        "2. Create a specific, interesting Subject line"@,
        "   relevant to the topic (avoid generic titles)."@,
        "3. Write the body of the email initiating the"@,
        "   discussion."@,
        Seq::<char>::empty(),
        "Format: Subject: [Subject]\\n\\n[Body]"@,
        Seq::<char>::empty(),
        "── Reply Variant (added for replies) ──"@,
        Seq::<char>::empty(),
        "CONTEXT (Previous Email Thread):"@,
        "  [previous email body inserted here]"@,
        Seq::<char>::empty(),
        "+ Address specific points raised in context"@,
        "+ Do NOT repeat the full history"@,
        "+ Keep subject consistent (Re: ...)"@,
        Seq::<char>::empty(),
        "── Provider ──"@,
        Seq::<char>::empty(),
        "Provider: "@ + provider_label_spec(app.provider_index as int),
        "Model: "@ + (if app.selected_model_index < app.available_models@.len() {
            app.available_models@[app.selected_model_index as int]@
        } else {
            "none"@
        }),
        "API Key: "@ + (if (if app.provider_index == 0 {
            app.api_key@
        } else {
            app.openrouter_api_key@
        }).len() == 0 {
            "NOT SET"@
        } else {
            "configured"@
        }),
    ]
}

impl App {
    /// Builds the Preview section's lines.
    #[verifier::rlimit(60)]
    pub fn build_preview_prompt(&self) -> (r: Vec<String>)
        requires
            self.wf(),
        ensures
            strings_view(r@) == preview_prompt_spec(*self),
    {
        let mut lines: Vec<String> = Vec::new();
        let terminate = 100 - self.reply_percent - self.forward_percent;
        lines.push(String::from_str("── Thread Generation Logic ──"));
        lines.push(String::new());
        lines.push(String::from_str("Each file = one inclusive (leaf) email thread."));
        lines.push(String::from_str("The generator creates a root email, then iterates:"));
        lines.push(
            String::from_str("  Reply:     ").concat(
                u64_to_dec(self.reply_percent as u64).as_str(),
            ).concat("%  (continue thread with reply)"),
        );
        lines.push(
            String::from_str("  Forward:   ").concat(
                u64_to_dec(self.forward_percent as u64).as_str(),
            ).concat("%  (forward to new recipients)"),
        );
        lines.push(
            String::from_str("  Terminate: ").concat(u64_to_dec(terminate as u64).as_str()).concat(
                "%  (end the chain)",
            ),
        );
        lines.push(String::new());
        lines.push(String::from_str("Replies keep the same thread; forwards start a new"));
        lines.push(String::from_str("thread with new recipients. Each inclusive email"));
        lines.push(String::from_str("contains the full quoted history of its branch."));
        lines.push(String::new());
        lines.push(String::from_str("── Sample Email Prompt ──"));
        lines.push(String::new());
        lines.push(String::from_str("Generate a professional business email."));
        let (sender_name, sender_title, sender_dept) = if self.companies.len() > 0 {
            if self.companies[0].employees.len() > 0 {
                let name = self.companies[0].employees[0].name.clone();
                let title = self.companies[0].employees[0].title.clone();
                let dept = self.companies[0].employees[0].department.clone();
                (name, title, dept)
            } else {
                (
                    String::from_str("John Smith"),
                    String::from_str("Manager"),
                    String::from_str("Engineering"),
                )
            }
        } else {
            (
                String::from_str("John Smith"),
                String::from_str("Manager"),
                String::from_str("Engineering"),
            )
        };
        lines.push(
            String::from_str("Sender: ").concat(sender_name.as_str()).concat(" (").concat(
                sender_title.as_str(),
            ).concat(" in ").concat(sender_dept.as_str()).concat(")"),
        );
        let recipients = if self.companies.len() > 0 {
            if self.companies[0].employees.len() <= 1 {
                String::new()
            } else if self.companies[0].employees.len() == 2 {
                self.companies[0].employees[1].name.clone()
            } else {
                self.companies[0].employees[1].name.clone().concat(", ").concat(
                    self.companies[0].employees[2].name.as_str(),
                )
            }
        } else {
            String::from_str("Jane Doe, Bob Wilson")
        };
        lines.push(String::from_str("Recipients: ").concat(recipients.as_str()));
        let topic = if self.selected_topics.len() > 0 {
            self.selected_topics[0].clone()
        } else {
            String::from_str("General check-in")
        };
        lines.push(String::from_str("Topic: ").concat(topic.as_str()));
        lines.push(String::from_str("Style/Tone: [randomly selected at runtime]"));
        lines.push(String::new());
        lines.push(String::from_str("INSTRUCTIONS:"));
        lines.push(String::from_str("1. This is the start of a new email thread."));
        lines.push(String::from_str("2. Create a specific, interesting Subject line"));
        lines.push(String::from_str("   relevant to the topic (avoid generic titles)."));
        lines.push(String::from_str("3. Write the body of the email initiating the"));
        lines.push(String::from_str("   discussion."));
        lines.push(String::new());
        lines.push(String::from_str("Format: Subject: [Subject]\\n\\n[Body]"));
        lines.push(String::new());
        lines.push(String::from_str("── Reply Variant (added for replies) ──"));
        lines.push(String::new());
        lines.push(String::from_str("CONTEXT (Previous Email Thread):"));
        lines.push(String::from_str("  [previous email body inserted here]"));
        lines.push(String::new());
        lines.push(String::from_str("+ Address specific points raised in context"));
        lines.push(String::from_str("+ Do NOT repeat the full history"));
        lines.push(String::from_str("+ Keep subject consistent (Re: ...)"));
        lines.push(String::new());
        lines.push(String::from_str("── Provider ──"));
        lines.push(String::new());
        lines.push(String::from_str("Provider: ").concat(provider_label(self.provider_index)));
        let model_text = if self.selected_model_index < self.available_models.len() {
            self.available_models[self.selected_model_index].clone()
        } else {
            String::from_str("none")
        };
        lines.push(String::from_str("Model: ").concat(model_text.as_str()));
        let key_state = if self.current_api_key().is_empty() {
            "NOT SET"
        } else {
            "configured"
        };
        lines.push(String::from_str("API Key: ").concat(key_state));
        proof {
            assert(strings_view(lines@) =~= preview_prompt_spec(*self));
        }
        lines
    }
}

} // verus!
