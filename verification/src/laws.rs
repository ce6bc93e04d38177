//! The controller's general guarantees, each stated and proved over the
//! transition relations the methods' own contracts use.

use vstd::prelude::*;
use crate::app::App;
use crate::app::cursor_ok;
use crate::app::message_handled;
use crate::channel::ChannelMsg;
use crate::channel::JobKind;
use crate::data::strings_view;
use crate::jobs::GenerationLaunch;
use crate::launch::gen_launch_decided;
use crate::logbuf::LogBuffer;
use crate::logbuf::log_appended;
use crate::topics::topic_moved_back;
use crate::topics::topic_moved_to_selected;

verus! {

/// Every cursor of a well-formed state lies in `[0, len - 1]` of the list
/// it indexes whenever that list is non-empty, and a list sub-focus only
/// rests on a non-empty panel. Every mutating method of [`App`] requires
/// and ensures [`App::wf`], and [`App::new`] establishes it, so by
/// induction these bounds hold after any sequence of operations.
pub proof fn lemma_wf_cursor_bounds(app: App)
    requires
        app.wf(),
    ensures
        cursor_ok(app.topic_cursor, app.generated_topics@.len()),
        cursor_ok(app.selected_topic_cursor, app.selected_topics@.len()),
        cursor_ok(app.convert_selected_index, app.convert_subfolders@.len()),
        cursor_ok(app.bates_file_index, app.bates_pdf_files@.len()),
        app.selected_model_index < app.available_models@.len(),
        app.sidebar_index < crate::sections::SECTION_COUNT,
        app.topic_panel == 1 ==> app.generated_topics@.len() > 0,
        app.topic_panel == 2 ==> app.selected_topics@.len() > 0,
{
}

/// Moving the topic under the Generated cursor to Selected shrinks one
/// list by exactly one, grows the other by exactly one, and carries the
/// item over unchanged; moving it straight back restores the Selected
/// list exactly and the Generated list up to order.
pub proof fn lemma_topic_move_round_trip(s0: App, s1: App, mid: App, s2: App)
    requires
        s0.wf(),
        s0.topic_panel == 1,
        topic_moved_to_selected(s0, s1),
        mid.topic_panel == 2,
        mid.selected_topic_cursor as int == s1.selected_topics@.len() - 1,
        mid == (App {
            topic_panel: mid.topic_panel,
            selected_topic_cursor: mid.selected_topic_cursor,
            ..s1
        }),
        topic_moved_back(mid, s2),
    ensures
        s1.generated_topics@.len() == s0.generated_topics@.len() - 1,
        s1.selected_topics@.len() == s0.selected_topics@.len() + 1,
        s1.selected_topics@.last() == s0.generated_topics@[s0.topic_cursor as int],
        s2.selected_topics@ == s0.selected_topics@,
        s2.generated_topics@.to_multiset() == s0.generated_topics@.to_multiset(),
{
    broadcast use vstd::seq_lib::group_to_multiset_ensures;

    let c = s0.topic_cursor as int;
    let m = s0.generated_topics@[c];
    assert(s2.selected_topics@ =~= s0.selected_topics@);
    assert(s0.generated_topics@.contains(m));
    assert(s1.generated_topics@.to_multiset() =~= s0.generated_topics@.to_multiset().remove(m));
    assert(s2.generated_topics@.to_multiset() =~= s1.generated_topics@.to_multiset().insert(m));
    assert(s2.generated_topics@.to_multiset() =~= s0.generated_topics@.to_multiset());
}

/// Appending to a full buffer evicts the oldest line and slides a present
/// pin up by exactly one, stopping at zero, so the visually pinned line
/// does not jump.
pub proof fn lemma_eviction_keeps_pin(pre: LogBuffer, post: LogBuffer, text: Seq<char>, k: usize)
    requires
        pre.wf(),
        pre.lines@.len() == pre.capacity as int,
        pre.pin == Option::Some(k),
        log_appended(pre, post, text),
    ensures
        post.pin == Option::Some(
            (if k == 0 {
                0int
            } else {
                k - 1
            }) as usize,
        ),
        strings_view(post.lines@) == strings_view(pre.lines@).push(text).drop_first(),
{
}

/// Two generation-launch decisions in a row, with no completion sentinel
/// between them, start exactly one job: the first raises the busy flag
/// and hands out a launch; the second is refused and only logs why.
pub proof fn lemma_generation_gating(
    s0: App,
    s1: App,
    s2: App,
    r1: Option<GenerationLaunch>,
    r2: Option<GenerationLaunch>,
)
    requires
        s0.wf(),
        s0.companies@.len() > 0,
        !s0.is_generating,
        gen_launch_decided(s0, s1, r1),
        gen_launch_decided(s1, s2, r2),
    ensures
        r1 is Some,
        r2 is None,
        s1.is_generating,
        s2.is_generating,
        log_appended(s1.logs, s2.logs, "Already generating!"@),
{
}

/// A completion sentinel leaves its kind's busy flag cleared no matter
/// what the flag held, so a repeated sentinel is harmless: after each
/// receipt the flag is down and the other kinds' flags are untouched.
pub proof fn lemma_sentinel_idempotent(
    s0: App,
    s1: App,
    s2: App,
    k: JobKind,
    r1: bool,
    r2: bool,
)
    requires
        message_handled(s0, s1, ChannelMsg::JobFinished(k), r1),
        message_handled(s1, s2, ChannelMsg::JobFinished(k), r2),
    ensures
        !s1.busy_flag(k),
        !s2.busy_flag(k),
        forall|j: JobKind| j != k ==> s2.busy_flag(j) == s0.busy_flag(j),
{
    assert forall|j: JobKind| j != k implies s2.busy_flag(j) == s0.busy_flag(j) by {
        match j {
            JobKind::Generation => {},
            JobKind::Conversion => {},
            JobKind::Stamping => {},
        }
    }
}

} // verus!
