//! The three topic panels and the moves between their two lists.

use vstd::prelude::*;
use crate::app::App;

verus! {

/// Holds between the states before and after moving the topic under the
/// Generated cursor over to the Selected list: the item leaves one list
/// and lands at the end of the other, the cursor is clamped back into the
/// shrunken list, and an emptied Generated panel hands its sub-focus to
/// the Selected panel it just filled.
pub open spec fn topic_moved_to_selected(pre: App, post: App) -> bool {
    let cursor = pre.topic_cursor as int;
    let moved = pre.generated_topics@[cursor];
    let newlen = pre.generated_topics@.len() - 1;
    &&& post.generated_topics@ == pre.generated_topics@.remove(cursor)
    &&& post.selected_topics@ == pre.selected_topics@.push(moved)
    &&& post.topic_cursor == (if cursor >= newlen && cursor > 0 {
        cursor - 1
    } else {
        cursor
    })
    &&& post.topic_panel == (if newlen == 0 {
        2int
    } else {
        1int
    })
    &&& post == (App {
        generated_topics: post.generated_topics,
        selected_topics: post.selected_topics,
        topic_cursor: post.topic_cursor,
        topic_panel: post.topic_panel,
        ..pre
    })
}

/// The inverse move: the topic under the Selected cursor goes back to the
/// end of the Generated list, and an emptied Selected panel hands its
/// sub-focus back to Generated.
pub open spec fn topic_moved_back(pre: App, post: App) -> bool {
    let cursor = pre.selected_topic_cursor as int;
    let moved = pre.selected_topics@[cursor];
    let newlen = pre.selected_topics@.len() - 1;
    &&& post.selected_topics@ == pre.selected_topics@.remove(cursor)
    &&& post.generated_topics@ == pre.generated_topics@.push(moved)
    &&& post.selected_topic_cursor == (if cursor >= newlen && cursor > 0 {
        cursor - 1
    } else {
        cursor
    })
    &&& post.topic_panel == (if newlen == 0 {
        1int
    } else {
        2int
    })
    &&& post == (App {
        generated_topics: post.generated_topics,
        selected_topics: post.selected_topics,
        selected_topic_cursor: post.selected_topic_cursor,
        topic_panel: post.topic_panel,
        ..pre
    })
}

/// Holds between the states around one Activate on the Topics section:
/// on the Load panel nothing changes and loading is requested from the
/// outside collaborator; on a list panel the cursor item moves across.
pub open spec fn topic_selection(pre: App, post: App, load_requested: bool) -> bool {
    if pre.topic_panel == 0 {
        post == pre && load_requested
    } else if pre.topic_panel == 1 {
        topic_moved_to_selected(pre, post) && !load_requested
    } else {
        topic_moved_back(pre, post) && !load_requested
    }
}

/// Holds between the states around one Remove on the Topics section: on
/// the Selected panel the cursor item is deleted outright, the cursor is
/// clamped, and an emptied panel hands its sub-focus to a non-empty
/// neighbor; elsewhere nothing happens.
pub open spec fn topic_removed(pre: App, post: App) -> bool {
    if pre.topic_panel == 2 {
        let cursor = pre.selected_topic_cursor as int;
        let newlen = pre.selected_topics@.len() - 1;
        &&& post.selected_topics@ == pre.selected_topics@.remove(cursor)
        &&& post.selected_topic_cursor == (if cursor >= newlen && cursor > 0 {
            cursor - 1
        } else {
            cursor
        })
        &&& post.topic_panel == (if newlen == 0 {
            if pre.generated_topics@.len() > 0 {
                1int
            } else {
                0int
            }
        } else {
            2int
        })
        &&& post == (App {
            selected_topics: post.selected_topics,
            selected_topic_cursor: post.selected_topic_cursor,
            topic_panel: post.topic_panel,
            ..pre
        })
    } else {
        post == pre
    }
}

/// Holds between the states around one panel cycle: Load, Generated,
/// Selected, back to Load, skipping list panels that are empty, with both
/// list cursors reset.
pub open spec fn topic_panel_cycled(pre: App, post: App) -> bool {
    post == (App {
        topic_panel: (if pre.topic_panel == 0 {
            if pre.generated_topics@.len() > 0 {
                1int
            } else if pre.selected_topics@.len() > 0 {
                2int
            } else {
                0int
            }
        } else if pre.topic_panel == 1 {
            if pre.selected_topics@.len() > 0 {
                2int
            } else {
                0int
            }
        } else {
            0int
        }) as usize,
        topic_cursor: 0usize,
        selected_topic_cursor: 0usize,
        ..pre
    })
}

impl App {
    /// Activate on the Topics section: moves the cursor item between the
    /// two lists, or asks for the topic file to be loaded again when the
    /// Load panel is active (the outside collaborator then reads it).
    pub fn select_topic(&mut self) -> (load_requested: bool)
        requires
            old(self).wf(),
        ensures
            final(self).wf(),
            topic_selection(*old(self), *final(self), load_requested),
    {
        if self.topic_panel == 0 {
            true
        } else if self.topic_panel == 1 {
            let topic = self.generated_topics.remove(self.topic_cursor);
            self.selected_topics.push(topic);
            if self.topic_cursor >= self.generated_topics.len() && self.topic_cursor > 0 {
                self.topic_cursor = self.topic_cursor - 1;
            }
            if self.generated_topics.len() == 0 {
                self.topic_panel = 2;
            }
            false
        } else {
            let topic = self.selected_topics.remove(self.selected_topic_cursor);
            self.generated_topics.push(topic);
            if self.selected_topic_cursor >= self.selected_topics.len()
                && self.selected_topic_cursor > 0 {
                self.selected_topic_cursor = self.selected_topic_cursor - 1;
            }
            if self.selected_topics.len() == 0 {
                self.topic_panel = 1;
            }
            false
        }
    }

    /// Remove on the Topics section: deletes the cursor item of the
    /// Selected list.
    pub fn remove_selected_topic(&mut self)
        requires
            old(self).wf(),
        ensures
            final(self).wf(),
            topic_removed(*old(self), *final(self)),
    {
        if self.topic_panel == 2 {
            self.selected_topics.remove(self.selected_topic_cursor);
            if self.selected_topic_cursor >= self.selected_topics.len()
                && self.selected_topic_cursor > 0 {
                self.selected_topic_cursor = self.selected_topic_cursor - 1;
            }
            if self.selected_topics.len() == 0 {
                self.topic_panel = if self.generated_topics.len() > 0 {
                    1
                } else {
                    0
                };
            }
        }
    }

    /// Advances the topic sub-focus one panel, skipping empty lists and
    /// resetting both cursors.
    pub fn cycle_topic_panel(&mut self)
        requires
            old(self).wf(),
        ensures
            final(self).wf(),
            topic_panel_cycled(*old(self), *final(self)),
    {
        self.topic_panel = if self.topic_panel == 0 {
            if self.generated_topics.len() > 0 {
                1
            } else if self.selected_topics.len() > 0 {
                2
            } else {
                0
            }
        } else if self.topic_panel == 1 {
            if self.selected_topics.len() > 0 {
                2
            } else {
                0
            }
        } else {
            0
        };
        self.topic_cursor = 0;
        self.selected_topic_cursor = 0;
    }
}

} // verus!
