//! The bounded, ordered log feed with its eviction-aware scroll pin.

use vstd::prelude::*;
use crate::data::strings_view;

verus! {

/// The capacity the session controller gives its log feed.
pub const LOG_CAPACITY: usize = 100;

/// Rows of log text visible at once; scrolling works in units of this page.
pub const LOG_PAGE_HEIGHT: usize = 14;

/// An ordered sequence of log lines, capped at its capacity, plus the
/// scroll pin: `None` follows the newest line, `Some(k)` holds the view at
/// offset `k` from the top.
#[derive(Debug)]
pub struct LogBuffer {
    pub lines: Vec<String>,
    pub pin: Option<usize>,
    pub capacity: usize,
}

/// Holds between a buffer and the same buffer after appending a line with
/// content `text`: below capacity the line lands at the end; at capacity
/// the oldest line leaves and a present pin slides up by one, stopping at
/// zero.
pub open spec fn log_appended(pre: LogBuffer, post: LogBuffer, text: Seq<char>) -> bool {
    post.capacity == pre.capacity && if pre.lines@.len() < pre.capacity as int {
        strings_view(post.lines@) == strings_view(pre.lines@).push(text) && post.pin == pre.pin
    } else {
        strings_view(post.lines@) == strings_view(pre.lines@).push(text).drop_first() && post.pin
            == (match pre.pin {
            Option::None => Option::<usize>::None,
            Option::Some(k) => Option::Some(if k == 0 {
                0usize
            } else {
                (k - 1) as usize
            }),
        })
    }
}

/// Holds between a buffer and the same buffer scrolled one line up: an
/// absent pin first becomes the bottom offset, then moves up by one,
/// stopping at zero. A buffer within one page does not scroll.
pub open spec fn log_scrolled_up(pre: LogBuffer, post: LogBuffer) -> bool {
    post.lines@ == pre.lines@ && post.capacity == pre.capacity && if pre.lines@.len()
        <= LOG_PAGE_HEIGHT as int {
        post.pin == pre.pin
    } else {
        {
            let max_offset = pre.lines@.len() - LOG_PAGE_HEIGHT as int;
            let current = match pre.pin {
                Option::None => max_offset,
                Option::Some(k) => k as int,
            };
            post.pin == Option::Some(
                (if current == 0 {
                    0
                } else {
                    current - 1
                }) as usize,
            )
        }
    }
}

/// Holds between a buffer and the same buffer scrolled one line down: a
/// present pin moves down by one and clears back to auto-follow when it
/// reaches the bottom offset; an absent pin already follows the bottom.
pub open spec fn log_scrolled_down(pre: LogBuffer, post: LogBuffer) -> bool {
    post.lines@ == pre.lines@ && post.capacity == pre.capacity && if pre.lines@.len()
        <= LOG_PAGE_HEIGHT as int {
        post.pin == pre.pin
    } else {
        {
            let max_offset = pre.lines@.len() - LOG_PAGE_HEIGHT as int;
            match pre.pin {
                Option::None => post.pin == pre.pin,
                Option::Some(k) => if k + 1 >= max_offset {
                    post.pin == Option::<usize>::None
                } else {
                    post.pin == Option::Some((k + 1) as usize)
                },
            }
        }
    }
}

impl LogBuffer {
    /// The buffer never outgrows its capacity, and a present pin keeps a
    /// full page of lines below it.
    pub open spec fn wf(self) -> bool {
        &&& self.lines@.len() <= self.capacity as int
        &&& match self.pin {
            Option::None => true,
            Option::Some(k) => self.lines@.len() > LOG_PAGE_HEIGHT as int && (k as int)
                < self.lines@.len() - LOG_PAGE_HEIGHT as int,
        }
    }

    /// An empty buffer of the given capacity, following the newest line.
    pub fn new(capacity: usize) -> (r: LogBuffer)
        ensures
            r.wf(),
            r.lines@.len() == 0,
            r.pin is None,
            r.capacity == capacity,
    {
        LogBuffer { lines: Vec::new(), pin: Option::None, capacity }
    }

    /// Appends one line, evicting the oldest at capacity and keeping a
    /// present pin on the same visual line.
    pub fn push(&mut self, msg: String)
        requires
            old(self).wf(),
        ensures
            final(self).wf(),
            log_appended(*old(self), *final(self), msg@),
    {
        let ghost pre = self.lines@;
        self.lines.push(msg);
        proof {
            assert(strings_view(self.lines@) =~= strings_view(pre).push(msg@));
        }
        if self.lines.len() > self.capacity {
            self.lines.remove(0);
            proof {
                assert(strings_view(self.lines@) =~= strings_view(pre).push(msg@).drop_first());
            }
            if let Option::Some(k) = self.pin {
                self.pin = Option::Some(
                    if k == 0 {
                        0
                    } else {
                        k - 1
                    },
                );
            }
        }
    }

    /// Scrolls the view one line up.
    pub fn scroll_up(&mut self)
        requires
            old(self).wf(),
        ensures
            final(self).wf(),
            log_scrolled_up(*old(self), *final(self)),
    {
        if self.lines.len() <= LOG_PAGE_HEIGHT {
            return ;
        }
        let max_offset = self.lines.len() - LOG_PAGE_HEIGHT;
        let current = match self.pin {
            Option::Some(k) => k,
            Option::None => max_offset,
        };
        self.pin = Option::Some(
            if current == 0 {
                0
            } else {
                current - 1
            },
        );
    }

    /// Scrolls the view one line down, resuming auto-follow at the bottom.
    pub fn scroll_down(&mut self)
        requires
            old(self).wf(),
        ensures
            final(self).wf(),
            log_scrolled_down(*old(self), *final(self)),
    {
        if self.lines.len() <= LOG_PAGE_HEIGHT {
            return ;
        }
        let max_offset = self.lines.len() - LOG_PAGE_HEIGHT;
        if let Option::Some(k) = self.pin {
            let next = k + 1;
            if next >= max_offset {
                self.pin = Option::None;
            } else {
                self.pin = Option::Some(next);
            }
        }
    }
}

} // verus!
