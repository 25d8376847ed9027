//! Input-driven mutation of the view state: selection movement,
//! jumps, deselection, expanding an entry, and stepping the metrics
//! time range. Every mutator ends with the viewport recomputed or
//! untouched, so the visible slice always stays inside the log
//! sequence.

use vstd::prelude::*;

use crate::clock::now_string;
use crate::state::{
    spec_clamp_scroll, spec_max_scroll, spec_slice_end, spec_visible_height, AppState,
};
use crate::time_range::TimeRange;

verus! {

/// A navigation or control command, as the host shell decodes it
/// from a key press.
#[derive(Debug, Clone, Copy, PartialEq, Eq, Structural)]
pub enum KeyCommand {
    /// Note a manual refresh in the status line.
    Refresh,
    /// Move the selection up one entry, entering selection mode at
    /// the newest entry if none is active.
    SelectUp,
    /// Move the selection down one entry, entering selection mode at
    /// the newest entry if none is active.
    SelectDown,
    /// Move the selection up five entries.
    JumpUp,
    /// Move the selection down five entries.
    JumpDown,
    /// Leave selection mode.
    Deselect,
    /// Expand the selected entry to its full text, or collapse it.
    ToggleExpand,
    /// Step the metrics time range forward in its cycle.
    RangeNext,
    /// Step the metrics time range backward in its cycle.
    RangePrev,
}

/// The state after a mutator that chose selection `sel` and scroll
/// offset `s0` and then recomputed the visible slice: the offset is
/// clamped, the slice is the window starting there, and every other
/// field is untouched.
pub open spec fn spec_after_recompute(
    pre: AppState,
    post: AppState,
    sel: Option<usize>,
    s0: int,
    th: int,
) -> bool {
    let n = pre.all_logs@.len() as int;
    let vh = spec_visible_height(th);
    &&& post.spec_same_but_viewport(pre)
    &&& post.selected_log_index == sel
    &&& if n > 0 {
        let off = spec_clamp_scroll(s0, n, vh);
        &&& post.log_scroll_offset == off
        &&& post.logs@ == pre.all_logs@.subrange(off, spec_slice_end(off, n, vh))
    } else {
        &&& post.log_scroll_offset == s0
        &&& post.logs@.len() == 0
    }
}

/// Moving the selection up one entry: with no logs nothing changes;
/// with no active selection, selection starts at the newest entry
/// with the viewport at the bottom; otherwise the index moves up one
/// (stopping at the top) and the viewport follows it upward when it
/// would leave the window.
pub open spec fn spec_move_up(pre: AppState, post: AppState, th: int) -> bool {
    let n = pre.all_logs@.len() as int;
    let vh = spec_visible_height(th);
    if n == 0 {
        post == pre
    } else {
        match pre.selected_log_index {
            Option::None => spec_after_recompute(
                pre,
                post,
                Some((n - 1) as usize),
                spec_max_scroll(n, vh),
                th,
            ),
            Option::Some(idx) => {
                if idx > 0 {
                    let s0 = if idx - 1 < pre.log_scroll_offset {
                        idx - 1
                    } else {
                        pre.log_scroll_offset as int
                    };
                    spec_after_recompute(pre, post, Some((idx - 1) as usize), s0, th)
                } else {
                    spec_after_recompute(
                        pre,
                        post,
                        Some(0usize),
                        pre.log_scroll_offset as int,
                        th,
                    )
                }
            },
        }
    }
}

/// Moving the selection down one entry: the mirror image of
/// `spec_move_up`, with the viewport following downward so the new
/// index sits at the bottom of the window.
pub open spec fn spec_move_down(pre: AppState, post: AppState, th: int) -> bool {
    let n = pre.all_logs@.len() as int;
    let vh = spec_visible_height(th);
    if n == 0 {
        post == pre
    } else {
        match pre.selected_log_index {
            Option::None => spec_after_recompute(
                pre,
                post,
                Some((n - 1) as usize),
                spec_max_scroll(n, vh),
                th,
            ),
            Option::Some(idx) => {
                if idx < n - 1 {
                    let s0 = if idx + 1 >= pre.log_scroll_offset + vh {
                        if idx + 2 >= vh {
                            idx + 2 - vh
                        } else {
                            0
                        }
                    } else {
                        pre.log_scroll_offset as int
                    };
                    spec_after_recompute(pre, post, Some((idx + 1) as usize), s0, th)
                } else {
                    spec_after_recompute(pre, post, Some(idx), pre.log_scroll_offset as int, th)
                }
            },
        }
    }
}

/// Jumping the selection up five entries, or entering selection mode
/// at the newest entry when none is active; with neither selection
/// nor logs, nothing changes.
pub open spec fn spec_jump_up(pre: AppState, post: AppState, th: int) -> bool {
    let n = pre.all_logs@.len() as int;
    let vh = spec_visible_height(th);
    match pre.selected_log_index {
        Option::Some(idx) => {
            let sel = if idx >= 5 {
                idx - 5
            } else {
                0
            };
            let s0 = if sel < pre.log_scroll_offset {
                sel
            } else {
                pre.log_scroll_offset as int
            };
            spec_after_recompute(pre, post, Some(sel as usize), s0, th)
        },
        Option::None => {
            if n > 0 {
                spec_after_recompute(
                    pre,
                    post,
                    Some((n - 1) as usize),
                    spec_max_scroll(n, vh),
                    th,
                )
            } else {
                post == pre
            }
        },
    }
}

/// Jumping the selection down five entries, clamped to the newest
/// entry, or entering selection mode at the newest entry when none is
/// active; with neither selection nor logs, nothing changes.
pub open spec fn spec_jump_down(pre: AppState, post: AppState, th: int) -> bool {
    let n = pre.all_logs@.len() as int;
    let vh = spec_visible_height(th);
    match pre.selected_log_index {
        Option::Some(idx) => {
            let cap = if n > 0 {
                n - 1
            } else {
                0
            };
            let sel = if idx + 5 <= cap {
                idx + 5
            } else {
                cap
            };
            let s0 = if sel >= pre.log_scroll_offset + vh {
                if sel + 1 >= vh {
                    sel + 1 - vh
                } else {
                    0
                }
            } else {
                pre.log_scroll_offset as int
            };
            spec_after_recompute(pre, post, Some(sel as usize), s0, th)
        },
        Option::None => {
            if n > 0 {
                spec_after_recompute(
                    pre,
                    post,
                    Some((n - 1) as usize),
                    spec_max_scroll(n, vh),
                    th,
                )
            } else {
                post == pre
            }
        },
    }
}

/// Noting a manual refresh: the status line says so and the update
/// stamp is refreshed from the clock; nothing else moves.
pub open spec fn spec_refresh_note(pre: AppState, post: AppState) -> bool {
    exists|st: String, u: String|
        st@ == "Manual refresh triggered"@ && post == (AppState {
            status: st,
            last_update: u,
            ..pre
        })
}

/// Leaving selection mode: only the selection is cleared.
pub open spec fn spec_deselect(pre: AppState, post: AppState) -> bool {
    post == (AppState { selected_log_index: Option::None, ..pre })
}

/// Expanding or collapsing the selected entry: with no selection
/// nothing changes; collapsing when the selected entry is already
/// expanded, expanding it otherwise.
pub open spec fn spec_toggle_expand(pre: AppState, post: AppState) -> bool {
    match pre.selected_log_index {
        Option::None => post == pre,
        Option::Some(_) => {
            if pre.expanded_log_index == pre.selected_log_index {
                post == (AppState { expanded_log_index: Option::None, ..pre })
            } else {
                post == (AppState { expanded_log_index: pre.selected_log_index, ..pre })
            }
        },
    }
}

/// Stepping the metrics time range: only the range moves, one step
/// along its cycle.
pub open spec fn spec_range_step(pre: AppState, post: AppState, r: TimeRange) -> bool {
    post == (AppState { metrics_time_range: r, ..pre })
}

impl AppState {
    /// Moves the selection up one entry; see `spec_move_up`.
    pub fn move_selection_up(&mut self, terminal_height: u16)
        ensures
            spec_move_up(*old(self), *final(self), terminal_height as int),
            final(self).spec_viewport_ok(),
            old(self).spec_indices_ok() ==> final(self).spec_indices_ok(),
    {
        if self.all_logs.is_empty() {
            return ;
        }
        let n = self.all_logs.len();
        let vh = self.get_visible_height(terminal_height);
        match self.selected_log_index {
            None => {
                self.selected_log_index = Some(n - 1);
                self.log_scroll_offset = if n > vh {
                    n - vh
                } else {
                    0
                };
            },
            Some(idx) => {
                if idx > 0 {
                    self.selected_log_index = Some(idx - 1);
                    if idx - 1 < self.log_scroll_offset {
                        self.log_scroll_offset = idx - 1;
                    }
                }
            },
        }
        self.update_visible_logs_with_height(terminal_height);
    }

    /// Moves the selection down one entry; see `spec_move_down`.
    pub fn move_selection_down(&mut self, terminal_height: u16)
        ensures
            spec_move_down(*old(self), *final(self), terminal_height as int),
            final(self).spec_viewport_ok(),
            old(self).spec_indices_ok() ==> final(self).spec_indices_ok(),
    {
        if self.all_logs.is_empty() {
            return ;
        }
        let n = self.all_logs.len();
        let vh = self.get_visible_height(terminal_height);
        match self.selected_log_index {
            None => {
                self.selected_log_index = Some(n - 1);
                self.log_scroll_offset = if n > vh {
                    n - vh
                } else {
                    0
                };
            },
            Some(idx) => {
                if idx < n - 1 {
                    self.selected_log_index = Some(idx + 1);
                    if idx + 1 >= vh && self.log_scroll_offset <= idx + 1 - vh {
                        self.log_scroll_offset = idx + 2 - vh;
                    }
                }
            },
        }
        self.update_visible_logs_with_height(terminal_height);
    }

    /// Jumps the selection up five entries; see `spec_jump_up`.
    pub fn jump_selection_up(&mut self, terminal_height: u16)
        ensures
            spec_jump_up(*old(self), *final(self), terminal_height as int),
            final(self).spec_viewport_ok(),
            old(self).spec_indices_ok() ==> final(self).spec_indices_ok(),
    {
        match self.selected_log_index {
            Some(idx) => {
                let new_idx = if idx >= 5 {
                    idx - 5
                } else {
                    0
                };
                self.selected_log_index = Some(new_idx);
                if new_idx < self.log_scroll_offset {
                    self.log_scroll_offset = new_idx;
                }
                self.update_visible_logs_with_height(terminal_height);
            },
            None => {
                if !self.all_logs.is_empty() {
                    let n = self.all_logs.len();
                    let vh = self.get_visible_height(terminal_height);
                    self.selected_log_index = Some(n - 1);
                    self.log_scroll_offset = if n > vh {
                        n - vh
                    } else {
                        0
                    };
                    self.update_visible_logs_with_height(terminal_height);
                }
            },
        }
    }

    /// Jumps the selection down five entries; see `spec_jump_down`.
    pub fn jump_selection_down(&mut self, terminal_height: u16)
        ensures
            spec_jump_down(*old(self), *final(self), terminal_height as int),
            final(self).spec_viewport_ok(),
            old(self).spec_indices_ok() ==> final(self).spec_indices_ok(),
    {
        match self.selected_log_index {
            Some(idx) => {
                let n = self.all_logs.len();
                let vh = self.get_visible_height(terminal_height);
                let cap: usize = if n > 0 {
                    n - 1
                } else {
                    0
                };
                let new_idx: usize = if idx <= cap && cap - idx > 5 {
                    idx + 5
                } else {
                    cap
                };
                proof {
                    let capi = cap as int;
                    assert(new_idx as int == if idx + 5 <= capi {
                        idx + 5
                    } else {
                        capi
                    });
                }
                self.selected_log_index = Some(new_idx);
                if new_idx >= vh && self.log_scroll_offset <= new_idx - vh {
                    self.log_scroll_offset = new_idx - (vh - 1);
                }
                self.update_visible_logs_with_height(terminal_height);
            },
            None => {
                if !self.all_logs.is_empty() {
                    let n = self.all_logs.len();
                    let vh = self.get_visible_height(terminal_height);
                    self.selected_log_index = Some(n - 1);
                    self.log_scroll_offset = if n > vh {
                        n - vh
                    } else {
                        0
                    };
                    self.update_visible_logs_with_height(terminal_height);
                }
            },
        }
    }

    /// Leaves selection mode.
    pub fn deselect(&mut self)
        ensures
            spec_deselect(*old(self), *final(self)),
            old(self).spec_viewport_ok() ==> final(self).spec_viewport_ok(),
    {
        self.selected_log_index = None;
    }

    /// Expands or collapses the selected entry; see
    /// `spec_toggle_expand`.
    pub fn toggle_expand(&mut self)
        ensures
            spec_toggle_expand(*old(self), *final(self)),
            old(self).spec_viewport_ok() ==> final(self).spec_viewport_ok(),
    {
        match self.selected_log_index {
            None => {},
            Some(idx) => {
                let collapse = match self.expanded_log_index {
                    Some(e) => e == idx,
                    None => false,
                };
                if collapse {
                    self.expanded_log_index = None;
                } else {
                    self.expanded_log_index = Some(idx);
                }
            },
        }
    }

    /// Notes a manual refresh in the status line and stamps the
    /// update time.
    pub fn note_manual_refresh(&mut self)
        ensures
            spec_refresh_note(*old(self), *final(self)),
            old(self).spec_viewport_ok() ==> final(self).spec_viewport_ok(),
    {
        self.status = String::from_str("Manual refresh triggered");
        self.last_update = now_string();
        proof {
            let st = self.status;
            let u = self.last_update;
            assert(*self == (AppState { status: st, last_update: u, ..*old(self) }));
        }
    }

    /// Steps the metrics time range forward in its cycle.
    pub fn range_next(&mut self)
        ensures
            spec_range_step(*old(self), *final(self), old(self).metrics_time_range.spec_next()),
            old(self).spec_viewport_ok() ==> final(self).spec_viewport_ok(),
    {
        self.metrics_time_range = self.metrics_time_range.next();
    }

    /// Steps the metrics time range backward in its cycle.
    pub fn range_prev(&mut self)
        ensures
            spec_range_step(*old(self), *final(self), old(self).metrics_time_range.spec_prev()),
            old(self).spec_viewport_ok() ==> final(self).spec_viewport_ok(),
    {
        self.metrics_time_range = self.metrics_time_range.prev();
    }

    /// Dispatches one decoded key command against the view state.
    pub fn handle_key(&mut self, cmd: KeyCommand, terminal_height: u16)
        ensures
            cmd == KeyCommand::Refresh ==> spec_refresh_note(*old(self), *final(self)),
            cmd == KeyCommand::SelectUp ==> spec_move_up(
                *old(self),
                *final(self),
                terminal_height as int,
            ),
            cmd == KeyCommand::SelectDown ==> spec_move_down(
                *old(self),
                *final(self),
                terminal_height as int,
            ),
            cmd == KeyCommand::JumpUp ==> spec_jump_up(
                *old(self),
                *final(self),
                terminal_height as int,
            ),
            cmd == KeyCommand::JumpDown ==> spec_jump_down(
                *old(self),
                *final(self),
                terminal_height as int,
            ),
            cmd == KeyCommand::Deselect ==> spec_deselect(*old(self), *final(self)),
            cmd == KeyCommand::ToggleExpand ==> spec_toggle_expand(*old(self), *final(self)),
            cmd == KeyCommand::RangeNext ==> spec_range_step(
                *old(self),
                *final(self),
                old(self).metrics_time_range.spec_next(),
            ),
            cmd == KeyCommand::RangePrev ==> spec_range_step(
                *old(self),
                *final(self),
                old(self).metrics_time_range.spec_prev(),
            ),
            old(self).spec_viewport_ok() ==> final(self).spec_viewport_ok(),
    {
        match cmd {
            KeyCommand::Refresh => self.note_manual_refresh(),
            KeyCommand::SelectUp => self.move_selection_up(terminal_height),
            KeyCommand::SelectDown => self.move_selection_down(terminal_height),
            KeyCommand::JumpUp => self.jump_selection_up(terminal_height),
            KeyCommand::JumpDown => self.jump_selection_down(terminal_height),
            KeyCommand::Deselect => self.deselect(),
            KeyCommand::ToggleExpand => self.toggle_expand(),
            KeyCommand::RangeNext => self.range_next(),
            KeyCommand::RangePrev => self.range_prev(),
        }
    }

    /// The text the copy command puts on the clipboard: the selected
    /// entry as `[LEVEL] message`, or nothing when no valid entry is
    /// selected.
    pub fn copy_log_text(&self) -> (r: Option<String>)
        ensures
            ({
                match self.selected_log_index {
                    Option::Some(idx) => {
                        if idx < self.all_logs@.len() {
                            r matches Some(t) && t@ == "["@ + self.all_logs@[idx as int].level@
                                + "] "@ + self.all_logs@[idx as int].message@
                        } else {
                            r is None
                        }
                    },
                    Option::None => r is None,
                }
            }),
    {
        match self.selected_log_index {
            Some(idx) => {
                if idx < self.all_logs.len() {
                    let e = &self.all_logs[idx];
                    let mut t = String::from_str("[");
                    t.append(e.level.as_str());
                    t.append("] ");
                    t.append(e.message.as_str());
                    Some(t)
                } else {
                    None
                }
            },
            None => None,
        }
    }
}

/// The status line after a successful copy: the first thirty
/// characters of the copied text, in the copy notice.
pub fn copied_status(text: &str) -> (r: String)
    ensures
        ({
            let k = if text@.len() < 30 {
                text@.len() as int
            } else {
                30
            };
            r@ == "Log copied to clipboard ("@ + text@.take(k) + "...)"@
        }),
{
    let l = text.unicode_len();
    let k: usize = if l < 30 {
        l
    } else {
        30
    };
    let head = text.substring_char(0, k);
    let mut r = String::from_str("Log copied to clipboard (");
    r.append(head);
    r.append("...)");
    proof {
        assert(head@ =~= text@.take(k as int));
    }
    r
}

} // verus!
