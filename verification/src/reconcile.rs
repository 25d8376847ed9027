//! The log reconciler and the refresh cycle's state mutation.
//!
//! Each cycle fetches the full log window anew. The reconciler
//! compares it, position by position, against what was shown before
//! and decides which entries count as new: a grown sequence is taken
//! as extended at the tail, an unchanged count carries highlights
//! forward where the text still matches, and the very first fetch
//! highlights nothing.

use vstd::prelude::*;

use crate::clock::now_string;
use crate::logs::LogEntry;
use crate::state::{
    spec_clamp_scroll, spec_max_scroll, spec_slice_end, spec_visible_height, AppState,
};
use crate::text::{spec_dec, usize_to_string};

verus! {

/// The newness flag position `i` of the fetched sequence receives,
/// given the previously shown sequence, the previous fetch count and
/// whether a first fetch had already happened: nothing is new on the
/// first fetch; a grown sequence is new from the old count onward;
/// otherwise a highlight survives exactly where one stood before and
/// the message text is unchanged.
pub open spec fn spec_recon_flag(
    prev: Seq<LogEntry>,
    prev_count: int,
    fetched: Seq<LogEntry>,
    had_initial: bool,
    i: int,
) -> bool {
    if !had_initial {
        false
    } else if fetched.len() > prev_count {
        i >= prev_count
    } else {
        i < prev.len() && prev[i].is_new && fetched[i].message@ == prev[i].message@
    }
}

/// How many of the first `k` positions carry a highlight forward: a
/// highlight stood there before and the message text is unchanged.
pub open spec fn spec_preserved_count(prev: Seq<LogEntry>, fetched: Seq<LogEntry>, k: int) -> int
    decreases k,
{
    if k <= 0 {
        0
    } else {
        spec_preserved_count(prev, fetched, k - 1) + if k - 1 < prev.len() && prev[k - 1].is_new
            && fetched[k - 1].message@ == prev[k - 1].message@ {
            1int
        } else {
            0int
        }
    }
}

/// The status line one reconciliation produces: the count of the
/// first fetch, the count of newly arrived entries on growth, the
/// count of highlights carried forward when the window is unchanged,
/// or a plain connection note.
pub open spec fn spec_status_text(
    prev: Seq<LogEntry>,
    prev_count: int,
    fetched: Seq<LogEntry>,
    had_initial: bool,
) -> Seq<char> {
    let n = fetched.len() as int;
    if !had_initial {
        "Connected - Initial: "@ + spec_dec(n) + " logs"@
    } else if n > prev_count {
        "Connected - "@ + spec_dec(n - prev_count) + " new logs!"@
    } else {
        let p = spec_preserved_count(prev, fetched, n);
        if p > 0 {
            "Connected - "@ + spec_dec(p) + " logs highlighted"@
        } else {
            "Connected"@
        }
    }
}

/// Reconciles a freshly fetched log sequence against the previously
/// shown one. Returns the fetched entries with their newness flags
/// assigned, the new fetch count, the status line, and whether the
/// sequence grew. Entries are never dropped or reordered; only the
/// flag is assigned.
pub fn reconcile(
    previous: &Vec<LogEntry>,
    previous_fetch_count: usize,
    fetched: &Vec<LogEntry>,
    has_initial_fetch: bool,
) -> (r: (Vec<LogEntry>, usize, String, bool))
    ensures
        r.0@.len() == fetched@.len(),
        forall|i: int|
            0 <= i < fetched@.len() ==> {
                &&& (#[trigger] r.0@[i]).timestamp == fetched@[i].timestamp
                &&& r.0@[i].message == fetched@[i].message
                &&& r.0@[i].level == fetched@[i].level
                &&& r.0@[i].is_new == spec_recon_flag(
                    previous@,
                    previous_fetch_count as int,
                    fetched@,
                    has_initial_fetch,
                    i,
                )
            },
        r.1 == fetched@.len(),
        r.2@ == spec_status_text(
            previous@,
            previous_fetch_count as int,
            fetched@,
            has_initial_fetch,
        ),
        r.3 == (fetched@.len() > previous_fetch_count),
        has_initial_fetch && fetched@.len() > previous_fetch_count ==> forall|i: int|
            0 <= i < fetched@.len() ==> (#[trigger] r.0@[i]).is_new == (i
                >= previous_fetch_count),
        has_initial_fetch && fetched@.len() <= previous_fetch_count ==> forall|i: int|
            0 <= i < fetched@.len() ==> (#[trigger] r.0@[i]).is_new == (i < previous@.len()
                && previous@[i].is_new && fetched@[i].message@ == previous@[i].message@),
{
    let n = fetched.len();
    let growth = n > previous_fetch_count;
    let prev_len = previous.len();
    let mut marked: Vec<LogEntry> = Vec::new();
    let mut preserved: usize = 0;
    let mut i: usize = 0;
    while i < n
        invariant
            i <= n,
            n == fetched@.len(),
            prev_len == previous@.len(),
            growth == (n > previous_fetch_count),
            marked@.len() == i,
            preserved <= i,
            preserved == spec_preserved_count(previous@, fetched@, i as int),
            forall|j: int|
                0 <= j < i ==> {
                    &&& (#[trigger] marked@[j]).timestamp == fetched@[j].timestamp
                    &&& marked@[j].message == fetched@[j].message
                    &&& marked@[j].level == fetched@[j].level
                    &&& marked@[j].is_new == spec_recon_flag(
                        previous@,
                        previous_fetch_count as int,
                        fetched@,
                        has_initial_fetch,
                        j,
                    )
                },
        decreases n - i,
    {
        let e = &fetched[i];
        let carried: bool = if i < prev_len {
            previous[i].is_new && e.message == previous[i].message
        } else {
            false
        };
        let flag: bool = if !has_initial_fetch {
            false
        } else if growth {
            i >= previous_fetch_count
        } else {
            carried
        };
        if carried {
            preserved = preserved + 1;
        }
        marked.push(
            LogEntry {
                timestamp: e.timestamp.clone(),
                message: e.message.clone(),
                level: e.level.clone(),
                is_new: flag,
            },
        );
        i = i + 1;
    }
    let status: String = if !has_initial_fetch {
        let d = usize_to_string(n);
        let mut s = String::from_str("Connected - Initial: ");
        s.append(d.as_str());
        s.append(" logs");
        s
    } else if growth {
        let d = usize_to_string(n - previous_fetch_count);
        let mut s = String::from_str("Connected - ");
        s.append(d.as_str());
        s.append(" new logs!");
        s
    } else if preserved > 0 {
        let d = usize_to_string(preserved);
        let mut s = String::from_str("Connected - ");
        s.append(d.as_str());
        s.append(" logs highlighted");
        s
    } else {
        String::from_str("Connected")
    };
    (marked, n, status, growth)
}

/// Where the refresh cycle's auto-scroll policy puts the scroll
/// offset, before the final clamp: the bottom on the first non-empty
/// paint, the bottom when new entries arrived and no selection is
/// active, and the old position otherwise.
pub open spec fn spec_scroll_after_policy(pre: AppState, n: int, vh: int, had_new: bool) -> int {
    let first_paint = pre.log_scroll_offset == 0 && pre.selected_log_index is None
        && pre.logs@.len() == 0;
    if first_paint && n > 0 {
        spec_max_scroll(n, vh)
    } else if had_new && pre.selected_log_index is None {
        spec_max_scroll(n, vh)
    } else {
        pre.log_scroll_offset as int
    }
}

/// Where the refresh cycle leaves the selection: untouched while it
/// stays inside the sequence, clamped to the last entry when the
/// sequence shrank past it, and cleared when nothing is left.
pub open spec fn spec_selection_after_policy(pre: AppState, n: int) -> Option<usize> {
    match pre.selected_log_index {
        Option::Some(idx) => {
            if idx < n {
                Some(idx)
            } else if n > 0 {
                Some((n - 1) as usize)
            } else {
                Option::None
            }
        },
        Option::None => Option::None,
    }
}

/// Where the refresh cycle leaves the expanded entry: untouched
/// while it stays inside the sequence, and dropped once the sequence
/// shrank past it — expanding some other entry in its stead would
/// surprise more than it would help.
pub open spec fn spec_expansion_after_policy(pre: AppState, n: int) -> Option<usize> {
    match pre.expanded_log_index {
        Option::Some(idx) => {
            if idx < n {
                Some(idx)
            } else {
                Option::None
            }
        },
        Option::None => Option::None,
    }
}

impl AppState {
    /// One refresh cycle's log update: reconciles the fetched
    /// sequence against the shown one, replaces the full sequence,
    /// stamps the fetch time, applies the auto-scroll policy, and
    /// recomputes the visible slice for the last known terminal
    /// height.
    pub fn apply_fetched_logs(&mut self, fetched: &Vec<LogEntry>)
        ensures
            final(self).all_logs@.len() == fetched@.len(),
            forall|i: int|
                0 <= i < fetched@.len() ==> {
                    &&& (#[trigger] final(self).all_logs@[i]).timestamp == fetched@[i].timestamp
                    &&& final(self).all_logs@[i].message == fetched@[i].message
                    &&& final(self).all_logs@[i].level == fetched@[i].level
                    &&& final(self).all_logs@[i].is_new == spec_recon_flag(
                        old(self).all_logs@,
                        old(self).last_fetch_count as int,
                        fetched@,
                        old(self).has_initial_fetch,
                        i,
                    )
                },
            final(self).last_fetch_count == fetched@.len(),
            final(self).has_initial_fetch,
            final(self).status@ == spec_status_text(
                old(self).all_logs@,
                old(self).last_fetch_count as int,
                fetched@,
                old(self).has_initial_fetch,
            ),
            final(self).selected_log_index == spec_selection_after_policy(
                *old(self),
                fetched@.len() as int,
            ),
            ({
                let n = fetched@.len() as int;
                let vh = spec_visible_height(old(self).last_terminal_height as int);
                let had_new = n > old(self).last_fetch_count;
                let s0 = spec_scroll_after_policy(*old(self), n, vh, had_new);
                if n > 0 {
                    let off = spec_clamp_scroll(s0, n, vh);
                    &&& final(self).log_scroll_offset == off
                    &&& final(self).logs@ == final(self).all_logs@.subrange(
                        off,
                        spec_slice_end(off, n, vh),
                    )
                } else {
                    &&& final(self).log_scroll_offset == s0
                    &&& final(self).logs@.len() == 0
                }
            }),
            final(self).prometheus_url == old(self).prometheus_url,
            final(self).loki_url == old(self).loki_url,
            final(self).last_update == old(self).last_update,
            final(self).last_terminal_height == old(self).last_terminal_height,
            final(self).active_panel == old(self).active_panel,
            final(self).metrics_scroll_offset == old(self).metrics_scroll_offset,
            final(self).metrics_time_range == old(self).metrics_time_range,
            final(self).metrics_loading == old(self).metrics_loading,
            final(self).expanded_log_index == spec_expansion_after_policy(
                *old(self),
                fetched@.len() as int,
            ),
            final(self).spec_viewport_ok(),
            final(self).spec_indices_ok(),
    {
        let old_scroll = self.log_scroll_offset;
        let old_selected = self.selected_log_index;
        let terminal_height = self.last_terminal_height;
        let first_paint = old_scroll == 0 && old_selected.is_none() && self.logs.is_empty();

        let (marked, new_count, status, had_new) = reconcile(
            &self.all_logs,
            self.last_fetch_count,
            fetched,
            self.has_initial_fetch,
        );

        self.has_initial_fetch = true;
        self.last_fetch_count = new_count;
        self.status = status;
        self.all_logs = marked;
        self.last_fetch = now_string();

        let n = self.all_logs.len();
        let vh = self.get_visible_height(terminal_height);
        if first_paint && n > 0 {
            let last_idx = n - 1;
            self.log_scroll_offset = if last_idx >= vh - 1 {
                last_idx - (vh - 1)
            } else {
                0
            };
        } else if had_new && old_selected.is_none() {
            self.log_scroll_offset = if n > vh {
                n - vh
            } else {
                0
            };
        } else if old_selected.is_some() {
            self.log_scroll_offset = old_scroll;
            match old_selected {
                Some(idx) => {
                    if idx >= n {
                        if n == 0 {
                            self.selected_log_index = None;
                        } else {
                            self.selected_log_index = Some(n - 1);
                        }
                    }
                },
                None => {},
            }
        } else {
            self.log_scroll_offset = old_scroll;
        }
        match self.expanded_log_index {
            Some(e) => {
                if e >= n {
                    self.expanded_log_index = None;
                }
            },
            None => {},
        }
        self.update_visible_logs_with_height(terminal_height);
    }
}

} // verus!
