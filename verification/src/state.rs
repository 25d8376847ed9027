//! The shared view state of the dashboard and the viewport
//! bookkeeping over the full log sequence: how many log rows fit the
//! terminal, and which contiguous slice of the logs is on screen.

use vstd::prelude::*;

use crate::clock::now_string;
use crate::logs::LogEntry;
use crate::time_range::TimeRange;

verus! {

/// Which panel currently has the keyboard focus.
#[derive(Debug, Clone, Copy, PartialEq, Eq, Structural)]
pub enum ActivePanel {
    Idle,
    Logs,
    Metrics,
}

/// Everything the renderer shows and the refresh cycle updates,
/// except the metric samples themselves (those carry measured
/// averages and live with the host shell). Written by the refresh
/// cycle and by input handling, read by the renderer.
#[derive(Debug, Clone)]
pub struct AppState {
    /// The visible slice of `all_logs`.
    pub logs: Vec<LogEntry>,
    /// When the screen contents last changed.
    pub last_update: String,
    /// When data was last fetched from the backends.
    pub last_fetch: String,
    /// The status line shown in the footer.
    pub status: String,
    pub prometheus_url: String,
    pub loki_url: String,
    /// The selected position in `all_logs`, when selection is active.
    pub selected_log_index: Option<usize>,
    /// Where the visible slice starts in `all_logs`.
    pub log_scroll_offset: usize,
    /// The full log sequence of the latest fetch.
    pub all_logs: Vec<LogEntry>,
    /// The terminal height the render loop last saw, so a background
    /// refresh can lay the viewport out without waiting for a frame.
    pub last_terminal_height: u16,
    /// How many entries the previous fetch returned.
    pub last_fetch_count: usize,
    /// Whether a first fetch has completed.
    pub has_initial_fetch: bool,
    pub active_panel: ActivePanel,
    pub metrics_scroll_offset: usize,
    pub metrics_time_range: TimeRange,
    pub metrics_loading: bool,
    /// The entry shown with its full text, when one is expanded.
    pub expanded_log_index: Option<usize>,
}

/// The rows the metrics band occupies, by terminal height: a small
/// band on short terminals, a large one on tall terminals.
pub open spec fn spec_metrics_band(h: int) -> int {
    if h < 30 {
        6
    } else if h > 50 {
        12
    } else {
        10
    }
}

/// The rows consumed by fixed chrome: header, endpoints, metrics
/// band, footer, margins, borders.
pub open spec fn spec_fixed_rows(h: int) -> int {
    3 + 3 + spec_metrics_band(h) + 3 + 2 + 3
}

/// The log rows that fit a terminal of height `h`: whatever the
/// chrome leaves over, and never fewer than five.
pub open spec fn spec_visible_height(h: int) -> int {
    let rest = if h >= spec_fixed_rows(h) {
        h - spec_fixed_rows(h)
    } else {
        0
    };
    if rest < 5 {
        5
    } else {
        rest
    }
}

/// The largest scroll offset that still fills the viewport: zero when
/// the logs fit on screen.
pub open spec fn spec_max_scroll(n: int, vh: int) -> int {
    if n >= vh {
        n - vh
    } else {
        0
    }
}

/// A scroll offset clamped to the valid range.
pub open spec fn spec_clamp_scroll(s: int, n: int, vh: int) -> int {
    if s <= spec_max_scroll(n, vh) {
        s
    } else {
        spec_max_scroll(n, vh)
    }
}

/// Where the visible slice starting at `off` ends.
pub open spec fn spec_slice_end(off: int, n: int, vh: int) -> int {
    if off + vh <= n {
        off + vh
    } else {
        n
    }
}

/// The rendered screen is too small for the dashboard layout: the
/// warning screen replaces it. Widths under 80 columns and heights up
/// to 24 rows, the stated minimum, get the warning.
pub open spec fn spec_size_warning(w: int, h: int) -> bool {
    w < 80 || h < 25
}

/// Whether the warning screen replaces the dashboard at this size.
pub fn size_warning_needed(width: u16, height: u16) -> (b: bool)
    ensures
        b == spec_size_warning(width as int, height as int),
{
    width < 80 || height < 25
}

/// The metrics band height used by the renderer's layout; kept in
/// step with `spec_visible_height` so layout and scrolling agree.
pub fn metrics_band_height(height: u16) -> (r: u16)
    ensures
        r == spec_metrics_band(height as int),
{
    if height < 30 {
        6
    } else if height > 50 {
        12
    } else {
        10
    }
}

impl AppState {
    /// The visible slice begins and ends inside the full sequence.
    pub open spec fn spec_viewport_ok(self) -> bool {
        self.all_logs@.len() > 0 ==> self.log_scroll_offset + self.logs@.len()
            <= self.all_logs@.len()
    }

    /// The selection and expansion indices, when present, point
    /// inside the full log sequence.
    pub open spec fn spec_indices_ok(self) -> bool {
        &&& match self.selected_log_index {
            Option::Some(i) => i < self.all_logs@.len(),
            Option::None => true,
        }
        &&& match self.expanded_log_index {
            Option::Some(i) => i < self.all_logs@.len(),
            Option::None => true,
        }
    }

    /// The two states agree on every field the viewport bookkeeping
    /// leaves alone.
    pub open spec fn spec_same_but_viewport(self, other: AppState) -> bool {
        &&& self.last_update == other.last_update
        &&& self.last_fetch == other.last_fetch
        &&& self.status == other.status
        &&& self.prometheus_url == other.prometheus_url
        &&& self.loki_url == other.loki_url
        &&& self.all_logs == other.all_logs
        &&& self.last_terminal_height == other.last_terminal_height
        &&& self.last_fetch_count == other.last_fetch_count
        &&& self.has_initial_fetch == other.has_initial_fetch
        &&& self.active_panel == other.active_panel
        &&& self.metrics_scroll_offset == other.metrics_scroll_offset
        &&& self.metrics_time_range == other.metrics_time_range
        &&& self.metrics_loading == other.metrics_loading
        &&& self.expanded_log_index == other.expanded_log_index
    }

    /// How many log rows fit a terminal of the given height. Pure,
    /// and shared by the renderer and the refresh cycle's scrolling,
    /// so the two can never disagree; never less than five rows.
    pub fn get_visible_height(&self, terminal_height: u16) -> (r: usize)
        ensures
            r == spec_visible_height(terminal_height as int),
            r >= 5,
    {
        let metrics_height: u16 = if terminal_height < 30 {
            6
        } else if terminal_height > 50 {
            12
        } else {
            10
        };
        let fixed_lines: u16 = 3 + 3 + metrics_height + 3 + 2 + 3;
        let rest: usize = if terminal_height >= fixed_lines {
            (terminal_height - fixed_lines) as usize
        } else {
            0
        };
        if rest < 5 {
            5
        } else {
            rest
        }
    }

    /// What one recomputation of the visible slice does, from `pre`
    /// to `post`, for terminal height `th`: the scroll offset is
    /// clamped to the valid range and the slice is the window of the
    /// full sequence starting there; with no logs at all the slice is
    /// empty and the offset is left alone; nothing else moves.
    pub open spec fn spec_recomputed(pre: AppState, post: AppState, th: int) -> bool {
        let n = pre.all_logs@.len() as int;
        let vh = spec_visible_height(th);
        &&& post.spec_same_but_viewport(pre)
        &&& post.selected_log_index == pre.selected_log_index
        &&& if n > 0 {
            let off = spec_clamp_scroll(pre.log_scroll_offset as int, n, vh);
            &&& post.log_scroll_offset == off
            &&& post.logs@ == pre.all_logs@.subrange(off, spec_slice_end(off, n, vh))
        } else {
            &&& post.log_scroll_offset == pre.log_scroll_offset
            &&& post.logs@.len() == 0
        }
    }

    /// Recomputes the visible slice for the given terminal height:
    /// clamps the scroll offset to the valid range, then takes the
    /// window of the full sequence starting there. With no logs at
    /// all, the slice is empty and the offset is left alone.
    pub fn update_visible_logs_with_height(&mut self, terminal_height: u16)
        ensures
            AppState::spec_recomputed(*old(self), *final(self), terminal_height as int),
            final(self).spec_viewport_ok(),
    {
        let vh = self.get_visible_height(terminal_height);
        let n = self.all_logs.len();
        if n != 0 {
            let max_scroll: usize = if n >= vh {
                n - vh
            } else {
                0
            };
            if self.log_scroll_offset > max_scroll {
                self.log_scroll_offset = max_scroll;
            }
            let off = self.log_scroll_offset;
            let end: usize = if n - off >= vh {
                off + vh
            } else {
                n
            };
            let mut slice: Vec<LogEntry> = Vec::new();
            let mut i: usize = off;
            while i < end
                invariant
                    off <= i <= end,
                    end <= n,
                    n == self.all_logs@.len(),
                    slice@ == self.all_logs@.subrange(off as int, i as int),
                decreases end - i,
            {
                let e = clone_entry(&self.all_logs[i]);
                slice.push(e);
                proof {
                    assert(slice@ =~= self.all_logs@.subrange(off as int, i + 1));
                }
                i = i + 1;
            }
            self.logs = slice;
        } else {
            self.logs = Vec::new();
        }
    }
}

/// A field-for-field copy of a log entry.
pub fn clone_entry(e: &LogEntry) -> (r: LogEntry)
    ensures
        r == *e,
{
    LogEntry {
        timestamp: e.timestamp.clone(),
        message: e.message.clone(),
        level: e.level.clone(),
        is_new: e.is_new,
    }
}

impl Default for AppState {
    /// The state the dashboard starts with: nothing fetched yet,
    /// nothing selected, the default five-minute metrics window.
    /// `last_update` is stamped with the current wall-clock time.
    fn default() -> (s: Self)
        ensures
            s.logs@.len() == 0,
            s.last_fetch@ == "Never"@,
            s.status@ == "Initializing..."@,
            s.prometheus_url@ == Seq::<char>::empty(),
            s.loki_url@ == Seq::<char>::empty(),
            s.selected_log_index is None,
            s.log_scroll_offset == 0,
            s.all_logs@.len() == 0,
            s.last_terminal_height == 50u16,
            s.last_fetch_count == 0,
            !s.has_initial_fetch,
            s.active_panel == ActivePanel::Idle,
            s.metrics_scroll_offset == 0,
            s.metrics_time_range == TimeRange::FiveMin,
            !s.metrics_loading,
            s.expanded_log_index is None,
            s.spec_viewport_ok(),
    {
        AppState {
            logs: Vec::new(),
            last_update: now_string(),
            last_fetch: String::from_str("Never"),
            status: String::from_str("Initializing..."),
            prometheus_url: String::new(),
            loki_url: String::new(),
            selected_log_index: None,
            log_scroll_offset: 0,
            all_logs: Vec::new(),
            last_terminal_height: 50,
            last_fetch_count: 0,
            has_initial_fetch: false,
            active_panel: ActivePanel::Idle,
            metrics_scroll_offset: 0,
            metrics_time_range: TimeRange::FiveMin,
            metrics_loading: false,
            expanded_log_index: None,
        }
    }
}

} // verus!
