//! Laws the library keeps, stated on their own so a reader finds
//! them in one place: what reconciliation does to the newness flags,
//! that recomputing the viewport twice is the same as once, that the
//! viewport invariant follows from any recomputation, and the floor
//! under the viewport height.

use vstd::prelude::*;

use crate::input::{spec_jump_down, spec_jump_up, spec_move_down, spec_move_up};
use crate::logs::LogEntry;
use crate::reconcile::{
    spec_expansion_after_policy, spec_recon_flag, spec_selection_after_policy,
};
use crate::state::{spec_visible_height, AppState};

verus! {

/// When a fetch grows past the previous count, reconciliation marks
/// exactly the trailing entries new: position `i` is flagged iff it
/// lies at or past the previous count.
pub proof fn lemma_growth_marks_tail(
    prev: Seq<LogEntry>,
    prev_count: int,
    fetched: Seq<LogEntry>,
    i: int,
)
    requires
        fetched.len() > prev_count,
        0 <= i < fetched.len(),
    ensures
        spec_recon_flag(prev, prev_count, fetched, true, i) == (i >= prev_count),
{
}

proof fn count_of_tail_flags(s: Seq<LogEntry>, c: int, k: int)
    requires
        0 <= c,
        0 <= k <= s.len(),
        forall|i: int| 0 <= i < k ==> (#[trigger] s[i]).is_new == (i >= c),
    ensures
        crate::logs::spec_count_new(s, k) == if k <= c {
            0int
        } else {
            k - c
        },
    decreases k,
{
    if k > 0 {
        count_of_tail_flags(s, c, k - 1);
    }
}

/// The count form of the growth rule: when reconciliation flags
/// exactly the positions at or past the previous count, the number
/// of flagged entries is exactly the number of entries gained.
pub proof fn lemma_growth_new_count(marked: Seq<LogEntry>, prev_count: int)
    requires
        0 <= prev_count <= marked.len(),
        forall|i: int|
            0 <= i < marked.len() ==> (#[trigger] marked[i]).is_new == (i >= prev_count),
    ensures
        crate::logs::spec_count_new(marked, marked.len() as int) == marked.len() - prev_count,
{
    count_of_tail_flags(marked, prev_count, marked.len() as int);
}

/// When a fetch returns the previous count, an entry keeps its
/// highlight exactly when one stood at the same position before and
/// the message text is unchanged.
pub proof fn lemma_same_count_carries(
    prev: Seq<LogEntry>,
    prev_count: int,
    fetched: Seq<LogEntry>,
    i: int,
)
    requires
        fetched.len() == prev_count,
        0 <= i < fetched.len(),
    ensures
        spec_recon_flag(prev, prev_count, fetched, true, i) == (i < prev.len()
            && prev[i].is_new && fetched[i].message@ == prev[i].message@),
{
}

/// Recomputing the visible slice twice in succession with unchanged
/// inputs is the same as recomputing it once: the second pass moves
/// neither the offset nor the slice.
pub proof fn lemma_recompute_idempotent(s0: AppState, s1: AppState, s2: AppState, th: int)
    requires
        AppState::spec_recomputed(s0, s1, th),
        AppState::spec_recomputed(s1, s2, th),
    ensures
        s2.log_scroll_offset == s1.log_scroll_offset,
        s2.logs@ == s1.logs@,
{
    if s0.all_logs@.len() == 0 {
        assert(s2.logs@ =~= s1.logs@);
    }
}

/// The viewport invariant holds after any recomputation, whatever
/// state came before: the offset plus the visible slice stays inside
/// the full sequence.
pub proof fn lemma_recompute_viewport_ok(pre: AppState, post: AppState, th: int)
    requires
        AppState::spec_recomputed(pre, post, th),
    ensures
        post.spec_viewport_ok(),
{
}

/// A refresh cycle leaves the selection and expansion indices inside
/// the new log sequence: the refresh policies never point past its
/// end, whatever state came before.
pub proof fn lemma_indices_ok_after_refresh(pre: AppState, post: AppState, n: int)
    requires
        n == post.all_logs@.len(),
        post.selected_log_index == spec_selection_after_policy(pre, n),
        post.expanded_log_index == spec_expansion_after_policy(pre, n),
    ensures
        post.spec_indices_ok(),
{
}

/// Selection movement keeps the selection and expansion indices
/// inside the log sequence: any of the four movement commands,
/// applied to a state whose indices are in range, leaves them in
/// range.
pub proof fn lemma_indices_ok_after_moves(pre: AppState, post: AppState, th: int)
    requires
        pre.spec_indices_ok(),
        spec_move_up(pre, post, th) || spec_move_down(pre, post, th) || spec_jump_up(
            pre,
            post,
            th,
        ) || spec_jump_down(pre, post, th),
    ensures
        post.spec_indices_ok(),
{
}

/// The viewport height never drops below five rows, whatever the
/// terminal height.
pub proof fn lemma_visible_height_floor(h: int)
    ensures
        spec_visible_height(h) >= 5,
{
}

} // verus!
