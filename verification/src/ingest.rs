//! From raw fetched stream values to the log sequence the dashboard
//! shows: each (timestamp, line) pair becomes an entry with its
//! severity guessed and its timestamp rendered, and the entries are
//! ordered by their nanosecond timestamps, oldest first.

use vstd::prelude::*;
use vstd::seq_lib::group_to_multiset_ensures;

use crate::logs::{
    extract_log_level, format_timestamp, spec_formatted_ts, spec_level, LogEntry,
};
use crate::state::clone_entry;
use crate::text::{lower_of, parse_i64_chars, spec_parse_i64, str_chars};

verus! {

broadcast use group_to_multiset_ensures;

/// All the streams' (timestamp, line) pairs, one stream after
/// another.
pub open spec fn spec_flat_pairs(streams: Seq<Vec<(String, String)>>) -> Seq<(String, String)>
    decreases streams.len(),
{
    if streams.len() == 0 {
        Seq::empty()
    } else {
        spec_flat_pairs(streams.drop_last()) + streams.last()@
    }
}

/// The sort key a raw timestamp yields: its value as a decimal
/// nanosecond count, or zero when it does not parse.
pub open spec fn spec_ts_key(ts: Seq<char>) -> i64 {
    match spec_parse_i64(ts) {
        Option::Some(n) => n,
        Option::None => 0i64,
    }
}

/// The timestamp text shown for a raw timestamp: the rendered moment
/// where the text is a well-formed non-negative nanosecond count,
/// and the raw text otherwise.
pub open spec fn spec_ts_text_ok(shown: Seq<char>, ts: Seq<char>) -> bool {
    match spec_parse_i64(ts) {
        Option::Some(n) => {
            if n >= 0 {
                shown == spec_formatted_ts(n as int)
            } else {
                shown == ts
            }
        },
        Option::None => shown == ts,
    }
}

/// The keyed entry built from one raw (timestamp, line) pair.
pub open spec fn spec_entry_for(p: (String, String), e: (i64, LogEntry)) -> bool {
    &&& e.0 == spec_ts_key(p.0@)
    &&& e.1.message == p.1
    &&& e.1.level@ == spec_level(p.1@, lower_of(p.1@))
    &&& e.1.is_new == false
    &&& spec_ts_text_ok(e.1.timestamp@, p.0@)
}

/// A shown entry built from one raw pair, once the sort key is
/// dropped.
pub open spec fn spec_shown_entry_for(p: (String, String), e: LogEntry) -> bool {
    &&& e.message == p.1
    &&& e.level@ == spec_level(p.1@, lower_of(p.1@))
    &&& e.is_new == false
    &&& spec_ts_text_ok(e.timestamp@, p.0@)
}

/// The entry was built from one of the streams' raw pairs.
pub open spec fn spec_from_stream_pair(streams: Seq<Vec<(String, String)>>, e: LogEntry) -> bool {
    exists|j: int|
        0 <= j < spec_flat_pairs(streams).len() && spec_shown_entry_for(
            spec_flat_pairs(streams)[j],
            e,
        )
}

/// Builds one keyed entry per raw pair, in stream order.
pub fn collect_entries(streams: &Vec<Vec<(String, String)>>) -> (r: Vec<(i64, LogEntry)>)
    ensures
        r@.len() == spec_flat_pairs(streams@).len(),
        forall|i: int|
            0 <= i < r@.len() ==> spec_entry_for(
                spec_flat_pairs(streams@)[i],
                #[trigger] r@[i],
            ),
{
    let mut out: Vec<(i64, LogEntry)> = Vec::new();
    let sn = streams.len();
    let mut s: usize = 0;
    while s < sn
        invariant
            s <= sn,
            sn == streams@.len(),
            out@.len() == spec_flat_pairs(streams@.take(s as int)).len(),
            forall|i: int|
                0 <= i < out@.len() ==> spec_entry_for(
                    spec_flat_pairs(streams@.take(s as int))[i],
                    #[trigger] out@[i],
                ),
        decreases sn - s,
    {
        let ghost pre_flat = spec_flat_pairs(streams@.take(s as int));
        let stream = &streams[s];
        let pn = stream.len();
        let mut j: usize = 0;
        while j < pn
            invariant
                j <= pn,
                s < sn,
                sn == streams@.len(),
                pn == stream@.len(),
                stream@ == streams@[s as int]@,
                pre_flat == spec_flat_pairs(streams@.take(s as int)),
                out@.len() == pre_flat.len() + j,
                forall|i: int|
                    0 <= i < pre_flat.len() ==> spec_entry_for(pre_flat[i], #[trigger] out@[i]),
                forall|t: int|
                    0 <= t < j ==> spec_entry_for(
                        stream@[t],
                        #[trigger] out@[pre_flat.len() + t],
                    ),
            decreases pn - j,
        {
            let pair = &stream[j];
            let level = extract_log_level(pair.1.as_str());
            let tchars = str_chars(pair.0.as_str());
            let key: i64 = match parse_i64_chars(&tchars) {
                Some(n) => n,
                None => 0,
            };
            let shown = format_timestamp(pair.0.as_str());
            let entry = LogEntry {
                timestamp: shown,
                message: pair.1.clone(),
                level: level,
                is_new: false,
            };
            out.push((key, entry));
            j = j + 1;
        }
        proof {
            assert(streams@.take(s + 1).drop_last() =~= streams@.take(s as int));
            assert(streams@.take(s + 1).last() == streams@[s as int]);
            assert(spec_flat_pairs(streams@.take(s + 1)) == pre_flat + streams@[s as int]@);
            assert forall|i: int|
                0 <= i < out@.len() implies spec_entry_for(
                    spec_flat_pairs(streams@.take(s + 1))[i],
                    #[trigger] out@[i],
                ) by {
                if i < pre_flat.len() {
                    assert(spec_entry_for(pre_flat[i], out@[i]));
                    assert(spec_flat_pairs(streams@.take(s + 1))[i] == pre_flat[i]);
                } else {
                    let t = i - pre_flat.len();
                    assert(spec_entry_for(stream@[t], out@[pre_flat.len() + t]));
                    assert(spec_flat_pairs(streams@.take(s + 1))[i] == stream@[t]);
                }
            }
        }
        s = s + 1;
    }
    proof {
        assert(streams@.take(sn as int) =~= streams@);
    }
    out
}

/// Keys ascend through the sequence.
pub open spec fn spec_sorted_by_key(s: Seq<(i64, LogEntry)>) -> bool {
    forall|i: int, j: int|
        0 <= i < j < s.len() ==> (#[trigger] s[i]).0 <= (#[trigger] s[j]).0
}

/// Orders keyed entries by key, ascending. The result holds exactly
/// the given entries: nothing is dropped, added or altered. Of two
/// entries with equal keys the earlier one leaves first.
pub fn sort_entries(input: Vec<(i64, LogEntry)>) -> (r: Vec<(i64, LogEntry)>)
    ensures
        r@.len() == input@.len(),
        spec_sorted_by_key(r@),
        r@.to_multiset() == input@.to_multiset(),
{
    let ghost orig = input@;
    let mut rem = input;
    let mut out: Vec<(i64, LogEntry)> = Vec::new();
    proof {
        assert(out@.to_multiset().add(rem@.to_multiset()) =~= orig.to_multiset());
    }
    while rem.len() > 0
        invariant
            out@.len() + rem@.len() == orig.len(),
            out@.to_multiset().add(rem@.to_multiset()) == orig.to_multiset(),
            spec_sorted_by_key(out@),
            forall|a: int, b: int|
                0 <= a < out@.len() && 0 <= b < rem@.len() ==> (#[trigger] out@[a]).0
                    <= (#[trigger] rem@[b]).0,
        decreases rem@.len(),
    {
        let rn = rem.len();
        let mut m: usize = 0;
        let mut k: usize = 1;
        while k < rn
            invariant
                m < k <= rn,
                rn == rem@.len(),
                forall|t: int| 0 <= t < k ==> (#[trigger] rem@[t]).0 >= rem@[m as int].0,
            decreases rn - k,
        {
            if rem[k].0 < rem[m].0 {
                m = k;
            }
            k = k + 1;
        }
        let ghost rem_before = rem@;
        let ghost out_before = out@;
        let x = rem.remove(m);
        out.push(x);
        proof {
            assert(rem@.to_multiset() =~= rem_before.to_multiset().remove(x));
            assert(out@.to_multiset() =~= out_before.to_multiset().insert(x));
            assert(out@.to_multiset().add(rem@.to_multiset()) =~= orig.to_multiset());
        }
    }
    proof {
        assert(out@.to_multiset() =~= orig.to_multiset());
    }
    out
}

/// The full pipeline from raw fetched streams to the shown log
/// sequence: every pair becomes exactly one entry, the entries are
/// ordered by timestamp key, and each shown entry carries the
/// severity and rendered timestamp of the raw pair it came from.
pub fn logs_from_streams(streams: &Vec<Vec<(String, String)>>) -> (r: Vec<LogEntry>)
    ensures
        r@.len() == spec_flat_pairs(streams@).len(),
        forall|i: int| 0 <= i < r@.len() ==> spec_from_stream_pair(streams@, #[trigger] r@[i]),
{
    let keyed = collect_entries(streams);
    let ghost keyed_view = keyed@;
    let sorted = sort_entries(keyed);
    let mut out: Vec<LogEntry> = Vec::new();
    let n = sorted.len();
    let mut i: usize = 0;
    while i < n
        invariant
            i <= n,
            n == sorted@.len(),
            out@.len() == i,
            forall|t: int| 0 <= t < i ==> #[trigger] out@[t] == sorted@[t].1,
        decreases n - i,
    {
        let p = &sorted[i];
        let e = clone_entry(&p.1);
        out.push(e);
        i = i + 1;
    }
    proof {
        assert forall|t: int|
            0 <= t < out@.len() implies spec_from_stream_pair(streams@, #[trigger] out@[t]) by {
            assert(sorted@.contains(sorted@[t]));
            assert(sorted@.to_multiset().count(sorted@[t]) > 0);
            assert(keyed_view.to_multiset().count(sorted@[t]) > 0);
            assert(keyed_view.contains(sorted@[t]));
            let j = choose|j: int| 0 <= j < keyed_view.len() && keyed_view[j] == sorted@[t];
            assert(spec_entry_for(spec_flat_pairs(streams@)[j], keyed_view[j]));
            assert(spec_shown_entry_for(spec_flat_pairs(streams@)[j], out@[t]));
        }
    }
    out
}

} // verus!
