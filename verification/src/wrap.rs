//! How a log message is fitted to the width of the log panel: a
//! collapsed entry is cut off with an ellipsis, an expanded entry is
//! wrapped across lines, breaking at a space where one falls in the
//! second half of the line.

use vstd::prelude::*;

verus! {

/// Cutting off a collapsed message: messages longer than the column
/// lose their tail for an ellipsis, but only when the column is wide
/// enough to make that worthwhile; the flag says whether anything was
/// cut.
pub open spec fn spec_truncated(msg: Seq<char>, w: int) -> (Seq<char>, bool) {
    if msg.len() > w && w > 20 {
        (msg.take(w - 3) + "..."@, true)
    } else {
        (msg, false)
    }
}

/// Cuts a collapsed message to the column width; see
/// `spec_truncated`.
pub fn truncate_message(msg: &str, width: usize) -> (r: (String, bool))
    ensures
        r.0@ == spec_truncated(msg@, width as int).0,
        r.1 == spec_truncated(msg@, width as int).1,
{
    let l = msg.unicode_len();
    if l > width && width > 20 {
        let head = msg.substring_char(0, width - 3);
        let mut s = String::from_str(head);
        s.append("...");
        proof {
            assert(head@ =~= msg@.take(width - 3));
        }
        (s, true)
    } else {
        (String::from_str(msg), false)
    }
}

/// The position of the last space before `from`, or -1 when there is
/// none.
pub open spec fn spec_rfind_space(s: Seq<char>, from: int) -> int
    decreases from,
{
    if from <= 0 {
        -1
    } else if s[from - 1] == ' ' {
        from - 1
    } else {
        spec_rfind_space(s, from - 1)
    }
}

/// Where a too-long line breaks: at the last space within the width,
/// when that space falls past the middle of the line; at the full
/// width otherwise.
pub open spec fn spec_break_point(s: Seq<char>, w: int) -> int {
    let p = spec_rfind_space(s, w);
    if p > w / 2 {
        p
    } else {
        w
    }
}

/// The text with its leading spaces removed.
pub open spec fn spec_trim_spaces(s: Seq<char>) -> Seq<char>
    decreases s.len(),
{
    if s.len() > 0 && s[0] == ' ' {
        spec_trim_spaces(s.drop_first())
    } else {
        s
    }
}

pub proof fn lemma_trim_spaces_len(s: Seq<char>)
    ensures
        spec_trim_spaces(s).len() <= s.len(),
    decreases s.len(),
{
    if s.len() > 0 && s[0] == ' ' {
        lemma_trim_spaces_len(s.drop_first());
    }
}

/// An expanded message wrapped to the column width: whole lines are
/// taken as they are; a longer rest breaks as `spec_break_point`
/// says, and the next line starts after any spaces.
pub open spec fn spec_wrapped(s: Seq<char>, w: int) -> Seq<Seq<char>>
    recommends
        w >= 1,
    decreases s.len(),
    when w >= 1
    via spec_wrapped_decreases
{
    if s.len() == 0 {
        Seq::empty()
    } else if s.len() <= w {
        seq![s]
    } else {
        let b = spec_break_point(s, w);
        seq![s.take(b)] + spec_wrapped(spec_trim_spaces(s.skip(b)), w)
    }
}

#[via_fn]
proof fn spec_wrapped_decreases(s: Seq<char>, w: int) {
    if s.len() > w {
        let b = spec_break_point(s, w);
        lemma_rfind_space_range(s, w);
        lemma_trim_spaces_len(s.skip(b));
    }
}

pub proof fn lemma_rfind_space_range(s: Seq<char>, from: int)
    requires
        0 <= from,
    ensures
        -1 <= spec_rfind_space(s, from),
        from >= 1 ==> spec_rfind_space(s, from) < from,
    decreases from,
{
    if from > 0 && s[from - 1] != ' ' {
        lemma_rfind_space_range(s, from - 1);
    }
}

/// Wraps an expanded message to the column width; see
/// `spec_wrapped`. One line per element, in order.
pub fn wrap_message(msg: &str, width: usize) -> (r: Vec<String>)
    requires
        width >= 1,
    ensures
        r@.len() == spec_wrapped(msg@, width as int).len(),
        forall|i: int|
            0 <= i < r@.len() ==> (#[trigger] r@[i])@ == spec_wrapped(msg@, width as int)[i],
{
    let chars = crate::text::str_chars(msg);
    let len = chars.len();
    let mut out: Vec<String> = Vec::new();
    let mut pos: usize = 0;
    proof {
        assert(msg@.skip(0) =~= msg@);
    }
    while pos < len
        invariant
            pos <= len,
            len == msg@.len(),
            chars@ == msg@,
            width >= 1,
            spec_wrapped(msg@, width as int) =~= out_views(out@) + spec_wrapped(
                msg@.skip(pos as int),
                width as int,
            ),
            out@.len() <= pos,
        decreases len - pos,
    {
        let ghost rest = msg@.skip(pos as int);
        let ghost out_pre = out@;
        let rem_len = len - pos;
        if rem_len <= width {
            let piece = msg.substring_char(pos, len);
            let line = String::from_str(piece);
            out.push(line);
            proof {
                assert(line@ =~= rest);
                assert(spec_wrapped(rest, width as int) == seq![rest]);
                assert(msg@.skip(len as int) =~= Seq::<char>::empty());
                assert(spec_wrapped(msg@.skip(len as int), width as int) =~= Seq::<
                    Seq<char>,
                >::empty());
                assert(out_views(out@) =~= out_views(out_pre).push(rest));
                assert(out_views(out_pre) + seq![rest] =~= out_views(out@));
            }
            pos = len;
        } else {
            // the last space within the width, scanning backwards
            let mut k: usize = width;
            let mut space_rel: usize = 0;
            let mut found = false;
            while k > 0 && !found
                invariant
                    k <= width,
                    pos + width <= len,
                    len == msg@.len(),
                    chars@ == msg@,
                    rest == msg@.skip(pos as int),
                    pos < len,
                    if found {
                        k >= 1 && spec_rfind_space(rest, width as int) == k - 1 && space_rel == k
                            - 1
                    } else {
                        spec_rfind_space(rest, width as int) == spec_rfind_space(rest, k as int)
                    },
                decreases k + if found {
                    0int
                } else {
                    1int
                },
            {
                if chars[pos + k - 1] == ' ' {
                    proof {
                        assert(rest[k - 1] == msg@[pos + k - 1]);
                    }
                    space_rel = k - 1;
                    found = true;
                } else {
                    proof {
                        assert(rest[k - 1] == msg@[pos + k - 1]);
                    }
                    k = k - 1;
                }
            }
            let b: usize = if found && space_rel > width / 2 {
                space_rel
            } else {
                width
            };
            proof {
                lemma_rfind_space_range(rest, width as int);
                assert(b as int == spec_break_point(rest, width as int));
            }
            let piece = msg.substring_char(pos, pos + b);
            let line = String::from_str(piece);
            out.push(line);
            proof {
                assert(line@ =~= rest.take(b as int));
            }
            pos = pos + b;
            let ghost pos_b = pos as int;
            proof {
                assert(rest.skip(b as int) =~= msg@.skip(pos as int));
            }
            while pos < len && chars[pos] == ' '
                invariant
                    pos_b <= pos <= len,
                    len == msg@.len(),
                    chars@ == msg@,
                    spec_trim_spaces(rest.skip(b as int)) == spec_trim_spaces(
                        msg@.skip(pos as int),
                    ),
                decreases len - pos,
            {
                proof {
                    assert(msg@.skip(pos as int).drop_first() =~= msg@.skip(pos + 1));
                    assert(msg@.skip(pos as int)[0] == msg@[pos as int]);
                }
                pos = pos + 1;
            }
            proof {
                if pos < len {
                    assert(msg@.skip(pos as int)[0] == msg@[pos as int]);
                }
                assert(spec_trim_spaces(msg@.skip(pos as int)) == msg@.skip(pos as int));
                assert(spec_wrapped(rest, width as int) == seq![rest.take(b as int)]
                    + spec_wrapped(msg@.skip(pos as int), width as int));
                assert(out_views(out@) =~= out_views(out_pre).push(rest.take(b as int)));
            }
        }
    }
    proof {
        assert(msg@.skip(len as int) =~= Seq::<char>::empty());
        assert(spec_wrapped(msg@.skip(len as int), width as int) =~= Seq::<Seq<char>>::empty());
        assert(spec_wrapped(msg@, width as int) =~= out_views(out@));
        assert forall|i: int|
            0 <= i < out@.len() implies (#[trigger] out@[i])@ == spec_wrapped(
                msg@,
                width as int,
            )[i] by {
            assert(out_views(out@)[i] == out@[i]@);
        }
    }
    out
}

/// The views of a sequence of strings.
pub open spec fn out_views(v: Seq<String>) -> Seq<Seq<char>> {
    v.map_values(|s: String| s@)
}

} // verus!
