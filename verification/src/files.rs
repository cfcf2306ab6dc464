//! Line windowing for file reads.
//!
//! A read request may carry a 1-indexed starting line and a maximum line
//! count.  When either is present, the file's text is split into lines, the
//! requested window is selected, and the window is joined back with
//! newlines; with neither present the text is returned whole.

use vstd::prelude::*;

verus! {

/// Index of the first newline of `s` at or after `i`, or the length of `s`
/// if there is none.
pub open spec fn next_newline(s: Seq<char>, i: int) -> int
    decreases s.len() - i,
    when 0 <= i <= s.len()
{
    if i >= s.len() {
        s.len() as int
    } else if s[i] == '\n' {
        i
    } else {
        next_newline(s, i + 1)
    }
}

pub proof fn lemma_next_newline(s: Seq<char>, i: int)
    requires
        0 <= i <= s.len(),
    ensures
        i <= next_newline(s, i) <= s.len(),
    decreases s.len() - i,
{
    if i >= s.len() {
    } else if s[i] == '\n' {
    } else {
        lemma_next_newline(s, i + 1);
    }
}

/// A line with its trailing carriage return removed.
pub open spec fn strip_cr(line: Seq<char>) -> Seq<char> {
    if line.len() > 0 && line.last() == '\r' {
        line.drop_last()
    } else {
        line
    }
}

/// The lines of `s` from position `i` on: maximal newline-free runs, each
/// with a trailing carriage return removed; a final trailing newline opens
/// no further line.
pub open spec fn lines_from(s: Seq<char>, i: int) -> Seq<Seq<char>>
    decreases s.len() - i,
    when 0 <= i
{
    if i >= s.len() {
        Seq::empty()
    } else {
        let j0 = next_newline(s, i);
        let j = if i <= j0 && j0 < s.len() {
            j0
        } else {
            s.len() as int
        };
        if j < s.len() {
            seq![strip_cr(s.subrange(i, j))] + lines_from(s, j + 1)
        } else {
            seq![strip_cr(s.subrange(i, j))]
        }
    }
}

/// Unfolds one line off the front: from any in-range position, the lines are
/// the first line followed by the lines after its newline.
pub proof fn lemma_lines_from_step(s: Seq<char>, i: int)
    requires
        0 <= i < s.len(),
    ensures
        lines_from(s, i) == seq![strip_cr(s.subrange(i, next_newline(s, i)))] + lines_from(
            s,
            next_newline(s, i) + 1,
        ),
{
    lemma_next_newline(s, i);
    let j = next_newline(s, i);
    if j < s.len() {
    } else {
        assert(lines_from(s, j + 1) =~= Seq::<Seq<char>>::empty());
        assert(seq![strip_cr(s.subrange(i, j))] + lines_from(s, j + 1) =~= seq![strip_cr(
            s.subrange(i, j),
        )]);
    }
}

/// The lines of `s`.
pub open spec fn spec_lines(s: Seq<char>) -> Seq<Seq<char>> {
    lines_from(s, 0)
}

/// Lines joined with single newlines.
pub open spec fn join_lines(ls: Seq<Seq<char>>) -> Seq<char>
    decreases ls.len(),
{
    if ls.len() == 0 {
        Seq::empty()
    } else if ls.len() == 1 {
        ls[0]
    } else {
        ls[0] + seq!['\n'] + join_lines(ls.drop_first())
    }
}

proof fn lemma_join_lines_push(ls: Seq<Seq<char>>, l: Seq<char>)
    ensures
        join_lines(ls.push(l)) == if ls.len() == 0 {
            l
        } else {
            join_lines(ls) + seq!['\n'] + l
        },
    decreases ls.len(),
{
    if ls.len() == 0 {
        assert(ls.push(l) =~= seq![l]);
    } else if ls.len() == 1 {
        assert(ls.push(l).drop_first() =~= seq![l]);
        assert(ls.push(l)[0] == ls[0]);
        assert(join_lines(seq![l]) == l);
        assert(join_lines(ls) == ls[0]);
    } else {
        assert(ls.push(l).drop_first() =~= ls.drop_first().push(l));
        lemma_join_lines_push(ls.drop_first(), l);
        assert((ls[0] + seq!['\n'] + (join_lines(ls.drop_first()) + seq!['\n'] + l)) =~= ((ls[0]
            + seq!['\n'] + join_lines(ls.drop_first())) + seq!['\n'] + l));
    }
}

/// The window of `s` selected by a 1-indexed starting line and a maximum
/// line count, joined back with newlines; all of `s` when neither is given.
pub open spec fn spec_window(s: Seq<char>, line: Option<u32>, limit: Option<u32>) -> Seq<char> {
    if line is None && limit is None {
        s
    } else {
        let ls = spec_lines(s);
        let start = match line {
            Some(v) => if v > 0 {
                v - 1
            } else {
                0
            },
            None => 0,
        };
        let lo = if start <= ls.len() {
            start as int
        } else {
            ls.len() as int
        };
        let hi = match limit {
            Some(c) => if lo + c <= ls.len() {
                lo + c
            } else {
                ls.len() as int
            },
            None => ls.len() as int,
        };
        join_lines(ls.subrange(lo, hi))
    }
}

/// Splits `s` into its lines.
fn split_lines(s: &str) -> (r: Vec<String>)
    ensures
        r@.len() == spec_lines(s@).len(),
        forall|i: int| 0 <= i < r@.len() ==> r@[i]@ == spec_lines(s@)[i],
{
    let n = s.unicode_len();
    let mut out: Vec<String> = Vec::new();
    let mut i: usize = 0;
    proof {
        assert(lines_from(s@, 0) =~= spec_lines(s@).skip(0));
    }
    while i < n
        invariant
            i <= n,
            n == s@.len(),
            lines_from(s@, i as int) == spec_lines(s@).skip(out@.len() as int),
            out@.len() <= spec_lines(s@).len(),
            forall|k: int| 0 <= k < out@.len() ==> out@[k]@ == spec_lines(s@)[k],
        decreases n - i,
    {
        let mut j = i;
        while j < n && s.get_char(j) != '\n'
            invariant
                i <= j <= n,
                n == s@.len(),
                next_newline(s@, i as int) == next_newline(s@, j as int),
            decreases n - j,
        {
            j += 1;
        }
        proof {
            assert(next_newline(s@, j as int) == j as int);
        }
        let end = if j > i && s.get_char(j - 1) == '\r' {
            j - 1
        } else {
            j
        };
        let piece = s.substring_char(i, end).to_owned();
        proof {
            if j > i && s@[j - 1] == '\r' {
                assert(s@.subrange(i as int, j as int).last() == s@[j - 1]);
                assert(s@.subrange(i as int, j as int).drop_last() =~= s@.subrange(
                    i as int,
                    j - 1,
                ));
            }
            assert(piece@ == strip_cr(s@.subrange(i as int, j as int)));
        }
        let ghost prev_len = out@.len() as int;
        out.push(piece);
        proof {
            let ls = spec_lines(s@);
            lemma_lines_from_step(s@, i as int);
            assert(lines_from(s@, i as int).len() >= 1);
            assert(prev_len < ls.len());
            assert(ls.skip(prev_len)[0] == ls[prev_len]);
            assert(lines_from(s@, j + 1) =~= ls.skip(prev_len + 1)) by {
                assert(forall|t: int|
                    0 <= t < ls.len() - prev_len - 1 ==> #[trigger] ls.skip(prev_len + 1)[t]
                        == ls.skip(prev_len)[t + 1]);
            }
        }
        if j == n {
            proof {
                assert(lines_from(s@, j + 1) == Seq::<Seq<char>>::empty());
                assert(spec_lines(s@).skip(out@.len() as int).len() == 0);
            }
            return out;
        }
        i = j + 1;
    }
    proof {
        assert(lines_from(s@, i as int) == Seq::<Seq<char>>::empty());
        assert(spec_lines(s@).skip(out@.len() as int).len() == 0);
    }
    out
}

/// Selects the requested line window of `content`.  With no starting line
/// and no count, the content comes back unchanged.
pub fn window_lines(content: &str, line: Option<u32>, limit: Option<u32>) -> (r: String)
    ensures
        r@ == spec_window(content@, line, limit),
{
    if line.is_none() && limit.is_none() {
        return content.to_owned();
    }
    let lines_vec = split_lines(content);
    let ghost ls = spec_lines(content@);
    let n = lines_vec.len();
    let start: usize = match line {
        Some(v) => if v > 0 {
            (v - 1) as usize
        } else {
            0
        },
        None => 0,
    };
    let lo = if start <= n {
        start
    } else {
        n
    };
    let hi: usize = match limit {
        Some(c) => {
            let c = c as usize;
            if c <= n - lo {
                lo + c
            } else {
                n
            }
        },
        None => n,
    };
    let mut out = String::new();
    let mut k = lo;
    proof {
        assert(ls.subrange(lo as int, lo as int) =~= Seq::<Seq<char>>::empty());
    }
    while k < hi
        invariant
            lo <= k <= hi <= n,
            n == ls.len(),
            ls == spec_lines(content@),
            lines_vec@.len() == n,
            forall|t: int| 0 <= t < n ==> lines_vec@[t]@ == ls[t],
            out@ == join_lines(ls.subrange(lo as int, k as int)),
        decreases hi - k,
    {
        if k > lo {
            out.append("\n");
        }
        out.append(lines_vec[k].as_str());
        proof {
            reveal_strlit("\n");
            assert("\n"@ =~= seq!['\n']);
            lemma_join_lines_push(ls.subrange(lo as int, k as int), ls[k as int]);
            assert(ls.subrange(lo as int, k as int).push(ls[k as int]) =~= ls.subrange(
                lo as int,
                k + 1,
            ));
        }
        k += 1;
    }
    out
}

} // verus!
