//! The application-level transform applied to bytes drained from a socket:
//! newline-delimited reversal. The inbound bytes are split on line
//! separators, each line's byte sequence is reversed, and a single trailing
//! separator is re-appended to every line (also to a final line that arrived
//! without one).

use vstd::prelude::*;

verus! {

/// The byte that separates application-level lines.
pub const LINE_SEPARATOR: u8 = 10;

/// A byte sequence reversed.
pub open spec fn rev_bytes(s: Seq<u8>) -> Seq<u8> {
    Seq::new(s.len(), |i: int| s[s.len() - 1 - i])
}

/// The index of the first line separator in `s`, or `s.len()` if there is
/// none.
pub open spec fn first_sep(s: Seq<u8>) -> int
    decreases s.len(),
{
    if s.len() == 0 {
        0
    } else if s[0] == LINE_SEPARATOR {
        0
    } else {
        1 + first_sep(s.subrange(1, s.len() as int))
    }
}

/// `first_sep` lands in bounds, on a separator if there is one, and nothing
/// before it is a separator.
pub proof fn lemma_first_sep(s: Seq<u8>)
    ensures
        0 <= first_sep(s) <= s.len(),
        first_sep(s) < s.len() ==> s[first_sep(s)] == LINE_SEPARATOR,
        forall|i: int| 0 <= i < first_sep(s) ==> s[i] != LINE_SEPARATOR,
    decreases s.len(),
{
    if s.len() == 0 {
    } else if s[0] == LINE_SEPARATOR {
    } else {
        let sub = s.subrange(1, s.len() as int);
        lemma_first_sep(sub);
        assert forall|i: int| 0 <= i < first_sep(s) implies s[i] != LINE_SEPARATOR by {
            if i >= 1 {
                assert(sub[i - 1] == s[i]);
            }
        }
    }
}

/// The position with the properties of `lemma_first_sep` is unique: any `n`
/// preceded by no separator and holding one (or the end) is `first_sep`.
pub proof fn lemma_first_sep_is(s: Seq<u8>, n: int)
    requires
        0 <= n <= s.len(),
        forall|i: int| 0 <= i < n ==> s[i] != LINE_SEPARATOR,
        n < s.len() ==> s[n] == LINE_SEPARATOR,
    ensures
        first_sep(s) == n,
    decreases n,
{
    if s.len() == 0 {
    } else if n == 0 {
    } else {
        let sub = s.subrange(1, s.len() as int);
        assert forall|i: int| 0 <= i < n - 1 implies sub[i] != LINE_SEPARATOR by {
            assert(sub[i] == s[i + 1]);
        }
        assert(n - 1 < sub.len() ==> sub[n - 1] == s[n]);
        lemma_first_sep_is(sub, n - 1);
    }
}

/// The newline-delimited reversal of `s`: every line (a maximal run of
/// non-separator bytes) appears reversed, followed by exactly one separator,
/// in the order the lines arrived. The empty input maps to the empty output.
pub open spec fn reverse_lines_spec(s: Seq<u8>) -> Seq<u8>
    decreases s.len(),
    via reverse_lines_spec_dec
{
    if s.len() == 0 {
        Seq::empty()
    } else {
        let n = first_sep(s);
        let line = s.subrange(0, n);
        let rest = if n < s.len() {
            s.subrange(n + 1, s.len() as int)
        } else {
            Seq::<u8>::empty()
        };
        rev_bytes(line) + seq![LINE_SEPARATOR] + reverse_lines_spec(rest)
    }
}

#[via_fn]
proof fn reverse_lines_spec_dec(s: Seq<u8>) {
    lemma_first_sep(s);
}

/// Unfolding rule for the transform at a known line boundary: if nothing in
/// `s` before `n` is a separator and `n` is one (or the end of `s`), the
/// transform of `s` is the first `n` bytes reversed, one separator, then the
/// transform of what follows that separator.
pub proof fn lemma_reverse_lines_step(s: Seq<u8>, n: int)
    requires
        s.len() > 0,
        0 <= n <= s.len(),
        forall|i: int| 0 <= i < n ==> s[i] != LINE_SEPARATOR,
        n < s.len() ==> s[n] == LINE_SEPARATOR,
    ensures
        reverse_lines_spec(s) == rev_bytes(s.subrange(0, n)) + seq![LINE_SEPARATOR]
            + reverse_lines_spec(
            if n < s.len() {
                s.subrange(n + 1, s.len() as int)
            } else {
                Seq::<u8>::empty()
            },
        ),
{
    lemma_first_sep_is(s, n);
}

/// A single line without separator is reversed whole, with the separator
/// re-appended: the transform of `line + "\n"` is `reverse(line) + "\n"`.
pub proof fn lemma_reverse_single_line(line: Seq<u8>)
    requires
        forall|i: int| 0 <= i < line.len() ==> line[i] != LINE_SEPARATOR,
    ensures
        reverse_lines_spec(line + seq![LINE_SEPARATOR]) == rev_bytes(line) + seq![LINE_SEPARATOR],
{
    let s = line + seq![LINE_SEPARATOR];
    assert forall|i: int| 0 <= i < line.len() implies s[i] != LINE_SEPARATOR by {
        assert(s[i] == line[i]);
    }
    lemma_reverse_lines_step(s, line.len() as int);
    assert(s.subrange(0, line.len() as int) =~= line);
    assert(s.subrange(line.len() as int + 1, s.len() as int) =~= Seq::<u8>::empty());
    assert(reverse_lines_spec(Seq::<u8>::empty()) =~= Seq::<u8>::empty());
    assert(rev_bytes(line) + seq![LINE_SEPARATOR] + Seq::<u8>::empty() =~= rev_bytes(line)
        + seq![LINE_SEPARATOR]);
}

/// The transform of a non-empty input is non-empty (it ends in a separator).
pub proof fn lemma_reverse_lines_nonempty(s: Seq<u8>)
    requires
        s.len() > 0,
    ensures
        reverse_lines_spec(s).len() > 0,
{
}

/// Apply the newline-delimited reversal transform to `data`.
pub fn reverse_lines(data: &Vec<u8>) -> (out: Vec<u8>)
    ensures
        out@ == reverse_lines_spec(data@),
{
    let mut out: Vec<u8> = Vec::new();
    let mut pos: usize = 0;
    proof {
        assert(data@.subrange(0, data@.len() as int) =~= data@);
        assert(Seq::<u8>::empty() + reverse_lines_spec(data@) =~= reverse_lines_spec(data@));
    }
    while pos < data.len()
        invariant
            pos <= data@.len(),
            reverse_lines_spec(data@) == out@ + reverse_lines_spec(
                data@.subrange(pos as int, data@.len() as int),
            ),
        decreases data@.len() - pos,
    {
        let ghost pos0 = pos as int;
        // find the end of the current line
        let mut end: usize = pos;
        while end < data.len() && data[end] != LINE_SEPARATOR
            invariant
                pos == pos0,
                pos0 <= end <= data@.len(),
                forall|i: int| pos0 <= i < end ==> data@[i] != LINE_SEPARATOR,
            decreases data@.len() - end,
        {
            end += 1;
        }
        // append the line reversed, then one separator
        let ghost out0 = out@;
        let mut k: usize = end;
        while k > pos
            invariant
                pos == pos0,
                pos0 <= k <= end <= data@.len(),
                out@ == out0 + Seq::new((end - k) as nat, |j: int| data@[end - 1 - j]),
            decreases k - pos0,
        {
            k -= 1;
            let b = data[k];
            out.push(b);
            proof {
                assert(out@ =~= out0 + Seq::new(
                    (end - k) as nat,
                    |j: int| data@[end - 1 - j],
                ));
            }
        }
        out.push(LINE_SEPARATOR);
        proof {
            let suffix = data@.subrange(pos0, data@.len() as int);
            let n = end - pos0;
            assert forall|i: int| 0 <= i < n implies suffix[i] != LINE_SEPARATOR by {
                assert(suffix[i] == data@[pos0 + i]);
            }
            assert(n < suffix.len() ==> suffix[n] == data@[end as int]);
            lemma_reverse_lines_step(suffix, n);
            assert(rev_bytes(suffix.subrange(0, n)) =~= Seq::new(
                (end - pos0) as nat,
                |j: int| data@[end - 1 - j],
            ));
            let rest = if n < suffix.len() {
                suffix.subrange(n + 1, suffix.len() as int)
            } else {
                Seq::<u8>::empty()
            };
            if n < suffix.len() {
                assert(rest =~= data@.subrange(end + 1, data@.len() as int));
            } else {
                assert(rest =~= data@.subrange(data@.len() as int, data@.len() as int));
            }
            assert(out@ =~= out0 + rev_bytes(suffix.subrange(0, n)) + seq![LINE_SEPARATOR]);
            assert(out0 + rev_bytes(suffix.subrange(0, n)) + seq![LINE_SEPARATOR]
                + reverse_lines_spec(rest) =~= out0 + reverse_lines_spec(suffix));
        }
        pos = if end < data.len() {
            end + 1
        } else {
            end
        };
    }
    proof {
        assert(data@.subrange(data@.len() as int, data@.len() as int) =~= Seq::<u8>::empty());
        assert(out@ + reverse_lines_spec(Seq::<u8>::empty()) =~= out@);
    }
    out
}

} // verus!
