//! Splitting an input line into whitespace-separated tokens.
//!
//! A token is a maximal run of non-whitespace characters; runs of
//! whitespace (space, tab, carriage return, line feed) separate tokens and
//! are otherwise ignored, so leading and trailing whitespace never matters.

use vstd::prelude::*;

verus! {

/// Whether a character separates tokens.
pub open spec fn is_space_char(c: char) -> bool {
    c == ' ' || c == '\t' || c == '\n' || c == '\r'
}

/// The index of the first whitespace character of `s` (the length of `s` if
/// there is none).
pub open spec fn first_space(s: Seq<char>) -> int
    decreases s.len(),
{
    if s.len() == 0 {
        0
    } else if is_space_char(s[0]) {
        0
    } else {
        1 + first_space(s.skip(1))
    }
}

/// `first_space` points at the first whitespace character: everything
/// before it is not whitespace, and it is either in range and whitespace or
/// just past the end.
pub proof fn lemma_first_space_bounds(s: Seq<char>)
    ensures
        0 <= first_space(s) <= s.len(),
        forall|k: int| 0 <= k < first_space(s) ==> !is_space_char(#[trigger] s[k]),
        first_space(s) < s.len() ==> is_space_char(s[first_space(s)]),
    decreases s.len(),
{
    if s.len() == 0 {
    } else if is_space_char(s[0]) {
    } else {
        lemma_first_space_bounds(s.skip(1));
        let fs = first_space(s);
        assert forall|k: int| 0 <= k < fs implies !is_space_char(#[trigger] s[k]) by {
            if k > 0 {
                assert(s.skip(1)[k - 1] == s[k]);
            }
        }
        if fs < s.len() {
            assert(s.skip(1)[fs - 1] == s[fs]);
        }
    }
}

/// Any index with the properties of `first_space` is `first_space`.
pub proof fn lemma_first_space_is(s: Seq<char>, k: int)
    requires
        0 <= k <= s.len(),
        forall|j: int| 0 <= j < k ==> !is_space_char(#[trigger] s[j]),
        k < s.len() ==> is_space_char(s[k]),
    ensures
        first_space(s) == k,
    decreases s.len(),
{
    if k == 0 {
    } else {
        assert(!is_space_char(s[0]));
        assert forall|j: int| 0 <= j < k - 1 implies !is_space_char(#[trigger] s.skip(1)[j]) by {
            assert(s.skip(1)[j] == s[j + 1]);
        }
        if k - 1 < s.skip(1).len() {
            assert(s.skip(1)[k - 1] == s[k]);
        }
        lemma_first_space_is(s.skip(1), k - 1);
    }
}

/// The tokens of `s`: maximal runs of non-whitespace characters, in order.
pub open spec fn spec_tokens(s: Seq<char>) -> Seq<Seq<char>>
    decreases s.len(),
    via spec_tokens_decreases
{
    if s.len() == 0 {
        Seq::empty()
    } else if is_space_char(s[0]) {
        spec_tokens(s.skip(1))
    } else {
        seq![s.take(first_space(s))] + spec_tokens(s.skip(first_space(s)))
    }
}

#[via_fn]
proof fn spec_tokens_decreases(s: Seq<char>) {
    lemma_first_space_bounds(s);
}

/// A line of whitespace alone has no tokens.
pub proof fn lemma_all_space_no_tokens(s: Seq<char>)
    requires
        forall|i: int| 0 <= i < s.len() ==> is_space_char(#[trigger] s[i]),
    ensures
        spec_tokens(s) == Seq::<Seq<char>>::empty(),
    decreases s.len(),
{
    if s.len() > 0 {
        assert(is_space_char(s[0]));
        assert forall|i: int| 0 <= i < s.skip(1).len() implies is_space_char(
            #[trigger] s.skip(1)[i],
        ) by {
            assert(s.skip(1)[i] == s[i + 1]);
        }
        lemma_all_space_no_tokens(s.skip(1));
    }
}

/// Splits a line into its whitespace-separated tokens.
pub fn tokenize(line: &str) -> (toks: Vec<String>)
    ensures
        toks.deep_view() == spec_tokens(line@),
{
    let n = line.unicode_len();
    let mut toks: Vec<String> = Vec::new();
    let mut i: usize = 0;
    proof {
        assert(line@.skip(0) =~= line@);
        assert(toks.deep_view() =~= Seq::<Seq<char>>::empty());
        assert(toks.deep_view() + spec_tokens(line@) =~= spec_tokens(line@));
    }
    while i < n
        invariant
            0 <= i <= n,
            n == line@.len(),
            toks.deep_view() + spec_tokens(line@.skip(i as int)) == spec_tokens(line@),
        decreases n - i,
    {
        let ghost rest = line@.skip(i as int);
        let c = line.get_char(i);
        assert(rest[0] == line@[i as int]);
        if c == ' ' || c == '\t' || c == '\n' || c == '\r' {
            proof {
                assert(rest.skip(1) =~= line@.skip(i + 1));
            }
            i = i + 1;
        } else {
            let start = i;
            let mut j = i + 1;
            while j < n && !(line.get_char(j) == ' ' || line.get_char(j) == '\t' || line.get_char(
                j,
            ) == '\n' || line.get_char(j) == '\r')
                invariant
                    start < j <= n,
                    n == line@.len(),
                    forall|k: int| start <= k < j ==> !is_space_char(#[trigger] line@[k]),
                decreases n - j,
            {
                j = j + 1;
            }
            proof {
                assert forall|q: int| 0 <= q < j - start implies !is_space_char(
                    #[trigger] rest[q],
                ) by {
                    assert(rest[q] == line@[i + q]);
                }
                if j < n {
                    assert(rest[j - start] == line@[j as int]);
                }
                lemma_first_space_is(rest, j - start);
                assert(rest.take(j - start) =~= line@.subrange(start as int, j as int));
                assert(rest.skip(j - start) =~= line@.skip(j as int));
            }
            let tok = line.substring_char(start, j).to_owned();
            let ghost old_dv = toks.deep_view();
            toks.push(tok);
            proof {
                assert(toks.deep_view() =~= old_dv.push(line@.subrange(
                    start as int,
                    j as int,
                )));
                assert(old_dv.push(line@.subrange(start as int, j as int)) =~= old_dv + seq![
                    line@.subrange(start as int, j as int),
                ]);
                assert(spec_tokens(rest) == seq![line@.subrange(start as int, j as int)]
                    + spec_tokens(line@.skip(j as int)));
                assert(toks.deep_view() + spec_tokens(line@.skip(j as int)) =~= old_dv
                    + spec_tokens(rest));
            }
            i = j;
        }
    }
    proof {
        assert(line@.skip(n as int) =~= Seq::<char>::empty());
        assert(toks.deep_view() + Seq::<Seq<char>>::empty() =~= toks.deep_view());
    }
    toks
}

} // verus!
