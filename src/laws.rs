//! Properties of the branching profile that hold for every input.

use vstd::prelude::*;
use crate::language::{line_kinds, one_if, Language};
use crate::profile::{
    bump, is_skipped, profile, profile_of, records_depth, step,
};
use crate::sanitize::sanitize;
use crate::text::{lines, trim};

verus! {

/// The sum of the histogram's values at depths `0..n`.
pub open spec fn histogram_total(h: Map<int, nat>, n: int) -> nat
    decreases n,
{
    if n <= 0 {
        0
    } else {
        histogram_total(h, n - 1) + if h.contains_key(n - 1) {
            h[n - 1]
        } else {
            0nat
        }
    }
}

/// On this raw line, the conditionals counted are exactly the histogram
/// entries made: none, or one conditional that opens a scope.
pub open spec fn counts_as_recorded(lang: Language, raw: Seq<char>) -> bool {
    let t = trim(raw);
    !is_skipped(t) ==> {
        let cl = sanitize(t);
        let k = line_kinds(lang, cl);
        k.conditionals == one_if(records_depth(k, cl))
    }
}

/// Every line's conditionals are counted as they are recorded.
pub open spec fn all_counted_as_recorded(lang: Language, ls: Seq<Seq<char>>) -> bool {
    forall|i: int| 0 <= i < ls.len() ==> counts_as_recorded(lang, #[trigger] ls[i])
}

/// After `n` lines the brace depth is at most `n`, and every histogram depth
/// lies in `1..=n`.
pub proof fn lemma_profile_depth_bounds(lang: Language, ls: Seq<Seq<char>>)
    ensures
        profile_of(lang, ls).depth <= ls.len(),
        profile_of(lang, ls).max_nesting <= ls.len(),
        forall|d: int| #[trigger]
            profile_of(lang, ls).histogram.contains_key(d) ==> 1 <= d <= ls.len(),
    decreases ls.len(),
{
    if ls.len() > 0 {
        lemma_profile_depth_bounds(lang, ls.drop_last());
    }
}

proof fn lemma_total_bump(h: Map<int, nat>, d: int, n: int)
    requires
        0 <= d < n,
    ensures
        histogram_total(bump(h, d), n) == histogram_total(h, n) + 1,
    decreases n,
{
    if n - 1 > d {
        lemma_total_bump(h, d, n - 1);
    } else {
        assert forall|e: int| 0 <= e < n - 1 implies #[trigger] agree_at(h, bump(h, d), e) by {}
        lemma_total_same_below(h, bump(h, d), n - 1);
    }
}

/// `h1` and `h2` agree at depth `d`.
pub open spec fn agree_at(h1: Map<int, nat>, h2: Map<int, nat>, d: int) -> bool {
    h1.contains_key(d) == h2.contains_key(d) && (h1.contains_key(d) ==> h1[d] == h2[d])
}

proof fn lemma_total_same_below(h1: Map<int, nat>, h2: Map<int, nat>, n: int)
    requires
        forall|d: int| 0 <= d < n ==> #[trigger] agree_at(h1, h2, d),
    ensures
        histogram_total(h1, n) == histogram_total(h2, n),
    decreases n,
{
    if n > 0 {
        assert(agree_at(h1, h2, n - 1));
        lemma_total_same_below(h1, h2, n - 1);
    }
}

/// Every branch is pure or not, never both: the two tallies add up to the
/// number of branch lines.
pub proof fn lemma_purity_partitions_branches(lang: Language, content: Seq<char>)
    ensures
        profile(lang, content).pure_branches + profile(lang, content).non_pure_branches == profile(
            lang,
            content,
        ).total_branches,
{
    lemma_partition_lines(lang, lines(content));
}

proof fn lemma_partition_lines(lang: Language, ls: Seq<Seq<char>>)
    ensures
        profile_of(lang, ls).pure_branches + profile_of(lang, ls).non_pure_branches == profile_of(
            lang,
            ls,
        ).total_branches,
    decreases ls.len(),
{
    if ls.len() > 0 {
        lemma_partition_lines(lang, ls.drop_last());
    }
}

/// The histogram of conditional nesting depths sums to the conditional count,
/// wherever every line's conditionals are counted as they are recorded (a
/// line with two `if`s, a conditional that opens no scope on its line, or a
/// `case` label breaks it).
pub proof fn lemma_histogram_sums_to_conditionals(lang: Language, content: Seq<char>)
    requires
        all_counted_as_recorded(lang, lines(content)),
    ensures
        histogram_total(profile(lang, content).histogram, (lines(content).len() + 1) as int) == profile(
            lang,
            content,
        ).conditional_count,
        forall|d: int| #[trigger]
            profile(lang, content).histogram.contains_key(d) ==> 1 <= d <= lines(content).len(),
{
    lemma_histogram_lines(lang, lines(content));
    lemma_profile_depth_bounds(lang, lines(content));
}

proof fn lemma_histogram_lines(lang: Language, ls: Seq<Seq<char>>)
    requires
        all_counted_as_recorded(lang, ls),
    ensures
        histogram_total(profile_of(lang, ls).histogram, (ls.len() + 1) as int) == profile_of(
            lang,
            ls,
        ).conditional_count,
    decreases ls.len(),
{
    if ls.len() > 0 {
        let prev_ls = ls.drop_last();
        assert forall|i: int| 0 <= i < prev_ls.len() implies counts_as_recorded(
            lang,
            #[trigger] prev_ls[i],
        ) by {
            assert(prev_ls[i] == ls[i]);
        }
        lemma_histogram_lines(lang, prev_ls);
        lemma_profile_depth_bounds(lang, prev_ls);
        let p = profile_of(lang, prev_ls);
        let n = ls.len() as int;
        assert(counts_as_recorded(lang, ls[n - 1]));
        // The previous histogram has no entry at depth `n`.
        assert(histogram_total(p.histogram, n + 1) == histogram_total(p.histogram, n));
        let t = trim(ls.last());
        assert(profile_of(lang, ls) == step(p, lang, ls.last()));
        if !is_skipped(t) {
            let cl = sanitize(t);
            let k = line_kinds(lang, cl);
            assert(k.conditionals == one_if(records_depth(k, cl)));
            if records_depth(k, cl) {
                let opened = p.depth + 1;
                assert(profile_of(lang, ls).histogram == bump(p.histogram, opened as int));
                lemma_total_bump(p.histogram, opened as int, n + 1);
                assert(histogram_total(profile_of(lang, ls).histogram, n + 1) == p.conditional_count
                    + 1);
                assert(profile_of(lang, ls).conditional_count == p.conditional_count + 1);
            } else {
                assert(profile_of(lang, ls).histogram == p.histogram);
                assert(profile_of(lang, ls).conditional_count == p.conditional_count);
            }
        } else {
            assert(profile_of(lang, ls) == p);
        }
    } else {
        let h = profile_of(lang, ls).histogram;
        assert(histogram_total(h, 0) == 0);
        assert(histogram_total(h, 1) == 0);
    }
}

/// Empty content gives every count zero, an empty histogram and no nesting.
pub proof fn lemma_empty_content(lang: Language)
    ensures
        ({
            let p = profile(lang, Seq::<char>::empty());
            &&& p.conditional_count == 0
            &&& p.loop_count == 0
            &&& p.switch_count == 0
            &&& p.max_nesting == 0
            &&& p.logical_operators == 0
            &&& p.cognitive_quarters == 0
            &&& p.hardcoded_dates_count == 0
            &&& p.hardcoded_values_count == 0
            &&& p.pure_branches == 0
            &&& p.non_pure_branches == 0
            &&& p.future_logic_count == 0
            &&& p.past_logic_count == 0
            &&& p.total_branches == 0
            &&& p.histogram == Map::<int, nat>::empty()
            &&& p.cyclomatic == 1
        }),
{
    assert(lines(Seq::<char>::empty()) =~= Seq::<Seq<char>>::empty());
}

} // verus!

verus! {

/// A line that is a comment once trimmed (it opens with `//`, `/*`, `*` or
/// `#`), or blank, changes nothing: no counter, no depth, no histogram entry.
pub proof fn lemma_comment_line_changes_nothing(
    p: crate::profile::ProfileModel,
    lang: Language,
    raw: Seq<char>,
)
    requires
        is_skipped(trim(raw)),
    ensures
        step(p, lang, raw) == p,
{
}

/// Appending comment lines to a file leaves its profile unchanged.
pub proof fn lemma_comment_lines_change_nothing(
    lang: Language,
    ls: Seq<Seq<char>>,
    comments: Seq<Seq<char>>,
)
    requires
        forall|i: int| 0 <= i < comments.len() ==> is_skipped(trim(#[trigger] comments[i])),
    ensures
        profile_of(lang, ls + comments) == profile_of(lang, ls),
    decreases comments.len(),
{
    if comments.len() > 0 {
        let shorter = comments.drop_last();
        assert forall|i: int| 0 <= i < shorter.len() implies is_skipped(
            trim(#[trigger] shorter[i]),
        ) by {
            assert(shorter[i] == comments[i]);
        }
        lemma_comment_lines_change_nothing(lang, ls, shorter);
        assert((ls + comments).drop_last() =~= ls + shorter);
        assert((ls + comments).last() == comments[comments.len() - 1]);
    } else {
        assert(ls + comments =~= ls);
    }
}

} // verus!

verus! {

/// Two lines that read the same once comments and string contents are
/// dropped count the same: what is inside a comment or a string literal
/// never changes a construct count, the complexity, the nesting or the
/// histogram.
pub proof fn lemma_counts_ignore_comments_and_strings(
    p: crate::profile::ProfileModel,
    lang: Language,
    a: Seq<char>,
    b: Seq<char>,
)
    requires
        !is_skipped(trim(a)),
        !is_skipped(trim(b)),
        sanitize(trim(a)) == sanitize(trim(b)),
    ensures
        ({
            let sa = step(p, lang, a);
            let sb = step(p, lang, b);
            &&& sa.conditional_count == sb.conditional_count
            &&& sa.loop_count == sb.loop_count
            &&& sa.switch_count == sb.switch_count
            &&& sa.logical_operators == sb.logical_operators
            &&& sa.cyclomatic == sb.cyclomatic
            &&& sa.cognitive_quarters == sb.cognitive_quarters
            &&& sa.max_nesting == sb.max_nesting
            &&& sa.depth == sb.depth
            &&& sa.histogram == sb.histogram
            &&& sa.total_branches == sb.total_branches
        }),
{
}

} // verus!
