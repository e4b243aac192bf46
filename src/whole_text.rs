//! Whole-text tallies: counts taken over every line of a text that mentions
//! `if`, without classifying branches or tracking nesting. Each overwrites
//! one or two fields of a profile.

use vstd::prelude::*;
use crate::classify::{is_non_pure, is_non_pure_chars};
use crate::language::one_if;
use crate::profile::BranchingDetails;
use crate::text::{
    chars_of, clamp, contains, count_matches, count_of, has_text, lines, sat_add, split_lines,
    views,
};

verus! {

/// A line that mentions `if` and a year prefix `200`, `201` or `202`.
pub open spec fn is_year_if_line(l: Seq<char>) -> bool {
    contains(l, "if"@) && (contains(l, "202"@) || contains(l, "201"@) || contains(l, "200"@))
}

/// A line that mentions `if`.
pub open spec fn mentions_if(l: Seq<char>) -> bool {
    contains(l, "if"@)
}

/// Future indicators on a line that mentions `if`, one for each that holds:
/// a year 2025 to 2027; `>=` with a version `"2.` or `"3.`; a high API level
/// or version; feature flags.
pub open spec fn future_marks(l: Seq<char>) -> nat {
    if mentions_if(l) {
        one_if(contains(l, "2025"@) || contains(l, "2026"@) || contains(l, "2027"@)) + one_if(
            contains(l, ">="@) && (contains(l, "\"2."@) || contains(l, "\"3."@)),
        ) + one_if(contains(l, "api_level >="@) || contains(l, "api_version >="@)) + one_if(
            contains(l, "feature_flags"@) || contains(l, "beta_features"@),
        )
    } else {
        0
    }
}

/// Past indicators on a line that mentions `if`, one for each that holds: a
/// year 2020 to 2022; `<` with a version `"1.` or `"0.`; a low API level or
/// version; deprecation or end of support.
pub open spec fn past_marks(l: Seq<char>) -> nat {
    if mentions_if(l) {
        one_if(contains(l, "2020"@) || contains(l, "2021"@) || contains(l, "2022"@)) + one_if(
            contains(l, "<"@) && (contains(l, "\"1."@) || contains(l, "\"0."@)),
        ) + one_if(contains(l, "api_level <"@) || contains(l, "api_version <"@)) + one_if(
            contains(l, "deprecated"@) || contains(l, "end_of_life"@) || contains(l, "support_end"@),
        )
    } else {
        0
    }
}

/// The sum of `f` over the lines.
pub open spec fn sum_lines(ls: Seq<Seq<char>>, f: spec_fn(Seq<char>) -> nat) -> nat
    decreases ls.len(),
{
    if ls.len() == 0 {
        0
    } else {
        sum_lines(ls.drop_last(), f) + f(ls.last())
    }
}

fn future_marks_exec(l: &[char]) -> (r: usize)
    ensures
        r == future_marks(l@),
{
    if !has_text(l, "if") {
        return 0;
    }
    let a: usize = if has_text(l, "2025") || has_text(l, "2026") || has_text(l, "2027") { 1 } else { 0 };
    let b: usize = if has_text(l, ">=") && (has_text(l, "\"2.") || has_text(l, "\"3.")) { 1 } else { 0 };
    let c: usize = if has_text(l, "api_level >=") || has_text(l, "api_version >=") { 1 } else { 0 };
    let d: usize = if has_text(l, "feature_flags") || has_text(l, "beta_features") { 1 } else { 0 };
    a + b + c + d
}

fn past_marks_exec(l: &[char]) -> (r: usize)
    ensures
        r == past_marks(l@),
{
    if !has_text(l, "if") {
        return 0;
    }
    let a: usize = if has_text(l, "2020") || has_text(l, "2021") || has_text(l, "2022") { 1 } else { 0 };
    let b: usize = if has_text(l, "<") && (has_text(l, "\"1.") || has_text(l, "\"0.")) { 1 } else { 0 };
    let c: usize = if has_text(l, "api_level <") || has_text(l, "api_version <") { 1 } else { 0 };
    let d: usize = if has_text(l, "deprecated") || has_text(l, "end_of_life") || has_text(
        l,
        "support_end",
    ) { 1 } else { 0 };
    a + b + c + d
}

/// Which per-line tally a pass takes.
#[derive(Clone, Copy, PartialEq, Eq, Structural)]
enum Tally {
    YearIf,
    PureIf,
    NonPureIf,
    Future,
    Past,
}

spec fn tally_of(which: Tally) -> spec_fn(Seq<char>) -> nat {
    match which {
        Tally::YearIf => |l: Seq<char>| one_if(is_year_if_line(l)),
        Tally::PureIf => |l: Seq<char>| one_if(mentions_if(l) && !is_non_pure(l)),
        Tally::NonPureIf => |l: Seq<char>| one_if(mentions_if(l) && is_non_pure(l)),
        Tally::Future => |l: Seq<char>| future_marks(l),
        Tally::Past => |l: Seq<char>| past_marks(l),
    }
}

fn tally_line(which: Tally, l: &[char]) -> (r: usize)
    ensures
        r == (tally_of(which))(l@),
        r <= 4,
{
    match which {
        Tally::YearIf => {
            if has_text(l, "if") && (has_text(l, "202") || has_text(l, "201") || has_text(l, "200")) {
                1
            } else {
                0
            }
        },
        Tally::PureIf => {
            if has_text(l, "if") && !is_non_pure_chars(l) {
                1
            } else {
                0
            }
        },
        Tally::NonPureIf => {
            if has_text(l, "if") && is_non_pure_chars(l) {
                1
            } else {
                0
            }
        },
        Tally::Future => future_marks_exec(l),
        Tally::Past => past_marks_exec(l),
    }
}

/// The sum of a tally over the lines of `content`, saturating.
fn tally_lines(which: Tally, content: &str) -> (r: usize)
    ensures
        r == clamp(sum_lines(lines(content@), tally_of(which)) as int),
{
    let text = chars_of(content);
    let ls = split_lines(text.as_slice());
    let ghost lsv = views(ls@);
    let mut acc: usize = 0;
    let mut k: usize = 0;
    assert(lsv.subrange(0, 0) =~= Seq::<Seq<char>>::empty());
    while k < ls.len()
        invariant
            lsv == views(ls@),
            lsv == lines(content@),
            k <= ls@.len(),
            acc == clamp(sum_lines(lsv.subrange(0, k as int), tally_of(which)) as int),
        decreases ls@.len() - k,
    {
        assert(lsv.subrange(0, k + 1).drop_last() =~= lsv.subrange(0, k as int));
        assert(lsv.subrange(0, k + 1).last() == ls@[k as int]@);
        let t = tally_line(which, ls[k].as_slice());
        acc = sat_add(acc, t);
        k += 1;
    }
    assert(lsv.subrange(0, k as int) =~= lsv);
    acc
}

impl BranchingDetails {
    /// Sets the date tally from the whole text: half its slashes (a date
    /// written with slashes has two), plus the lines that mention `if` and a
    /// year prefix `200`, `201` or `202`. Saturates.
    pub fn detect_hardcoded_dates(&mut self, content: &str)
        ensures
            final(self).hardcoded_dates_count == clamp(
                count_matches(content@, "/"@) / 2 + sum_lines(
                    lines(content@),
                    |l: Seq<char>| one_if(is_year_if_line(l)),
                ) as int,
            ),
            final(self).nesting_distribution == old(self).nesting_distribution,
    {
        let text = chars_of(content);
        let slashes = count_of(text.as_slice(), "/");
        let years = tally_lines(Tally::YearIf, content);
        self.hardcoded_dates_count = sat_add(slashes / 2, years);
    }

    /// Sets the purity tallies from the whole text: the lines that mention
    /// `if`, split by whether they show a side-effect marker. Saturates.
    pub fn analyze_branch_purity(&mut self, content: &str, _language: &str)
        ensures
            final(self).pure_branches == clamp(
                sum_lines(lines(content@), |l: Seq<char>| one_if(mentions_if(l) && !is_non_pure(l))) as int,
            ),
            final(self).non_pure_branches == clamp(
                sum_lines(lines(content@), |l: Seq<char>| one_if(mentions_if(l) && is_non_pure(l))) as int,
            ),
            final(self).nesting_distribution == old(self).nesting_distribution,
    {
        self.pure_branches = tally_lines(Tally::PureIf, content);
        self.non_pure_branches = tally_lines(Tally::NonPureIf, content);
    }

    /// Sets the future tally from the whole text: the future indicators of
    /// every line that mentions `if`. Saturates.
    pub fn detect_future_logic(&mut self, content: &str)
        ensures
            final(self).future_logic_count == clamp(
                sum_lines(lines(content@), |l: Seq<char>| future_marks(l)) as int,
            ),
            final(self).nesting_distribution == old(self).nesting_distribution,
    {
        self.future_logic_count = tally_lines(Tally::Future, content);
    }

    /// Sets the past tally from the whole text: the past indicators of every
    /// line that mentions `if`. Saturates.
    pub fn detect_past_logic(&mut self, content: &str)
        ensures
            final(self).past_logic_count == clamp(
                sum_lines(lines(content@), |l: Seq<char>| past_marks(l)) as int,
            ),
            final(self).nesting_distribution == old(self).nesting_distribution,
    {
        self.past_logic_count = tally_lines(Tally::Past, content);
    }
}

} // verus!
