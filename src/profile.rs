//! The branching profile of a file: one forward pass over its lines that
//! counts branch constructs, tracks brace nesting, builds the histogram of
//! conditional nesting depths, and tallies the four branch judgments.

use vstd::prelude::*;
use std::collections::HashMap;
use crate::analyzer::ContentAnalyzer;
use crate::classify::{
    has_hardcoded_date, has_hardcoded_date_chars, hardcoded_value_count,
    hardcoded_value_count_chars, is_future_logic, is_future_logic_chars, is_non_pure,
    is_non_pure_chars, is_past_logic, is_past_logic_chars,
};
use crate::language::{
    has_spaced_if, has_spaced_loop, language_of, line_counts, line_kinds, opt_text, spaced_loop,
    Language, LineKinds,
};
use crate::sanitize::{sanitize, sanitize_chars};
use crate::text::{
    begins, chars_of, clamp, contains, has_text, lines, sat_add, split_lines, starts_with, trim,
    trim_chars, views,
};

verus! {

broadcast use vstd::std_specs::hash::group_hash_axioms;

/// The mathematical profile of a file; counts are unbounded.
pub struct ProfileModel {
    pub conditional_count: nat,
    pub loop_count: nat,
    pub switch_count: nat,
    pub max_nesting: nat,
    pub logical_operators: nat,
    pub cyclomatic: nat,
    /// Cognitive complexity in quarter points.
    pub cognitive_quarters: nat,
    pub hardcoded_dates_count: nat,
    pub hardcoded_values_count: nat,
    pub pure_branches: nat,
    pub non_pure_branches: nat,
    pub future_logic_count: nat,
    pub past_logic_count: nat,
    pub total_branches: nat,
    /// Conditional branches that open a scope, by the depth they open.
    pub histogram: Map<int, nat>,
    /// The brace depth after the lines read so far.
    pub depth: nat,
}

pub open spec fn initial_profile() -> ProfileModel {
    ProfileModel {
        conditional_count: 0,
        loop_count: 0,
        switch_count: 0,
        max_nesting: 0,
        logical_operators: 0,
        cyclomatic: 1,
        cognitive_quarters: 0,
        hardcoded_dates_count: 0,
        hardcoded_values_count: 0,
        pure_branches: 0,
        non_pure_branches: 0,
        future_logic_count: 0,
        past_logic_count: 0,
        total_branches: 0,
        histogram: Map::empty(),
        depth: 0,
    }
}

/// A trimmed line that the scan passes over: empty, or opening with a
/// comment marker.
pub open spec fn is_skipped(t: Seq<char>) -> bool {
    t.len() == 0 || starts_with(t, "//"@) || starts_with(t, "/*"@) || starts_with(t, "*"@)
        || starts_with(t, "#"@)
}

/// What a sanitized line adds to cognitive complexity, in quarter points, at
/// brace depth `depth`: `1 + depth / 2` for an `if`, one and a half times
/// that for a loop.
pub open spec fn cognitive_quarters(cl: Seq<char>, depth: nat) -> nat {
    (if has_spaced_if(cl) {
        4 + 2 * depth
    } else {
        0
    }) + (if has_spaced_loop(cl) {
        6 + 3 * depth
    } else {
        0
    })
}

/// The histogram with one more occurrence at depth `d`.
pub open spec fn bump(h: Map<int, nat>, d: int) -> Map<int, nat> {
    h.insert(
        d,
        if h.contains_key(d) {
            h[d] + 1
        } else {
            1
        },
    )
}

/// A line's kinds put it in the histogram: a conditional, not a loop, that
/// opens a scope.
pub open spec fn records_depth(k: LineKinds, cl: Seq<char>) -> bool {
    k.is_conditional && !k.is_loop && contains(cl, "{"@)
}

/// The profile after one more raw line.
pub open spec fn step(p: ProfileModel, lang: Language, raw: Seq<char>) -> ProfileModel {
    let t = trim(raw);
    if is_skipped(t) {
        p
    } else {
        let cl = sanitize(t);
        let opens = contains(cl, "{"@);
        let closes = contains(cl, "}"@);
        let opened: nat = if opens {
            p.depth + 1
        } else {
            p.depth
        };
        let depth: nat = if closes && opened > 0 {
            (opened - 1) as nat
        } else {
            opened
        };
        let k = line_kinds(lang, cl);
        let b = k.is_branch;
        ProfileModel {
            conditional_count: p.conditional_count + k.conditionals,
            loop_count: p.loop_count + k.loops,
            switch_count: p.switch_count + k.switches,
            max_nesting: if opens && opened > p.max_nesting {
                opened
            } else {
                p.max_nesting
            },
            logical_operators: p.logical_operators + k.logical,
            cyclomatic: p.cyclomatic + k.decisions,
            cognitive_quarters: p.cognitive_quarters + cognitive_quarters(cl, depth),
            hardcoded_dates_count: p.hardcoded_dates_count + if b && has_hardcoded_date(t) {
                1nat
            } else {
                0nat
            },
            hardcoded_values_count: p.hardcoded_values_count + if b {
                hardcoded_value_count(t)
            } else {
                0nat
            },
            pure_branches: p.pure_branches + if b && !is_non_pure(t) {
                1nat
            } else {
                0nat
            },
            non_pure_branches: p.non_pure_branches + if b && is_non_pure(t) {
                1nat
            } else {
                0nat
            },
            future_logic_count: p.future_logic_count + if b && is_future_logic(t) {
                1nat
            } else {
                0nat
            },
            past_logic_count: p.past_logic_count + if b && is_past_logic(t) {
                1nat
            } else {
                0nat
            },
            total_branches: p.total_branches + if b {
                1nat
            } else {
                0nat
            },
            histogram: if records_depth(k, cl) {
                bump(p.histogram, opened as int)
            } else {
                p.histogram
            },
            depth: depth,
        }
    }
}

/// The profile of a sequence of raw lines, read in order.
pub open spec fn profile_of(lang: Language, ls: Seq<Seq<char>>) -> ProfileModel
    decreases ls.len(),
{
    if ls.len() == 0 {
        initial_profile()
    } else {
        step(profile_of(lang, ls.drop_last()), lang, ls.last())
    }
}

/// The profile of a file's content.
pub open spec fn profile(lang: Language, content: Seq<char>) -> ProfileModel {
    profile_of(lang, lines(content))
}

/// The branching profile of one file. Counts that can grow faster than one
/// per line saturate at `usize::MAX`.
#[derive(Debug, Clone)]
pub struct BranchingDetails {
    pub conditional_count: usize,
    pub loop_count: usize,
    pub switch_count: usize,
    pub max_nesting: usize,
    pub logical_operators: usize,
    /// Starts at 1 and grows by 1 per decision point.
    pub cyclomatic_complexity: usize,
    /// Cognitive complexity in quarter points.
    pub cognitive_quarters: usize,
    pub hardcoded_dates_count: usize,
    pub hardcoded_values_count: usize,
    pub pure_branches: usize,
    pub non_pure_branches: usize,
    /// Conditional branches that open a scope, by the brace depth they open.
    pub nesting_distribution: HashMap<usize, usize>,
    pub future_logic_count: usize,
    pub past_logic_count: usize,
    pub total_branches: usize,
}

impl BranchingDetails {
    /// The executable profile holds the model's values.
    pub open spec fn models(&self, m: ProfileModel) -> bool {
        &&& self.conditional_count == clamp(m.conditional_count as int)
        &&& self.loop_count == clamp(m.loop_count as int)
        &&& self.switch_count == m.switch_count
        &&& self.max_nesting == m.max_nesting
        &&& self.logical_operators == clamp(m.logical_operators as int)
        &&& self.cyclomatic_complexity == clamp(m.cyclomatic as int)
        &&& self.cognitive_quarters == clamp(m.cognitive_quarters as int)
        &&& self.hardcoded_dates_count == m.hardcoded_dates_count
        &&& self.hardcoded_values_count == clamp(m.hardcoded_values_count as int)
        &&& self.pure_branches == m.pure_branches
        &&& self.non_pure_branches == m.non_pure_branches
        &&& self.future_logic_count == m.future_logic_count
        &&& self.past_logic_count == m.past_logic_count
        &&& self.total_branches == m.total_branches
        &&& forall|d: usize| #[trigger]
            self.nesting_distribution@.contains_key(d) ==> m.histogram.contains_key(d as int)
                && self.nesting_distribution@[d] == m.histogram[d as int]
        &&& forall|d: int| #[trigger]
            m.histogram.contains_key(d) ==> 0 <= d <= usize::MAX
                && self.nesting_distribution@.contains_key(d as usize)
    }

    /// An empty profile: every count zero, cyclomatic complexity at its
    /// starting value of 1.
    pub fn new() -> (r: BranchingDetails)
        ensures
            r.conditional_count == 0 && r.loop_count == 0 && r.switch_count == 0 && r.max_nesting
                == 0 && r.logical_operators == 0 && r.cyclomatic_complexity == 1
                && r.cognitive_quarters == 0 && r.hardcoded_dates_count == 0
                && r.hardcoded_values_count == 0 && r.pure_branches == 0 && r.non_pure_branches
                == 0 && r.future_logic_count == 0 && r.past_logic_count == 0 && r.total_branches
                == 0,
            r.nesting_distribution@ == Map::<usize, usize>::empty(),
    {
        BranchingDetails {
            conditional_count: 0,
            loop_count: 0,
            switch_count: 0,
            max_nesting: 0,
            logical_operators: 0,
            cyclomatic_complexity: 1,
            cognitive_quarters: 0,
            hardcoded_dates_count: 0,
            hardcoded_values_count: 0,
            pure_branches: 0,
            non_pure_branches: 0,
            nesting_distribution: HashMap::new(),
            future_logic_count: 0,
            past_logic_count: 0,
            total_branches: 0,
        }
    }
}

fn skipped_exec(t: &[char]) -> (r: bool)
    ensures
        r == is_skipped(t@),
{
    t.len() == 0 || begins(t, "//") || begins(t, "/*") || begins(t, "*") || begins(t, "#")
}

fn quarters_exec(cl: &[char], depth: usize) -> (r: usize)
    ensures
        r == clamp(cognitive_quarters(cl@, depth as nat) as int),
{
    let d = depth as u128;
    let a: u128 = if has_text(cl, " if ") || begins(cl, "if ") {
        4 + 2 * d
    } else {
        0
    };
    let b: u128 = if spaced_loop(cl) {
        6 + 3 * d
    } else {
        0
    };
    let s = a + b;
    if s > usize::MAX as u128 {
        usize::MAX
    } else {
        s as usize
    }
}

/// The judgment tallies are at most `k`.
pub open spec fn tallies_within(d: &BranchingDetails, k: int) -> bool {
    &&& d.hardcoded_dates_count <= k
    &&& d.pure_branches <= k
    &&& d.non_pure_branches <= k
    &&& d.future_logic_count <= k
    &&& d.past_logic_count <= k
    &&& d.total_branches <= k
}

/// Every histogram value is at most `k`.
pub open spec fn histogram_within(d: &BranchingDetails, k: int) -> bool {
    forall|x: usize| #[trigger]
        d.nesting_distribution@.contains_key(x) ==> d.nesting_distribution@[x] <= k
}

/// Every count that grows at most once per line is at most `k`.
pub open spec fn within(d: &BranchingDetails, depth: usize, k: int) -> bool {
    &&& depth <= k
    &&& d.max_nesting <= k
    &&& d.switch_count <= k
    &&& tallies_within(d, k)
    &&& histogram_within(d, k)
}

/// The judgment tallies of `a` and `b` agree.
pub open spec fn same_tallies(a: &BranchingDetails, b: &BranchingDetails) -> bool {
    &&& a.hardcoded_dates_count == b.hardcoded_dates_count
    &&& a.pure_branches == b.pure_branches
    &&& a.non_pure_branches == b.non_pure_branches
    &&& a.future_logic_count == b.future_logic_count
    &&& a.past_logic_count == b.past_logic_count
    &&& a.total_branches == b.total_branches
}

/// Adds one occurrence at depth `at` to the histogram.
fn record_depth(d: &mut BranchingDetails, at: usize, Ghost(prev): Ghost<ProfileModel>, k: usize)
    requires
        old(d).models(prev),
        histogram_within(old(d), k as int),
        at <= k + 1,
        k < usize::MAX,
    ensures
        final(d).models(ProfileModel { histogram: bump(prev.histogram, at as int), ..prev }),
        histogram_within(final(d), k + 1),
        final(d).max_nesting == old(d).max_nesting,
        final(d).switch_count == old(d).switch_count,
        same_tallies(final(d), old(d)),
{
    let cur: usize = match d.nesting_distribution.get(&at) {
        Some(v) => *v,
        None => 0,
    };
    d.nesting_distribution.insert(at, cur + 1);
}

/// Tallies the four judgments of a branch line `t`.
fn judge_branch(d: &mut BranchingDetails, t: &[char], Ghost(prev): Ghost<ProfileModel>, k: usize)
    requires
        old(d).models(prev),
        tallies_within(old(d), k as int),
        k < usize::MAX,
    ensures
        final(d).models(
            ProfileModel {
                hardcoded_dates_count: prev.hardcoded_dates_count + if has_hardcoded_date(t@) {
                    1nat
                } else {
                    0nat
                },
                hardcoded_values_count: prev.hardcoded_values_count + hardcoded_value_count(t@),
                pure_branches: prev.pure_branches + if !is_non_pure(t@) {
                    1nat
                } else {
                    0nat
                },
                non_pure_branches: prev.non_pure_branches + if is_non_pure(t@) {
                    1nat
                } else {
                    0nat
                },
                future_logic_count: prev.future_logic_count + if is_future_logic(t@) {
                    1nat
                } else {
                    0nat
                },
                past_logic_count: prev.past_logic_count + if is_past_logic(t@) {
                    1nat
                } else {
                    0nat
                },
                total_branches: prev.total_branches + 1,
                ..prev
            },
        ),
        tallies_within(final(d), k + 1),
        final(d).max_nesting == old(d).max_nesting,
        final(d).switch_count == old(d).switch_count,
        final(d).nesting_distribution == old(d).nesting_distribution,
{
    d.total_branches = d.total_branches + 1;
    if has_hardcoded_date_chars(t) {
        d.hardcoded_dates_count = d.hardcoded_dates_count + 1;
    }
    d.hardcoded_values_count = sat_add(d.hardcoded_values_count, hardcoded_value_count_chars(t));
    if is_non_pure_chars(t) {
        d.non_pure_branches = d.non_pure_branches + 1;
    } else {
        d.pure_branches = d.pure_branches + 1;
    }
    if is_future_logic_chars(t) {
        d.future_logic_count = d.future_logic_count + 1;
    }
    if is_past_logic_chars(t) {
        d.past_logic_count = d.past_logic_count + 1;
    }
}

/// Folds one raw line into the profile; returns the new brace depth.
fn apply_line(
    d: &mut BranchingDetails,
    depth: usize,
    lang: Language,
    raw: &[char],
    Ghost(prev): Ghost<ProfileModel>,
    k: usize,
) -> (new_depth: usize)
    requires
        old(d).models(prev),
        depth == prev.depth,
        within(old(d), depth, k as int),
        k < usize::MAX,
    ensures
        final(d).models(step(prev, lang, raw@)),
        new_depth == step(prev, lang, raw@).depth,
        within(final(d), new_depth, k + 1),
{
    let t = trim_chars(raw);
    if skipped_exec(t.as_slice()) {
        return depth;
    }
    let ghost tv = t@;
    let cl = sanitize_chars(t.as_slice());
    let opens = has_text(cl.as_slice(), "{");
    let closes = has_text(cl.as_slice(), "}");
    let opened: usize = if opens {
        depth + 1
    } else {
        depth
    };
    if opens && opened > d.max_nesting {
        d.max_nesting = opened;
    }
    let new_depth = if closes && opened > 0 {
        opened - 1
    } else {
        opened
    };
    let lc = line_counts(lang, cl.as_slice());
    let ghost kinds = line_kinds(lang, cl@);
    d.conditional_count = sat_add(d.conditional_count, lc.conditionals);
    d.loop_count = sat_add(d.loop_count, lc.loops);
    d.switch_count = d.switch_count + lc.switches;
    d.logical_operators = sat_add(d.logical_operators, lc.logical);
    d.cyclomatic_complexity = sat_add(d.cyclomatic_complexity, lc.decisions);
    d.cognitive_quarters = sat_add(d.cognitive_quarters, quarters_exec(cl.as_slice(), new_depth));
    let ghost mid = ProfileModel {
        conditional_count: prev.conditional_count + kinds.conditionals,
        loop_count: prev.loop_count + kinds.loops,
        switch_count: prev.switch_count + kinds.switches,
        max_nesting: if opens && opened > prev.max_nesting {
            opened as nat
        } else {
            prev.max_nesting
        },
        logical_operators: prev.logical_operators + kinds.logical,
        cyclomatic: prev.cyclomatic + kinds.decisions,
        cognitive_quarters: prev.cognitive_quarters + cognitive_quarters(cl@, new_depth as nat),
        depth: new_depth as nat,
        ..prev
    };
    assert(d.models(mid));
    let ghost mid2 = mid;
    if lc.is_branch {
        judge_branch(d, t.as_slice(), Ghost(mid), k);
        proof {
            mid2 = ProfileModel {
                hardcoded_dates_count: mid.hardcoded_dates_count + if has_hardcoded_date(tv) {
                    1nat
                } else {
                    0nat
                },
                hardcoded_values_count: mid.hardcoded_values_count + hardcoded_value_count(tv),
                pure_branches: mid.pure_branches + if !is_non_pure(tv) {
                    1nat
                } else {
                    0nat
                },
                non_pure_branches: mid.non_pure_branches + if is_non_pure(tv) {
                    1nat
                } else {
                    0nat
                },
                future_logic_count: mid.future_logic_count + if is_future_logic(tv) {
                    1nat
                } else {
                    0nat
                },
                past_logic_count: mid.past_logic_count + if is_past_logic(tv) {
                    1nat
                } else {
                    0nat
                },
                total_branches: mid.total_branches + 1,
                ..mid
            };
        }
    }
    assert(d.models(mid2));
    if opens && lc.is_conditional && !lc.is_loop {
        record_depth(d, opened, Ghost(mid2), k);
        assert(d.models(step(prev, lang, raw@)));
    } else {
        assert(d.models(step(prev, lang, raw@)));
    }
    new_depth
}

/// Builds the profile of `content` with the recognizers of `lang`.
pub fn profile_chars(content: &[char], lang: Language) -> (r: BranchingDetails)
    ensures
        r.models(profile(lang, content@)),
{
    let ls = split_lines(content);
    let ghost lsv = views(ls@);
    let mut d = BranchingDetails::new();
    let mut depth: usize = 0;
    let mut k: usize = 0;
    assert(lsv.subrange(0, 0) =~= Seq::<Seq<char>>::empty());
    while k < ls.len()
        invariant
            lsv == views(ls@),
            lsv == lines(content@),
            k <= ls@.len(),
            d.models(profile_of(lang, lsv.subrange(0, k as int))),
            depth == profile_of(lang, lsv.subrange(0, k as int)).depth,
            within(&d, depth, k as int),
        decreases ls@.len() - k,
    {
        let ghost prev = profile_of(lang, lsv.subrange(0, k as int));
        assert(lsv.subrange(0, k + 1).drop_last() =~= lsv.subrange(0, k as int));
        assert(lsv.subrange(0, k + 1).last() == ls@[k as int]@);
        depth = apply_line(&mut d, depth, lang, ls[k].as_slice(), Ghost(prev), k);
        k += 1;
    }
    assert(lsv.subrange(0, k as int) =~= lsv);
    d
}

impl ContentAnalyzer {
    /// The branching profile of a file's content, read with the recognizers
    /// of the named language (`None` or an unknown name: the common set).
    pub fn analyze_branching_details(&self, content: &str, language: &Option<String>) -> (r:
        BranchingDetails)
        ensures
            r.models(profile(language_of(opt_text(language)), content@)),
    {
        let lang = Language::from_name(language);
        let v = chars_of(content);
        profile_chars(v.as_slice(), lang)
    }
}

} // verus!
