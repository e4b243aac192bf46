//! File complexity and importance scores. Scores are fixed-point numbers in
//! ten-thousandths: `SCORE_SCALE` stands for 1.0, and both scores lie in
//! `0..=10 * SCORE_SCALE`.

use vstd::prelude::*;
use crate::analyzer::ContentAnalyzer;
use crate::files::{EnhancedFileInfo, FileEntry};
use crate::language::{language_of, opt_text};
use crate::profile::profile;
use crate::text::{
    chars_of, contains, count_matches, count_of, has_text, lines, same_text, split_lines,
};

verus! {

/// The fixed-point unit of scores: 1.0.
pub const SCORE_SCALE: u64 = 10000;

/// The highest score: 10.0.
pub const MAX_SCORE: u64 = 100000;

/// The cap of the branching part of the complexity score: 8.0.
pub const MAX_BRANCHING: u64 = 80000;

/// The integer square root: the largest `r` with `r * r <= x`.
pub open spec fn floor_sqrt(x: nat) -> nat
    decreases x,
{
    if x == 0 {
        0
    } else {
        let r = floor_sqrt((x - 1) as nat);
        if (r + 1) * (r + 1) <= x {
            r + 1
        } else {
            r
        }
    }
}

pub proof fn lemma_floor_sqrt(x: nat)
    ensures
        floor_sqrt(x) * floor_sqrt(x) <= x < (floor_sqrt(x) + 1) * (floor_sqrt(x) + 1),
    decreases x,
{
    if x > 0 {
        lemma_floor_sqrt((x - 1) as nat);
        let r = floor_sqrt((x - 1) as nat);
        assert(r * r <= x - 1 < (r + 1) * (r + 1));
        if (r + 1) * (r + 1) <= x {
            assert(floor_sqrt(x) == r + 1);
            assert((r + 1) * (r + 1) == x);
            assert(x < (r + 2) * (r + 2)) by (nonlinear_arith)
                requires
                    (r + 1) * (r + 1) == x,
            ;
        } else {
            assert(floor_sqrt(x) == r);
        }
    } else {
        assert(floor_sqrt(0) == 0);
        assert((0nat + 1) * (0nat + 1) == 1) by (nonlinear_arith);
    }
}

proof fn lemma_sqrt_unique(x: nat, r: nat)
    requires
        r * r <= x < (r + 1) * (r + 1),
    ensures
        floor_sqrt(x) == r,
{
    lemma_floor_sqrt(x);
    let s = floor_sqrt(x);
    if s < r {
        assert((s + 1) * (s + 1) <= r * r) by (nonlinear_arith)
            requires
                s < r,
        ;
    } else if s > r {
        assert((r + 1) * (r + 1) <= s * s) by (nonlinear_arith)
            requires
                s > r,
        ;
    }
}

/// The nesting penalty's share of the score, in ten-thousandths:
/// `0.2 * (0.2 * m^1.5)`, that is `floor(400 * m^1.5)`, the square root of
/// `160000 * m^3`.
pub open spec fn nesting_penalty(m: nat) -> nat {
    floor_sqrt(160000 * m * m * m)
}

/// The branching part of the complexity score, in ten-thousandths:
/// `0.4 * cyclomatic + 0.4 * cognitive + 0.2 * nesting penalty`, capped at 8.
pub open spec fn branching_units(cyclomatic: nat, cognitive_quarters: nat, max_nesting: nat) -> nat {
    let v = 4000 * cyclomatic + 1000 * cognitive_quarters + nesting_penalty(max_nesting);
    if v > MAX_BRANCHING {
        MAX_BRANCHING as nat
    } else {
        v
    }
}

/// Bonus for structural declarations, in ten-thousandths: for Rust and C++,
/// 0.5 per `impl `, 0.3 per `trait `, 0.2 per `struct `; for JavaScript and
/// TypeScript, 0.4 per `class `, 0.3 per `function `, 0.2 per `async `.
pub open spec fn structure_bonus(name: Option<Seq<char>>, text: Seq<char>) -> nat {
    match name {
        Some(n) => if n == "rust"@ || n == "cpp"@ {
            5000 * count_matches(text, "impl "@) + 3000 * count_matches(text, "trait "@) + 2000
                * count_matches(text, "struct "@)
        } else if n == "javascript"@ || n == "typescript"@ {
            4000 * count_matches(text, "class "@) + 3000 * count_matches(text, "function "@)
                + 2000 * count_matches(text, "async "@)
        } else {
            0
        },
        None => 0,
    }
}

/// The complexity score of a file, in ten-thousandths: `lines / 100 + bytes /
/// 10000`, plus the branching part of its profile, plus the structure bonus,
/// capped at 10.
pub open spec fn complexity_units(name: Option<Seq<char>>, text: Seq<char>, bytes: nat) -> nat {
    let p = profile(language_of(name), text);
    let v = 100 * lines(text).len() + bytes + branching_units(
        p.cyclomatic,
        p.cognitive_quarters,
        p.max_nesting,
    ) + structure_bonus(name, text);
    if v > MAX_SCORE {
        MAX_SCORE as nat
    } else {
        v
    }
}

/// The branching part of the score from a profile's saturating counts.
pub fn branching_score(cyclomatic: usize, cognitive_quarters: usize, max_nesting: usize) -> (r: u64)
    ensures
        r == branching_units(cyclomatic as nat, cognitive_quarters as nat, max_nesting as nat),
        r <= MAX_BRANCHING,
{
    let base: u128 = 4000 * (cyclomatic as u128) + 1000 * (cognitive_quarters as u128);
    if max_nesting > 40 {
        // The penalty alone passes the cap.
        proof {
            let m = max_nesting as nat;
            let x = 160000 * m * m * m;
            lemma_floor_sqrt(x);
            assert(x >= 80000 * 80000) by (nonlinear_arith)
                requires
                    m > 40,
                    x == 160000 * m * m * m,
            ;
            let s = floor_sqrt(x);
            if s < 80000 {
                assert((s + 1) * (s + 1) <= 80000 * 80000) by (nonlinear_arith)
                    requires
                        s < 80000,
                ;
            }
        }
        return MAX_BRANCHING;
    }
    let m = max_nesting as u64;
    assert(m * m <= 1600) by (nonlinear_arith)
        requires
            m <= 40,
    ;
    let m2 = m * m;
    assert(m2 * m <= 64000) by (nonlinear_arith)
        requires
            m <= 40,
            m2 <= 1600,
    ;
    let m3 = m2 * m;
    let x: u64 = 160000 * m3;
    assert(x == 160000 * m * m * m) by (nonlinear_arith)
        requires
            x == 160000 * m3,
            m3 == m2 * m,
            m2 == m * m,
    ;
    let mut r: u64 = 0;
    while (r + 1) * (r + 1) <= x
        invariant
            m <= 40,
            x == 160000 * m * m * m,
            x <= 10240000000,
            r * r <= x,
            r <= 110000,
            (r + 1) * (r + 1) <= 110001 * 110001,
        decreases x - r * r,
    {
        assert((r + 1) * (r + 1) <= 110001 * 110001) by (nonlinear_arith)
            requires
                r <= 110000,
        ;
        assert((r + 1) <= 110000) by (nonlinear_arith)
            requires
                (r + 1) * (r + 1) <= x,
                x <= 10240000000,
        ;
        assert((r + 1) * (r + 1) > r * r) by (nonlinear_arith);
        r = r + 1;
        assert((r + 1) * (r + 1) <= 110001 * 110001) by (nonlinear_arith)
            requires
                r <= 110000,
        ;
    }
    proof {
        lemma_sqrt_unique(x as nat, r as nat);
    }
    let v: u128 = base + r as u128;
    if v > MAX_BRANCHING as u128 {
        MAX_BRANCHING
    } else {
        v as u64
    }
}

fn structure_bonus_exec(name: &Option<String>, text: &[char]) -> (r: u128)
    ensures
        r == structure_bonus(opt_text(name), text@),
        r <= 10000 * (usize::MAX as u128),
{
    match name {
        Some(s) => {
            let n = chars_of(s.as_str());
            if same_text(&n, "rust") || same_text(&n, "cpp") {
                5000 * (count_of(text, "impl ") as u128) + 3000 * (count_of(text, "trait ") as u128)
                    + 2000 * (count_of(text, "struct ") as u128)
            } else if same_text(&n, "javascript") || same_text(&n, "typescript") {
                4000 * (count_of(text, "class ") as u128) + 3000 * (count_of(text, "function ")
                    as u128) + 2000 * (count_of(text, "async ") as u128)
            } else {
                0
            }
        },
        None => 0,
    }
}

impl ContentAnalyzer {
    /// The complexity score of a file's content, in ten-thousandths.
    pub fn calculate_complexity(&self, content: &str, language: &Option<String>) -> (r: u64)
        ensures
            r == complexity_units(opt_text(language), content@, content.len() as nat),
            r <= MAX_SCORE,
    {
        let text = chars_of(content);
        let ls = split_lines(text.as_slice());
        let line_count = ls.len();
        assert(crate::text::views(ls@).len() == ls@.len());
        let p = self.analyze_branching_details(content, language);
        let ghost m = profile(language_of(opt_text(language)), content@);
        let branching = branching_score(p.cyclomatic_complexity, p.cognitive_quarters, p.max_nesting);
        proof {
            // Saturated counts lie far past the cap.
            if m.cyclomatic > usize::MAX || m.cognitive_quarters > usize::MAX {
                assert(branching_units(m.cyclomatic, m.cognitive_quarters, m.max_nesting)
                    == MAX_BRANCHING);
                assert(branching == MAX_BRANCHING);
            } else {
                assert(p.cyclomatic_complexity == m.cyclomatic);
                assert(p.cognitive_quarters == m.cognitive_quarters);
            }
        }
        let bonus = structure_bonus_exec(language, text.as_slice());
        assert(line_count == lines(content@).len());
        assert(branching == branching_units(m.cyclomatic, m.cognitive_quarters, m.max_nesting));
        assert(bonus == structure_bonus(opt_text(language), content@));
        let v: u128 = 100 * (line_count as u128) + content.len() as u128 + branching as u128 + bonus;
        if v > MAX_SCORE as u128 {
            MAX_SCORE
        } else {
            v as u64
        }
    }
}

/// The importance score, in ten-thousandths: 1.0, plus the size in units of
/// 10000 bytes up to 2.0, plus 0.3 of the complexity, plus 0.1 per item of
/// API surface, plus 1.0 where the path names `main` or `lib` and 0.5 where
/// it names `core`, capped at 10.
pub open spec fn importance_units(
    size: nat,
    complexity: Option<u64>,
    api_surface_len: nat,
    path: Seq<char>,
) -> nat {
    let v = SCORE_SCALE + (if size > 20000 {
        20000
    } else {
        size
    }) + (match complexity {
        Some(c) => (c * 3 / 10) as nat,
        None => 0nat,
    }) + 1000 * api_surface_len + (if contains(path, "main"@) || contains(path, "lib"@) {
        10000nat
    } else {
        0nat
    }) + (if contains(path, "core"@) {
        5000nat
    } else {
        0nat
    });
    if v > MAX_SCORE {
        MAX_SCORE as nat
    } else {
        v as nat
    }
}

impl ContentAnalyzer {
    /// The importance score of a file, in ten-thousandths.
    pub fn calculate_importance(&self, entry: &FileEntry, enhanced_info: &EnhancedFileInfo) -> (r:
        u64)
        ensures
            r == importance_units(
                entry.size as nat,
                enhanced_info.complexity_score,
                enhanced_info.api_surface@.len(),
                entry.path@,
            ),
            r <= MAX_SCORE,
    {
        let size = entry.size;
        let complexity = enhanced_info.complexity_score;
        let api_surface_len = enhanced_info.api_surface.len();
        let p = chars_of(entry.path.as_str());
        let s: u128 = if size > 20000 {
            20000
        } else {
            size as u128
        };
        let c: u128 = match complexity {
            Some(c) => (c as u128) * 3 / 10,
            None => 0,
        };
        let mut v: u128 = SCORE_SCALE as u128 + s + c + 1000 * (api_surface_len as u128);
        if has_text(p.as_slice(), "main") || has_text(p.as_slice(), "lib") {
            v = v + 10000;
        }
        if has_text(p.as_slice(), "core") {
            v = v + 5000;
        }
        if v > MAX_SCORE as u128 {
            MAX_SCORE
        } else {
            v as u64
        }
    }
}

} // verus!
