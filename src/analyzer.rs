//! The content analyzer: the entry points that profile one file's text.

use vstd::prelude::*;

verus! {

/// Analyzes the text of source files. It holds no state: every result is a
/// function of the arguments.
pub struct ContentAnalyzer;

impl ContentAnalyzer {
    pub fn new() -> (r: ContentAnalyzer)
        ensures
            r == ContentAnalyzer,
    {
        ContentAnalyzer
    }
}

} // verus!
