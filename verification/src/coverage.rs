//! The coverage dataset model and its translation into line-hit maps.
//!
//! A dataset holds, per traced source file, a collection of per-line
//! statistics. Only the line-hit kind is representable in the report
//! format; other kinds contribute nothing to a file's line map and are
//! skipped without failing the translation.

use std::collections::HashMap;
use vstd::prelude::*;

verus! {

/// One per-line coverage statistic. Only `Line` carries a hit count the
/// report format can represent; the other kinds have no slot in it.
pub enum CoverageStat {
    /// The line was executed the given number of times.
    Line(usize),
    /// Branch coverage; not representable in the report format.
    Branch,
    /// Condition coverage; not representable in the report format.
    Condition,
}

/// One traced statistic: a 1-based line number and the statistic observed
/// on that line.
pub struct Trace {
    pub line: usize,
    pub stat: CoverageStat,
}

/// The coverage traced for one source file.
pub struct FileCoverage {
    /// The file's path as the instrumentation recorded it.
    pub path: String,
    /// The statistics observed for this file, in recording order.
    pub traces: Vec<Trace>,
}

/// A coverage dataset: the traced source files, each with its statistics.
pub struct CoverageDataset {
    pub files: Vec<FileCoverage>,
}

/// The line-hit map of a sequence of traces: each `Line` statistic binds
/// its line number to its hit count, later statistics overriding earlier
/// ones on the same line; the other statistic kinds bind nothing.
pub open spec fn line_map_of(traces: Seq<Trace>) -> Map<usize, usize>
    decreases traces.len(),
{
    if traces.len() == 0 {
        Map::empty()
    } else {
        let m = line_map_of(traces.drop_last());
        match traces.last().stat {
            CoverageStat::Line(hits) => m.insert(traces.last().line, hits),
            CoverageStat::Branch => m,
            CoverageStat::Condition => m,
        }
    }
}

/// Every line number present in a line-hit map was observed in the traces
/// it was built from, with a line-hit statistic on that very line: the
/// translation invents no lines.
pub proof fn lemma_line_map_observed(traces: Seq<Trace>, l: usize)
    requires
        line_map_of(traces).contains_key(l),
    ensures
        exists|i: int|
            0 <= i < traces.len() && #[trigger] traces[i].line == l && traces[i].stat is Line,
    decreases traces.len(),
{
    if traces.len() > 0 {
        let last = traces.len() - 1;
        let found_last = traces[last].stat is Line && traces[last].line == l;
        if !found_last {
            lemma_line_map_observed(traces.drop_last(), l);
            let i = choose|i: int|
                0 <= i < traces.drop_last().len() && #[trigger] traces.drop_last()[i].line == l
                    && traces.drop_last()[i].stat is Line;
            assert(traces[i].line == l && traces[i].stat is Line);
        }
    }
}

/// Folds a file's traces into its line-hit map, skipping every statistic
/// kind the report format cannot represent.
pub fn build_line_map(traces: &Vec<Trace>) -> (m: HashMap<usize, usize>)
    ensures
        m@ == line_map_of(traces@),
{
    let mut m: HashMap<usize, usize> = HashMap::new();
    let n = traces.len();
    let mut i: usize = 0;
    proof {
        assert(traces@.take(0) =~= Seq::<Trace>::empty());
    }
    while i < n
        invariant
            i <= n,
            n == traces@.len(),
            m@ == line_map_of(traces@.take(i as int)),
        decreases n - i,
    {
        match traces[i].stat {
            CoverageStat::Line(hits) => {
                m.insert(traces[i].line, hits);
            },
            CoverageStat::Branch => {},
            CoverageStat::Condition => {},
        }
        proof {
            assert(traces@.take(i as int + 1).drop_last() =~= traces@.take(i as int));
            assert(traces@.take(i as int + 1).last() == traces@[i as int]);
        }
        i += 1;
    }
    proof {
        assert(traces@.take(n as int) =~= traces@);
    }
    m
}

} // verus!
