//! Pattern analysis over recorded outcomes: sequence numbers are grouped by
//! interpretation, and consecutive runs within each sizable group are
//! reported as ranges.

use vstd::prelude::*;
use crate::interpret::Interpretation;
use crate::outcome::IoctlResult;

verus! {

/// One detected pattern: the interpretation shared by a group of sequence
/// numbers, and the run ranges found in it, as flat (start, end) pairs.
#[derive(Debug, Clone)]
pub struct PatternEntry {
    /// The interpretation this group shares.
    pub interpretation: Interpretation,
    /// Flattened (start, end) pairs of consecutive runs of length at least
    /// two.
    pub ranges: Vec<u8>,
}

/// The ascending sequence of all sequence numbers below `n` that occur in
/// the results with this interpretation.
pub open spec fn spec_group_upto(
    results: Seq<IoctlResult>,
    v: Interpretation,
    n: nat,
) -> Seq<u8>
    decreases n,
{
    if n == 0 {
        Seq::empty()
    } else {
        spec_group_upto(results, v, (n - 1) as nat) + if exists|j: int|
            0 <= j < results.len() && results[j].interpretation == v && results[j].nr == (n - 1)
                as u8 {
            seq![(n - 1) as u8]
        } else {
            Seq::empty()
        }
    }
}

/// The ascending sequence of all sequence numbers that occur in the results
/// with this interpretation.
pub open spec fn spec_group(results: Seq<IoctlResult>, v: Interpretation) -> Seq<u8> {
    spec_group_upto(results, v, 256)
}

/// The flattened (start, end) pairs of the maximal consecutive runs in an
/// ascending sequence, continuing a run that started at `start` and
/// currently ends at `prev`; runs of a single number are dropped.
pub open spec fn spec_ranges_from(nrs: Seq<u8>, i: int, start: u8, prev: u8) -> Seq<u8>
    decreases nrs.len() - i,
    when 0 <= i <= nrs.len()
{
    if i >= nrs.len() {
        if start != prev {
            seq![start, prev]
        } else {
            Seq::empty()
        }
    } else {
        let nr = nrs[i];
        if nr as int != prev as int + 1 {
            (if start != prev {
                seq![start, prev]
            } else {
                Seq::empty()
            }) + spec_ranges_from(nrs, i + 1, nr, nr)
        } else {
            spec_ranges_from(nrs, i + 1, start, nr)
        }
    }
}

/// The flattened (start, end) pairs of the maximal consecutive runs in an
/// ascending sequence; empty input gives no ranges.
pub open spec fn spec_ranges(nrs: Seq<u8>) -> Seq<u8> {
    if nrs.len() == 0 {
        Seq::empty()
    } else {
        spec_ranges_from(nrs, 1, nrs[0], nrs[0])
    }
}

/// Whether an interpretation class qualifies for a pattern entry: more than
/// three distinct sequence numbers, showing at least one consecutive run.
pub open spec fn spec_pattern_qualifies(results: Seq<IoctlResult>, v: Interpretation) -> bool {
    &&& spec_group(results, v).len() > 3
    &&& spec_ranges(spec_group(results, v)).len() > 0
}

/// Whether the patterns hold an entry for this interpretation class, with
/// exactly its run ranges.
pub open spec fn spec_pattern_stored(
    patterns: Seq<PatternEntry>,
    results: Seq<IoctlResult>,
    v: Interpretation,
) -> bool {
    exists|k: int|
        0 <= k < patterns.len() && (#[trigger] patterns[k]).interpretation == v && patterns[
            k
        ].ranges@ == spec_ranges(spec_group(results, v))
}

/// Pattern analyzer over recorded outcomes.
#[derive(Debug)]
pub struct PatternAnalyzer {
    /// The detected patterns, one entry per interpretation whose group was
    /// large enough and showed at least one run.
    pub patterns: Vec<PatternEntry>,
}

impl PatternAnalyzer {
    /// A fresh analyzer with no patterns.
    pub fn new() -> (r: Self)
        ensures
            r.patterns@.len() == 0,
    {
        PatternAnalyzer { patterns: Vec::new() }
    }

    /// The detected patterns.
    pub fn patterns(&self) -> (r: &Vec<PatternEntry>)
        ensures
            r == &self.patterns,
    {
        &self.patterns
    }

    /// Find consecutive number ranges in an ascending list: each maximal
    /// run of length at least two contributes its first and last number.
    pub fn find_consecutive_ranges(&self, nrs: &Vec<u8>) -> (r: Vec<u8>)
        ensures
            r@ == spec_ranges(nrs@),
    {
        let mut ranges: Vec<u8> = Vec::new();
        if nrs.len() == 0 {
            return ranges;
        }
        let mut start: u8 = nrs[0];
        let mut prev: u8 = nrs[0];
        let mut i: usize = 1;
        while i < nrs.len()
            invariant
                1 <= i <= nrs@.len(),
                spec_ranges(nrs@) == ranges@ + spec_ranges_from(nrs@, i as int, start, prev),
            decreases nrs@.len() - i,
        {
            let nr = nrs[i];
            if !(prev < 255 && nr == prev + 1) {
                proof {
                    assert(nr as int != prev as int + 1);
                }
                if start != prev {
                    ranges.push(start);
                    ranges.push(prev);
                }
                start = nr;
            }
            prev = nr;
            proof {
                assert(spec_ranges(nrs@) =~= ranges@ + spec_ranges_from(
                    nrs@,
                    i + 1,
                    start,
                    prev,
                ));
            }
            i += 1;
        }
        if start != prev {
            ranges.push(start);
            ranges.push(prev);
        }
        proof {
            assert(ranges@ =~= spec_ranges(nrs@));
        }
        ranges
    }

    /// Collect the ascending group of sequence numbers recorded with this
    /// interpretation.
    fn collect_group(&self, results: &Vec<IoctlResult>, v: Interpretation) -> (r: Vec<u8>)
        ensures
            r@ == spec_group(results@, v),
    {
        let mut group: Vec<u8> = Vec::new();
        let mut b: u16 = 0;
        while b <= 255
            invariant
                b <= 256,
                group@ == spec_group_upto(results@, v, b as nat),
            decreases 256 - b,
        {
            let byte: u8 = b as u8;
            let mut found = false;
            let mut j: usize = 0;
            while j < results.len()
                invariant
                    j <= results@.len(),
                    found == exists|k: int|
                        0 <= k < j && results@[k].interpretation == v && results@[k].nr == byte,
                decreases results@.len() - j,
            {
                if results[j].nr == byte && interpretation_eq(&results[j].interpretation, &v) {
                    found = true;
                }
                j += 1;
            }
            if found {
                group.push(byte);
            }
            proof {
                assert(group@ =~= spec_group_upto(results@, v, (b + 1) as nat));
            }
            b += 1;
        }
        group
    }

    /// Analyze outcomes for patterns: group the recorded sequence numbers
    /// by interpretation, and store one entry with its run ranges for
    /// exactly those interpretation classes that occur, have more than
    /// three distinct numbers and show at least one consecutive run.
    pub fn analyze_results(&mut self, results: &Vec<IoctlResult>)
        ensures
            forall|e: PatternEntry|
                final(self).patterns@.contains(e) ==> {
                    &&& spec_pattern_qualifies(results@, e.interpretation)
                    &&& e.ranges@ == spec_ranges(spec_group(results@, e.interpretation))
                },
            forall|v: Interpretation|
                (exists|j: int|
                    0 <= j < results@.len() && (#[trigger] results@[j]).interpretation == v)
                    && #[trigger] spec_pattern_qualifies(results@, v) ==> spec_pattern_stored(
                    final(self).patterns@,
                    results@,
                    v,
                ),
    {
        let mut patterns: Vec<PatternEntry> = Vec::new();
        // The distinct interpretations that occur, in first-occurrence
        // order.
        let mut seen: Vec<Interpretation> = Vec::new();
        let mut j: usize = 0;
        while j < results.len()
            invariant
                j <= results@.len(),
                forall|j2: int|
                    0 <= j2 < j ==> seen@.contains((#[trigger] results@[j2]).interpretation),
            decreases results@.len() - j,
        {
            let v = results[j].interpretation;
            let mut already = false;
            let mut k: usize = 0;
            while k < seen.len()
                invariant
                    k <= seen@.len(),
                    already ==> seen@.contains(v),
                decreases seen@.len() - k,
            {
                if interpretation_eq(&seen[k], &v) {
                    already = true;
                }
                k += 1;
            }
            if !already {
                seen.push(v);
            }
            proof {
                broadcast use vstd::seq_lib::lemma_seq_contains_after_push;
            }
            j += 1;
        }
        let mut s: usize = 0;
        while s < seen.len()
            invariant
                s <= seen@.len(),
                forall|j2: int|
                    0 <= j2 < results@.len() ==> seen@.contains(
                        (#[trigger] results@[j2]).interpretation,
                    ),
                forall|e: PatternEntry|
                    patterns@.contains(e) ==> {
                        &&& spec_pattern_qualifies(results@, e.interpretation)
                        &&& e.ranges@ == spec_ranges(spec_group(results@, e.interpretation))
                    },
                forall|k: int|
                    0 <= k < s && spec_pattern_qualifies(results@, #[trigger] seen@[k])
                        ==> spec_pattern_stored(patterns@, results@, seen@[k]),
            decreases seen@.len() - s,
        {
            let v = seen[s];
            let ghost patterns_before = patterns@;
            let group = self.collect_group(results, v);
            if group.len() > 3 {
                let ranges = self.find_consecutive_ranges(&group);
                if ranges.len() > 0 {
                    let entry = PatternEntry { interpretation: v, ranges };
                    patterns.push(entry);
                    proof {
                        broadcast use vstd::seq_lib::lemma_seq_contains_after_push;
                        assert(patterns@[patterns@.len() - 1].interpretation == v);
                        assert forall|k: int|
                            0 <= k < s + 1 && spec_pattern_qualifies(
                                results@,
                                #[trigger] seen@[k],
                            ) implies spec_pattern_stored(patterns@, results@, seen@[k]) by {
                            if k < s {
                                assert(spec_pattern_stored(patterns_before, results@, seen@[k]));
                                let w = choose|w: int|
                                    0 <= w < patterns_before.len() && (
                                    #[trigger] patterns_before[w]).interpretation == seen@[k]
                                        && patterns_before[w].ranges@ == spec_ranges(
                                        spec_group(results@, seen@[k]),
                                    );
                                assert(patterns@[w] == patterns_before[w]);
                            } else {
                                assert(patterns@[patterns@.len() - 1].ranges@ == spec_ranges(
                                    spec_group(results@, v),
                                ));
                            }
                        }
                    }
                }
            }
            s += 1;
        }
        proof {
            assert forall|v: Interpretation|
                (exists|j2: int|
                    0 <= j2 < results@.len() && (#[trigger] results@[j2]).interpretation == v)
                    && #[trigger] spec_pattern_qualifies(results@, v) implies spec_pattern_stored(
                patterns@,
                results@,
                v,
            ) by {
                let j2 = choose|j2: int|
                    0 <= j2 < results@.len() && (#[trigger] results@[j2]).interpretation == v;
                assert(seen@.contains(v));
                let k = choose|k: int| 0 <= k < seen@.len() && seen@[k] == v;
            }
        }
        self.patterns = patterns;
    }
}

/// Whether two interpretations are the same outcome (and the same errno,
/// for unknown errors).
pub fn interpretation_eq(a: &Interpretation, b: &Interpretation) -> (r: bool)
    ensures
        r == (a == b),
{
    match (a, b) {
        (Interpretation::NotExist, Interpretation::NotExist) => true,
        (Interpretation::Exists, Interpretation::Exists) => true,
        (Interpretation::Permission, Interpretation::Permission) => true,
        (Interpretation::Success, Interpretation::Success) => true,
        (Interpretation::Unknown(x), Interpretation::Unknown(y)) => x == y,
        _ => false,
    }
}

} // verus!
