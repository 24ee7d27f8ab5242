//! Aggregate statistics over recorded outcomes, for summaries and export.

use vstd::prelude::*;
use crate::engine::IoctlDiscovery;
use crate::interpret::Interpretation;
use crate::outcome::IoctlResult;

verus! {

/// How many of the results are valid (not NotExist), not dangerous, and of
/// this type.
pub open spec fn spec_type_score(results: Seq<IoctlResult>, ty: u8) -> nat
    decreases results.len(),
{
    if results.len() == 0 {
        0
    } else {
        spec_type_score(results.drop_last(), ty) + if !(results.last().interpretation is NotExist)
            && !results.last().is_potentially_dangerous && results.last().ty == ty {
            1nat
        } else {
            0nat
        }
    }
}

/// A type's score never exceeds the number of results.
proof fn lemma_type_score_le_len(results: Seq<IoctlResult>, ty: u8)
    ensures
        spec_type_score(results, ty) <= results.len(),
    decreases results.len(),
{
    if results.len() > 0 {
        lemma_type_score_le_len(results.drop_last(), ty);
    }
}

/// How many of the results have this interpretation.
pub open spec fn spec_interp_count(results: Seq<IoctlResult>, v: Interpretation) -> nat
    decreases results.len(),
{
    if results.len() == 0 {
        0
    } else {
        spec_interp_count(results.drop_last(), v) + if results.last().interpretation == v {
            1nat
        } else {
            0nat
        }
    }
}

/// How many of the results probed a deny-listed type.
pub open spec fn spec_dangerous_count(results: Seq<IoctlResult>) -> nat
    decreases results.len(),
{
    if results.len() == 0 {
        0
    } else {
        spec_dangerous_count(results.drop_last()) + if results.last().is_potentially_dangerous {
            1nat
        } else {
            0nat
        }
    }
}

/// An interpretation count never exceeds the number of results.
proof fn lemma_interp_count_le_len(results: Seq<IoctlResult>, v: Interpretation)
    ensures
        spec_interp_count(results, v) <= results.len(),
    decreases results.len(),
{
    if results.len() > 0 {
        lemma_interp_count_le_len(results.drop_last(), v);
    }
}

/// The dangerous count never exceeds the number of results.
proof fn lemma_dangerous_count_le_len(results: Seq<IoctlResult>)
    ensures
        spec_dangerous_count(results) <= results.len(),
    decreases results.len(),
{
    if results.len() > 0 {
        lemma_dangerous_count_le_len(results.drop_last());
    }
}

/// Aggregate statistics over one outcome list.
#[derive(Debug, Clone, Copy, PartialEq, Eq, Structural)]
pub struct ScanStatistics {
    /// Number of probed positions.
    pub total: usize,
    /// Positions whose command does not exist.
    pub not_existent: usize,
    /// Positions whose command exists in some form.
    pub potentially_existent: usize,
    /// Positions on deny-listed types.
    pub dangerous: usize,
    /// Positions whose probe succeeded outright.
    pub successful: usize,
}

/// Compute the aggregate statistics of an outcome list: the totals per
/// interpretation class used by summaries and by the export document.
pub fn summarize(results: &Vec<IoctlResult>) -> (r: ScanStatistics)
    ensures
        r.total == results@.len(),
        r.not_existent == spec_interp_count(results@, Interpretation::NotExist),
        r.potentially_existent == results@.len() - spec_interp_count(
            results@,
            Interpretation::NotExist,
        ),
        r.dangerous == spec_dangerous_count(results@),
        r.successful == spec_interp_count(results@, Interpretation::Success),
{
    let mut not_existent: usize = 0;
    let mut dangerous: usize = 0;
    let mut successful: usize = 0;
    let mut i: usize = 0;
    while i < results.len()
        invariant
            i <= results@.len(),
            not_existent == spec_interp_count(
                results@.subrange(0, i as int),
                Interpretation::NotExist,
            ),
            dangerous == spec_dangerous_count(results@.subrange(0, i as int)),
            successful == spec_interp_count(
                results@.subrange(0, i as int),
                Interpretation::Success,
            ),
        decreases results@.len() - i,
    {
        proof {
            lemma_interp_count_le_len(results@.subrange(0, i as int), Interpretation::NotExist);
            lemma_interp_count_le_len(results@.subrange(0, i as int), Interpretation::Success);
            lemma_dangerous_count_le_len(results@.subrange(0, i as int));
        }
        let rec = &results[i];
        if matches!(rec.interpretation, Interpretation::NotExist) {
            not_existent += 1;
        }
        if rec.is_potentially_dangerous {
            dangerous += 1;
        }
        if matches!(rec.interpretation, Interpretation::Success) {
            successful += 1;
        }
        proof {
            assert(results@.subrange(0, i + 1).drop_last() =~= results@.subrange(0, i as int));
            assert(results@.subrange(0, i + 1).last() == results@[i as int]);
        }
        i += 1;
    }
    proof {
        assert(results@.subrange(0, results@.len() as int) =~= results@);
        lemma_interp_count_le_len(results@, Interpretation::NotExist);
    }
    ScanStatistics {
        total: results.len(),
        not_existent,
        potentially_existent: results.len() - not_existent,
        dangerous,
        successful,
    }
}

/// Whether a record is a safe success: the probe succeeded outright and the
/// type is not deny-listed. These are the outcomes a profile template is
/// built from.
pub open spec fn spec_safe_success(rec: IoctlResult) -> bool {
    rec.interpretation is Success && !rec.is_potentially_dangerous
}

/// The safe successes among the results, in recorded order.
pub open spec fn spec_safe_successes(results: Seq<IoctlResult>) -> Seq<IoctlResult>
    decreases results.len(),
{
    if results.len() == 0 {
        Seq::empty()
    } else {
        spec_safe_successes(results.drop_last()) + if spec_safe_success(results.last()) {
            seq![results.last()]
        } else {
            Seq::empty()
        }
    }
}

/// Select the outcomes whose probe succeeded outright on a type that is not
/// deny-listed, keeping their order.
pub fn successful_safe(results: &Vec<IoctlResult>) -> (r: Vec<IoctlResult>)
    ensures
        r@ == spec_safe_successes(results@),
{
    let mut out: Vec<IoctlResult> = Vec::new();
    let mut i: usize = 0;
    while i < results.len()
        invariant
            i <= results@.len(),
            out@ == spec_safe_successes(results@.subrange(0, i as int)),
        decreases results@.len() - i,
    {
        let rec = &results[i];
        if matches!(rec.interpretation, Interpretation::Success) && !rec.is_potentially_dangerous {
            out.push(rec.clone());
        }
        proof {
            assert(results@.subrange(0, i + 1).drop_last() =~= results@.subrange(0, i as int));
            assert(results@.subrange(0, i + 1).last() == results@[i as int]);
        }
        i += 1;
    }
    proof {
        assert(results@.subrange(0, results@.len() as int) =~= results@);
    }
    out
}

impl IoctlDiscovery {
    /// The type with the most valid, non-dangerous outcomes: a type with a
    /// maximal positive score, or nothing when every score is zero.
    pub fn find_best_type(&self) -> (r: Option<u8>)
        ensures
            r matches Some(t) ==> spec_type_score(self.results@, t) > 0 && (forall|u: u8|
                spec_type_score(self.results@, u) <= spec_type_score(self.results@, t)),
            r is None ==> forall|u: u8| spec_type_score(self.results@, u) == 0,
    {
        let mut best: Option<u8> = None;
        let mut best_score: usize = 0;
        let mut t: u16 = 0;
        while t <= 255
            invariant
                t <= 256,
                best is None ==> best_score == 0 && (forall|u: u8|
                    (u as int) < t ==> spec_type_score(self.results@, u) == 0),
                best matches Some(bt) ==> {
                    &&& best_score == spec_type_score(self.results@, bt)
                    &&& best_score > 0
                    &&& (bt as int) < t
                    &&& (forall|u: u8|
                        (u as int) < t ==> spec_type_score(self.results@, u) <= best_score)
                },
            decreases 256 - t,
        {
            let byte: u8 = t as u8;
            let score = self.type_score(byte);
            if score > best_score {
                best = Some(byte);
                best_score = score;
            }
            t += 1;
        }
        best
    }

    /// Count the valid, non-dangerous outcomes recorded for one type.
    fn type_score(&self, ty: u8) -> (r: usize)
        ensures
            r == spec_type_score(self.results@, ty),
    {
        let mut score: usize = 0;
        let mut i: usize = 0;
        while i < self.results.len()
            invariant
                i <= self.results@.len(),
                score == spec_type_score(self.results@.subrange(0, i as int), ty),
            decreases self.results@.len() - i,
        {
            proof {
                lemma_type_score_le_len(self.results@.subrange(0, i as int), ty);
            }
            let rec = &self.results[i];
            if !matches!(rec.interpretation, Interpretation::NotExist)
                && !rec.is_potentially_dangerous && rec.ty == ty {
                score += 1;
            }
            proof {
                assert(self.results@.subrange(0, i + 1).drop_last() =~= self.results@.subrange(
                    0,
                    i as int,
                ));
                assert(self.results@.subrange(0, i + 1).last() == self.results@[i as int]);
            }
            i += 1;
        }
        proof {
            assert(self.results@.subrange(0, self.results@.len() as int) =~= self.results@);
        }
        score
    }

    /// The ascending sequence numbers below `n` for which a valid,
    /// non-dangerous outcome of this type was recorded.
    pub open spec fn spec_interesting_upto(self, ty: u8, n: nat) -> Seq<u8>
        decreases n,
    {
        if n == 0 {
            Seq::empty()
        } else {
            self.spec_interesting_upto(ty, (n - 1) as nat) + if exists|j: int|
                #![trigger self.results@[j]]
                0 <= j < self.results@.len() && self.results@[j].ty == ty && self.results@[j].nr
                    == (n - 1) as u8 && !(self.results@[j].interpretation is NotExist)
                    && !self.results@[j].is_potentially_dangerous {
                seq![(n - 1) as u8]
            } else {
                Seq::empty()
            }
        }
    }

    /// The sequence numbers of this type that showed a valid,
    /// non-dangerous outcome, in ascending order without duplicates.
    pub fn get_interesting_nrs(&self, ty: u8) -> (r: Vec<u8>)
        ensures
            r@ == self.spec_interesting_upto(ty, 256),
    {
        let mut nrs: Vec<u8> = Vec::new();
        let mut b: u16 = 0;
        while b <= 255
            invariant
                b <= 256,
                nrs@ == self.spec_interesting_upto(ty, b as nat),
            decreases 256 - b,
        {
            let byte: u8 = b as u8;
            let mut found = false;
            let mut j: usize = 0;
            while j < self.results.len()
                invariant
                    j <= self.results@.len(),
                    found == exists|k: int|
                        #![trigger self.results@[k]]
                        0 <= k < j && self.results@[k].ty == ty && self.results@[k].nr == byte
                            && !(self.results@[k].interpretation is NotExist)
                            && !self.results@[k].is_potentially_dangerous,
                decreases self.results@.len() - j,
            {
                let rec = &self.results[j];
                if rec.ty == ty && rec.nr == byte && !matches!(
                    rec.interpretation,
                    Interpretation::NotExist,
                ) && !rec.is_potentially_dangerous {
                    found = true;
                }
                j += 1;
            }
            if found {
                nrs.push(byte);
            }
            proof {
                assert(nrs@ =~= self.spec_interesting_upto(ty, (b + 1) as nat));
            }
            b += 1;
        }
        nrs
    }
}

} // verus!
