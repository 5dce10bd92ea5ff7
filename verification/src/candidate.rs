//! File candidates produced by the directory scan: eligibility by container
//! extension, the traversal-order flag, and the eligibility count.
use vstd::prelude::*;
use crate::probe::{target_extension, target_extension_bytes};
use crate::text::bytes_eq;

verus! {

/// One filesystem entry discovered by traversal: its full path, its
/// file-name stem, and its container extension, all as byte strings.
pub struct FileCandidate {
    pub path: Vec<u8>,
    pub stem: Vec<u8>,
    pub extension: Vec<u8>,
}

/// A candidate is eligible only if its extension equals the target
/// container extension exactly (case-sensitive).
pub open spec fn eligible(c: FileCandidate) -> bool {
    c.extension@ == target_extension()
}

impl FileCandidate {
    /// Decides eligibility by exact, case-sensitive extension match.
    pub fn is_eligible(&self) -> (r: bool)
        ensures
            r == eligible(*self),
    {
        let target = target_extension_bytes();
        bytes_eq(&self.extension, &target)
    }
}

/// Candidates in the order the orchestrator visits them: the discovery
/// order as handed in, or that order reversed when the flag is set.
pub open spec fn spec_ordered(list: Seq<FileCandidate>, reverse: bool) -> Seq<FileCandidate> {
    if reverse {
        list.reverse()
    } else {
        list
    }
}

/// Applies the reverse-order flag to the discovered sequence. This affects
/// only the visiting order, never per-file handling.
pub fn apply_order(list: Vec<FileCandidate>, reverse: bool) -> (r: Vec<FileCandidate>)
    ensures
        r@ == spec_ordered(list@, reverse),
{
    if !reverse {
        return list;
    }
    let ghost orig = list@;
    let mut src = list;
    let mut r: Vec<FileCandidate> = Vec::new();
    while src.len() > 0
        invariant
            r@.len() <= orig.len(),
            src@ == orig.subrange(0, orig.len() - r@.len()),
            forall|j: int| 0 <= j < r@.len() ==> r@[j] == orig[orig.len() - 1 - j],
        decreases src@.len(),
    {
        let ghost before = src@;
        let x = src.pop().unwrap();
        r.push(x);
        proof {
            assert(before.drop_last() =~= orig.subrange(0, orig.len() - r@.len()));
        }
    }
    proof {
        if orig.len() == 0 {
            assert(r@ =~= orig.reverse());
        } else {
            assert(r@ =~= orig.reverse());
        }
    }
    r
}

/// How many of the candidates are eligible: the number that will reach the
/// probe stage.
pub open spec fn eligible_count(s: Seq<FileCandidate>) -> nat
    decreases s.len(),
{
    if s.len() == 0 {
        0
    } else {
        eligible_count(s.drop_last()) + if eligible(s.last()) {
            1nat
        } else {
            0nat
        }
    }
}

/// Counts the candidates whose extension matches the target exactly.
pub fn count_eligible(list: &Vec<FileCandidate>) -> (n: usize)
    ensures
        n == eligible_count(list@),
{
    let mut n: usize = 0;
    let mut i: usize = 0;
    let len = list.len();
    while i < len
        invariant
            len == list@.len(),
            i <= len,
            n <= i,
            n == eligible_count(list@.subrange(0, i as int)),
        decreases len - i,
    {
        let e = list[i].is_eligible();
        proof {
            let prefix = list@.subrange(0, i + 1);
            assert(prefix.drop_last() =~= list@.subrange(0, i as int));
            assert(prefix.last() == list@[i as int]);
        }
        if e {
            n += 1;
        }
        i += 1;
    }
    proof {
        assert(list@.subrange(0, list@.len() as int) =~= list@);
    }
    n
}

/// Of candidates, exactly the eligible ones reach the probe stage: the
/// eligible and the ineligible together account for the whole sequence.
pub proof fn lemma_eligible_partition(s: Seq<FileCandidate>)
    ensures
        eligible_count(s) + ineligible_count(s) == s.len(),
    decreases s.len(),
{
    if s.len() > 0 {
        lemma_eligible_partition(s.drop_last());
    }
}

/// How many of the candidates are not eligible.
pub open spec fn ineligible_count(s: Seq<FileCandidate>) -> nat
    decreases s.len(),
{
    if s.len() == 0 {
        0
    } else {
        ineligible_count(s.drop_last()) + if eligible(s.last()) {
            0nat
        } else {
            1nat
        }
    }
}

} // verus!
