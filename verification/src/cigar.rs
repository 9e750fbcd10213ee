use vstd::prelude::*;

use vstd::slice::slice_subrange;

verus! {

/// CIGAR byte for a run position that matches.
pub const CIGAR_MATCH: u8 = 77;

/// CIGAR byte for a run position that mismatches.
pub const CIGAR_MISMATCH: u8 = 88;

/// CIGAR byte for an insertion: a position of the text alone.
pub const CIGAR_INSERTION: u8 = 73;

/// CIGAR byte for a deletion: a position of the pattern alone.
pub const CIGAR_DELETION: u8 = 68;

/// The engine writes its operation buffer once per alignment and marks the
/// valid part with a begin and an end offset; only `[begin, end)` may be
/// read. This returns that window of `ops`, or `None` where the offsets do
/// not describe a window inside the buffer.
pub fn cigar_window<'a>(ops: &'a [u8], begin_offset: usize, end_offset: usize) -> (r: Option<
    &'a [u8],
>)
    ensures
        r is Some <==> begin_offset <= end_offset && end_offset <= ops@.len(),
        (r matches Some(w) ==> w@ == ops@.subrange(begin_offset as int, end_offset as int)),
{
    if begin_offset <= end_offset && end_offset <= ops.len() {
        Some(slice_subrange(ops, begin_offset, end_offset))
    } else {
        None
    }
}

/// How many positions of `s` hold the byte `op`.
pub open spec fn count_op(s: Seq<u8>, op: u8) -> nat
    decreases s.len(),
{
    if s.len() == 0 {
        0
    } else {
        count_op(s.drop_last(), op) + (if s.last() == op {
            1nat
        } else {
            0nat
        })
    }
}

/// Whether a byte is one of the four CIGAR operations.
pub open spec fn is_cigar_op(b: u8) -> bool {
    b == CIGAR_MATCH || b == CIGAR_MISMATCH || b == CIGAR_INSERTION || b == CIGAR_DELETION
}

/// How many positions of `s` hold none of the four CIGAR operations.
pub open spec fn count_other(s: Seq<u8>) -> nat
    decreases s.len(),
{
    if s.len() == 0 {
        0
    } else {
        count_other(s.drop_last()) + (if is_cigar_op(s.last()) {
            0nat
        } else {
            1nat
        })
    }
}

/// The four operation counts and the count of unknown bytes partition the
/// operation buffer: together they account for every position once.
pub proof fn lemma_counts_partition(s: Seq<u8>)
    ensures
        count_op(s, CIGAR_MATCH) + count_op(s, CIGAR_MISMATCH) + count_op(s, CIGAR_INSERTION)
            + count_op(s, CIGAR_DELETION) + count_other(s) == s.len(),
    decreases s.len(),
{
    if s.len() > 0 {
        lemma_counts_partition(s.drop_last());
    }
}

/// Per-operation counts of one alignment's operation buffer.
#[derive(Debug, Clone, PartialEq, Eq, Structural)]
pub struct CigarCounts {
    pub matches: usize,
    pub mismatches: usize,
    pub insertions: usize,
    pub deletions: usize,
    pub unknown: usize,
}

/// Count each CIGAR operation across an operation buffer. Bytes that are
/// no operation are counted as unknown, so the five counts always sum to
/// the buffer's length.
pub fn count_operations(cigar: &[u8]) -> (r: CigarCounts)
    ensures
        r.matches == count_op(cigar@, CIGAR_MATCH),
        r.mismatches == count_op(cigar@, CIGAR_MISMATCH),
        r.insertions == count_op(cigar@, CIGAR_INSERTION),
        r.deletions == count_op(cigar@, CIGAR_DELETION),
        r.unknown == count_other(cigar@),
        r.matches + r.mismatches + r.insertions + r.deletions + r.unknown == cigar@.len(),
{
    let mut counts = CigarCounts { matches: 0, mismatches: 0, insertions: 0, deletions: 0, unknown: 0 };
    let mut i: usize = 0;
    proof {
        assert(cigar@.subrange(0, 0) =~= Seq::<u8>::empty());
    }
    while i < cigar.len()
        invariant
            i <= cigar@.len(),
            counts.matches == count_op(cigar@.subrange(0, i as int), CIGAR_MATCH),
            counts.mismatches == count_op(cigar@.subrange(0, i as int), CIGAR_MISMATCH),
            counts.insertions == count_op(cigar@.subrange(0, i as int), CIGAR_INSERTION),
            counts.deletions == count_op(cigar@.subrange(0, i as int), CIGAR_DELETION),
            counts.unknown == count_other(cigar@.subrange(0, i as int)),
            counts.matches + counts.mismatches + counts.insertions + counts.deletions
                + counts.unknown == i,
        decreases cigar@.len() - i,
    {
        let b = cigar[i];
        proof {
            let pre = cigar@.subrange(0, i as int);
            let post = cigar@.subrange(0, i + 1);
            assert(post.drop_last() =~= pre);
            assert(post.last() == cigar@[i as int]);
        }
        if b == CIGAR_MATCH {
            counts.matches = counts.matches + 1;
        } else if b == CIGAR_MISMATCH {
            counts.mismatches = counts.mismatches + 1;
        } else if b == CIGAR_INSERTION {
            counts.insertions = counts.insertions + 1;
        } else if b == CIGAR_DELETION {
            counts.deletions = counts.deletions + 1;
        } else {
            counts.unknown = counts.unknown + 1;
        }
        i = i + 1;
    }
    proof {
        assert(cigar@.subrange(0, cigar@.len() as int) =~= cigar@);
    }
    counts
}

impl CigarCounts {
    /// How many pattern positions the counted operations consume: matches
    /// and mismatches consume one each, and a deletion consumes a pattern
    /// position with no text counterpart.
    pub fn pattern_extent(&self) -> (r: usize)
        requires
            self.matches + self.mismatches + self.deletions <= usize::MAX,
        ensures
            r == self.matches + self.mismatches + self.deletions,
    {
        self.matches + self.mismatches + self.deletions
    }

    /// How many text positions the counted operations consume: matches and
    /// mismatches consume one each, and an insertion consumes a text
    /// position with no pattern counterpart.
    pub fn text_extent(&self) -> (r: usize)
        requires
            self.matches + self.mismatches + self.insertions <= usize::MAX,
        ensures
            r == self.matches + self.mismatches + self.insertions,
    {
        self.matches + self.mismatches + self.insertions
    }
}

} // verus!
