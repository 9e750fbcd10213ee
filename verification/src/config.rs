use vstd::prelude::*;

verus! {

/// Distance metric for alignment.
///
/// Exactly one variant is active at a time; the variant decides which
/// penalty fields the engine reads. All penalties are signed integers.
#[derive(Debug, Clone, PartialEq, Eq, Structural)]
pub enum Distance {
    Edit,
    GapAffine {
        mismatch: i32,
        gap_opening: i32,
        gap_extension: i32,
    },
    GapAffine2p {
        mismatch: i32,
        gap_opening1: i32,
        gap_extension1: i32,
        gap_opening2: i32,
        gap_extension2: i32,
    },
}

/// The single-byte code that stands for each metric in serialized form.
pub open spec fn distance_code(d: Distance) -> u8 {
    match d {
        Distance::Edit => 0,
        Distance::GapAffine { .. } => 1,
        Distance::GapAffine2p { .. } => 2,
    }
}

/// The metric that each byte code stands for, with all penalties zeroed:
/// the code alone does not carry penalty values. Codes above 2 stand for
/// no metric.
pub open spec fn distance_of_code(code: u8) -> Option<Distance> {
    if code == 0 {
        Some(Distance::Edit)
    } else if code == 1 {
        Some(Distance::GapAffine { mismatch: 0, gap_opening: 0, gap_extension: 0 })
    } else if code == 2 {
        Some(
            Distance::GapAffine2p {
                mismatch: 0,
                gap_opening1: 0,
                gap_extension1: 0,
                gap_opening2: 0,
                gap_extension2: 0,
            },
        )
    } else {
        None
    }
}

impl Distance {
    /// Convert to a one-byte code for binary serialization.
    pub fn to_u8(&self) -> (r: u8)
        ensures
            r == distance_code(*self),
    {
        match self {
            Distance::Edit => 0,
            Distance::GapAffine { .. } => 1,
            Distance::GapAffine2p { .. } => 2,
        }
    }

    /// Parse a one-byte code written by `to_u8`.
    ///
    /// Only the discriminant is stored in the code, so the penalty fields of
    /// `GapAffine` and `GapAffine2p` come back zeroed: round-tripping a
    /// populated metric through the byte code is lossy by design.
    pub fn from_u8(code: u8) -> (r: Result<Distance, String>)
        ensures
            r is Ok <==> code <= 2,
            (r matches Ok(d) ==> distance_of_code(code) == Some(d)),
            (r matches Err(m) ==> m@ == "Invalid distance code"@),
    {
        match code {
            0 => Ok(Distance::Edit),
            1 => Ok(Distance::GapAffine { mismatch: 0, gap_opening: 0, gap_extension: 0 }),
            2 => Ok(
                Distance::GapAffine2p {
                    mismatch: 0,
                    gap_opening1: 0,
                    gap_extension1: 0,
                    gap_opening2: 0,
                    gap_extension2: 0,
                },
            ),
            _ => Err("Invalid distance code".to_owned()),
        }
    }
}

/// Every valid byte code survives a decode/encode round trip: decoding a
/// code in `{0, 1, 2}` yields a metric whose code is the one decoded.
pub proof fn lemma_distance_code_round_trip(code: u8)
    requires
        code <= 2,
    ensures
        distance_of_code(code) matches Some(d) && distance_code(d) == code,
{
}

/// Encoding and then decoding a metric keeps the variant but zeroes every
/// penalty field: the byte code carries the discriminant alone, so the
/// round trip is lossy for populated `GapAffine` and `GapAffine2p` values.
pub proof fn lemma_distance_round_trip_lossy(d: Distance)
    ensures
        distance_of_code(distance_code(d)) matches Some(z) && distance_code(z) == distance_code(d),
        d is Edit ==> distance_of_code(distance_code(d)) == Some(d),
        d is GapAffine ==> distance_of_code(distance_code(d)) == Some(
            Distance::GapAffine { mismatch: 0, gap_opening: 0, gap_extension: 0 },
        ),
        d is GapAffine2p ==> distance_of_code(distance_code(d)) == Some(
            Distance::GapAffine2p {
                mismatch: 0,
                gap_opening1: 0,
                gap_extension1: 0,
                gap_opening2: 0,
                gap_extension2: 0,
            },
        ),
{
}

/// Pruning heuristic for the engine's search.
///
/// At most one primary strategy is selected per configuration call, though
/// the engine itself stores active strategies as a bitmask beside one shared
/// parameter block. Where `band_min_k` and `band_max_k` are both present the
/// caller is responsible for `band_min_k <= band_max_k`; the engine does not
/// enforce it.
#[derive(Debug, Clone, PartialEq, Eq, Structural)]
pub enum HeuristicStrategy {
    NoHeuristic,
    BandedStatic {
        band_min_k: i32,
        band_max_k: i32,
    },
    BandedAdaptive {
        band_min_k: i32,
        band_max_k: i32,
        score_steps: i32,
    },
    WFAdaptive {
        min_wavefront_length: i32,
        max_distance_threshold: i32,
        score_steps: i32,
    },
    XDrop {
        xdrop: i32,
        score_steps: i32,
    },
    ZDrop {
        zdrop: i32,
        score_steps: i32,
    },
    WFMash {
        min_wavefront_length: i32,
        max_distance_threshold: i32,
        score_steps: i32,
    },
}

/// Whether the engine computed only a score or a full alignment trace.
#[derive(Debug, Clone, PartialEq, Eq, Structural)]
pub enum AlignmentScope {
    ComputeScore,
    Alignment,
    Undefined,
}

/// Whether the alignment consumes both sequences end to end or leaves
/// prefixes and suffixes unaligned.
#[derive(Debug, Clone, PartialEq, Eq, Structural)]
pub enum AlignmentSpan {
    End2End,
    EndsFree {
        pattern_begin_free: i32,
        pattern_end_free: i32,
        text_begin_free: i32,
        text_end_free: i32,
    },
    Undefined,
}

/// The engine's buffer-allocation strategy. `Ultralow` is known not to work
/// reliably, so freshly built configurations pin `High`.
#[derive(Debug, Clone, PartialEq, Eq, Structural)]
pub enum MemoryMode {
    High,
    Medium,
    Low,
    Ultralow,
    Undefined,
}

/// Status of an alignment run, decoded from the engine's integer status
/// code. Non-success statuses are ordinary return values, not failures of
/// this layer; `Undefined` stands for any unmapped code and must never be
/// taken for success.
#[derive(Debug, Clone, PartialEq, Eq, Structural)]
pub enum AlignmentStatus {
    Completed,
    Partial,
    MaxStepsReached,
    OOM,
    Unattainable,
    Undefined,
}

impl AlignmentStatus {
    /// How far this status is from a full, successful alignment:
    /// `Completed` outranks `Partial`, which outranks everything else.
    pub open spec fn spec_rank(self) -> u32 {
        match self {
            AlignmentStatus::Completed => 2,
            AlignmentStatus::Partial => 1,
            _ => 0,
        }
    }

    /// Rank statuses by how complete the alignment is: `Completed` (2)
    /// above `Partial` (1) above every other status (0).
    pub fn rank(&self) -> (r: u32)
        ensures
            r == self.spec_rank(),
    {
        match self {
            AlignmentStatus::Completed => 2,
            AlignmentStatus::Partial => 1,
            _ => 0,
        }
    }
}

} // verus!
