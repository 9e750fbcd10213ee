use vstd::prelude::*;

use crate::attrs::spec_set_heuristic_block;
use crate::attrs::HeuristicAttributes;
use crate::attrs::DISTANCE_METRIC_EDIT;
use crate::attrs::DISTANCE_METRIC_GAP_AFFINE;
use crate::attrs::DISTANCE_METRIC_GAP_AFFINE_2P;
use crate::attrs::HEURISTIC_BANDED_ADAPTIVE;
use crate::attrs::HEURISTIC_NONE;
use crate::attrs::HEURISTIC_BANDED_STATIC;
use crate::attrs::HEURISTIC_WFADAPTIVE;
use crate::attrs::HEURISTIC_WFMASH;
use crate::attrs::HEURISTIC_XDROP;
use crate::attrs::HEURISTIC_ZDROP;
use crate::attrs::MEMORY_MODE_HIGH;
use crate::attrs::MEMORY_MODE_LOW;
use crate::attrs::MEMORY_MODE_MEDIUM;
use crate::attrs::MEMORY_MODE_ULTRALOW;
use crate::attrs::SCOPE_COMPUTE_ALIGNMENT;
use crate::attrs::SCOPE_COMPUTE_SCORE;
use crate::attrs::SPAN_END2END;
use crate::attrs::SPAN_ENDSFREE;
use crate::config::AlignmentScope;
use crate::config::AlignmentSpan;
use crate::config::AlignmentStatus;
use crate::config::Distance;
use crate::config::HeuristicStrategy;
use crate::config::MemoryMode;

verus! {

/// The status that each engine status code stands for. Every unmapped
/// code stands for `Undefined`.
pub open spec fn status_of_code(value: i32) -> AlignmentStatus {
    if value == 0 {
        AlignmentStatus::Completed
    } else if value == 1 {
        AlignmentStatus::Partial
    } else if value == -100 {
        AlignmentStatus::MaxStepsReached
    } else if value == -200 {
        AlignmentStatus::OOM
    } else if value == -300 {
        AlignmentStatus::Unattainable
    } else {
        AlignmentStatus::Undefined
    }
}

impl From<i32> for AlignmentStatus {
    /// Decode the engine's integer status code. Exactly `0`, `1`, `-100`,
    /// `-200` and `-300` map to typed statuses; anything else decodes to
    /// `Undefined` rather than failing.
    fn from(value: i32) -> (r: AlignmentStatus) {
        match value {
            0 => AlignmentStatus::Completed,
            1 => AlignmentStatus::Partial,
            -100 => AlignmentStatus::MaxStepsReached,
            -200 => AlignmentStatus::OOM,
            -300 => AlignmentStatus::Unattainable,
            _ => AlignmentStatus::Undefined,
        }
    }
}

impl vstd::std_specs::convert::FromSpecImpl<i32> for AlignmentStatus {
    open spec fn obeys_from_spec() -> bool {
        true
    }

    open spec fn from_spec(value: i32) -> AlignmentStatus {
        status_of_code(value)
    }
}

/// The scope that each engine discriminant stands for.
pub open spec fn scope_of_value(val: u32) -> AlignmentScope {
    if val == SCOPE_COMPUTE_ALIGNMENT {
        AlignmentScope::Alignment
    } else if val == SCOPE_COMPUTE_SCORE {
        AlignmentScope::ComputeScore
    } else {
        AlignmentScope::Undefined
    }
}

impl AlignmentScope {
    /// Decode the engine's alignment-scope discriminant; unmapped values
    /// decode to `Undefined`.
    pub fn from_scope(val: u32) -> (r: AlignmentScope)
        ensures
            r == scope_of_value(val),
    {
        if val == SCOPE_COMPUTE_ALIGNMENT {
            AlignmentScope::Alignment
        } else if val == SCOPE_COMPUTE_SCORE {
            AlignmentScope::ComputeScore
        } else {
            AlignmentScope::Undefined
        }
    }
}

/// The span that an engine alignment form stands for: the span
/// discriminant, and for an ends-free span the four free-end extents.
pub open spec fn span_of_form(
    span: u32,
    pattern_begin_free: i32,
    pattern_end_free: i32,
    text_begin_free: i32,
    text_end_free: i32,
) -> AlignmentSpan {
    if span == SPAN_END2END {
        AlignmentSpan::End2End
    } else if span == SPAN_ENDSFREE {
        AlignmentSpan::EndsFree {
            pattern_begin_free,
            pattern_end_free,
            text_begin_free,
            text_end_free,
        }
    } else {
        AlignmentSpan::Undefined
    }
}

impl AlignmentSpan {
    /// Decode the engine's alignment form: the span discriminant plus the
    /// four free-end extents, which are read only for an ends-free span.
    /// Unmapped discriminants decode to `Undefined`.
    pub fn from_form(
        span: u32,
        pattern_begin_free: i32,
        pattern_end_free: i32,
        text_begin_free: i32,
        text_end_free: i32,
    ) -> (r: AlignmentSpan)
        ensures
            r == span_of_form(
                span,
                pattern_begin_free,
                pattern_end_free,
                text_begin_free,
                text_end_free,
            ),
    {
        if span == SPAN_END2END {
            AlignmentSpan::End2End
        } else if span == SPAN_ENDSFREE {
            AlignmentSpan::EndsFree {
                pattern_begin_free,
                pattern_end_free,
                text_begin_free,
                text_end_free,
            }
        } else {
            AlignmentSpan::Undefined
        }
    }
}

/// The memory mode that each engine discriminant stands for.
pub open spec fn memory_mode_of_value(val: u32) -> MemoryMode {
    if val == MEMORY_MODE_HIGH {
        MemoryMode::High
    } else if val == MEMORY_MODE_MEDIUM {
        MemoryMode::Medium
    } else if val == MEMORY_MODE_LOW {
        MemoryMode::Low
    } else if val == MEMORY_MODE_ULTRALOW {
        MemoryMode::Ultralow
    } else {
        MemoryMode::Undefined
    }
}

impl MemoryMode {
    /// Decode the engine's memory-mode discriminant; unmapped values
    /// decode to `Undefined`.
    pub fn from_value(val: u32) -> (r: MemoryMode)
        ensures
            r == memory_mode_of_value(val),
    {
        if val == MEMORY_MODE_HIGH {
            MemoryMode::High
        } else if val == MEMORY_MODE_MEDIUM {
            MemoryMode::Medium
        } else if val == MEMORY_MODE_LOW {
            MemoryMode::Low
        } else if val == MEMORY_MODE_ULTRALOW {
            MemoryMode::Ultralow
        } else {
            MemoryMode::Undefined
        }
    }
}

/// The metric that the engine's penalty record stands for: the metric
/// discriminant plus the unified penalty fields the engine keeps. Any
/// unmapped discriminant falls back to `Edit`.
pub open spec fn distance_of_raw(
    metric: u32,
    mismatch: i32,
    gap_opening1: i32,
    gap_extension1: i32,
    gap_opening2: i32,
    gap_extension2: i32,
) -> Distance {
    if metric == DISTANCE_METRIC_EDIT {
        Distance::Edit
    } else if metric == DISTANCE_METRIC_GAP_AFFINE {
        Distance::GapAffine { mismatch, gap_opening: gap_opening1, gap_extension: gap_extension1 }
    } else if metric == DISTANCE_METRIC_GAP_AFFINE_2P {
        Distance::GapAffine2p { mismatch, gap_opening1, gap_extension1, gap_opening2, gap_extension2 }
    } else {
        Distance::Edit
    }
}

impl Distance {
    /// Decode the engine's configured metric from its penalty record: the
    /// discriminant picks the variant, and the engine's unified penalty
    /// fields fill it. An unmapped discriminant falls back to `Edit`.
    pub fn from_raw(
        metric: u32,
        mismatch: i32,
        gap_opening1: i32,
        gap_extension1: i32,
        gap_opening2: i32,
        gap_extension2: i32,
    ) -> (r: Distance)
        ensures
            r == distance_of_raw(
                metric,
                mismatch,
                gap_opening1,
                gap_extension1,
                gap_opening2,
                gap_extension2,
            ),
    {
        if metric == DISTANCE_METRIC_GAP_AFFINE {
            Distance::GapAffine {
                mismatch,
                gap_opening: gap_opening1,
                gap_extension: gap_extension1,
            }
        } else if metric == DISTANCE_METRIC_GAP_AFFINE_2P {
            Distance::GapAffine2p {
                mismatch,
                gap_opening1,
                gap_extension1,
                gap_opening2,
                gap_extension2,
            }
        } else {
            Distance::Edit
        }
    }
}

/// The list of strategies that a heuristic block stands for, one entry per
/// set flag bit, in the fixed precedence order Z-drop, X-drop, adaptive
/// band, static band, wavefront-adaptive, wfmash. Each entry is filled
/// from the one shared parameter block; in particular both drop variants
/// read the block's `zdrop` field, the engine's single "drop" store.
pub open spec fn spec_decode_heuristics(h: HeuristicAttributes) -> Seq<HeuristicStrategy> {
    let s = Seq::<HeuristicStrategy>::empty();
    let s = if h.strategy & HEURISTIC_ZDROP > 0 {
        s.push(
            HeuristicStrategy::ZDrop { zdrop: h.zdrop, score_steps: h.steps_between_cutoffs },
        )
    } else {
        s
    };
    let s = if h.strategy & HEURISTIC_XDROP > 0 {
        s.push(
            HeuristicStrategy::XDrop { xdrop: h.zdrop, score_steps: h.steps_between_cutoffs },
        )
    } else {
        s
    };
    let s = if h.strategy & HEURISTIC_BANDED_ADAPTIVE > 0 {
        s.push(
            HeuristicStrategy::BandedAdaptive {
                band_min_k: h.min_k,
                band_max_k: h.max_k,
                score_steps: h.steps_between_cutoffs,
            },
        )
    } else {
        s
    };
    let s = if h.strategy & HEURISTIC_BANDED_STATIC > 0 {
        s.push(HeuristicStrategy::BandedStatic { band_min_k: h.min_k, band_max_k: h.max_k })
    } else {
        s
    };
    let s = if h.strategy & HEURISTIC_WFADAPTIVE > 0 {
        s.push(
            HeuristicStrategy::WFAdaptive {
                min_wavefront_length: h.min_wavefront_length,
                max_distance_threshold: h.max_distance_threshold,
                score_steps: h.steps_between_cutoffs,
            },
        )
    } else {
        s
    };
    let s = if h.strategy & HEURISTIC_WFMASH > 0 {
        s.push(
            HeuristicStrategy::WFMash {
                min_wavefront_length: h.min_wavefront_length,
                max_distance_threshold: h.max_distance_threshold,
                score_steps: h.steps_between_cutoffs,
            },
        )
    } else {
        s
    };
    s
}

/// Decode a snapshot of the engine's heuristic block into the list of
/// active strategies, one per set flag bit, in the fixed precedence order
/// Z-drop, X-drop, adaptive band, static band, wavefront-adaptive, wfmash.
///
/// Parameters are shared across flag bits, so simultaneously active
/// strategies alias the same storage; both drop variants read the block's
/// `zdrop` field, which is the engine's single "drop" store.
pub fn decode_heuristics(h: &HeuristicAttributes) -> (r: Vec<HeuristicStrategy>)
    ensures
        r@ == spec_decode_heuristics(*h),
{
    let mut hs: Vec<HeuristicStrategy> = Vec::new();
    if h.strategy & HEURISTIC_ZDROP > 0 {
        hs.push(HeuristicStrategy::ZDrop { zdrop: h.zdrop, score_steps: h.steps_between_cutoffs });
    }
    if h.strategy & HEURISTIC_XDROP > 0 {
        hs.push(HeuristicStrategy::XDrop { xdrop: h.zdrop, score_steps: h.steps_between_cutoffs });
    }
    if h.strategy & HEURISTIC_BANDED_ADAPTIVE > 0 {
        hs.push(
            HeuristicStrategy::BandedAdaptive {
                band_min_k: h.min_k,
                band_max_k: h.max_k,
                score_steps: h.steps_between_cutoffs,
            },
        );
    }
    if h.strategy & HEURISTIC_BANDED_STATIC > 0 {
        hs.push(HeuristicStrategy::BandedStatic { band_min_k: h.min_k, band_max_k: h.max_k });
    }
    if h.strategy & HEURISTIC_WFADAPTIVE > 0 {
        hs.push(
            HeuristicStrategy::WFAdaptive {
                min_wavefront_length: h.min_wavefront_length,
                max_distance_threshold: h.max_distance_threshold,
                score_steps: h.steps_between_cutoffs,
            },
        );
    }
    if h.strategy & HEURISTIC_WFMASH > 0 {
        hs.push(
            HeuristicStrategy::WFMash {
                min_wavefront_length: h.min_wavefront_length,
                max_distance_threshold: h.max_distance_threshold,
                score_steps: h.steps_between_cutoffs,
            },
        );
    }
    assert(hs@ =~= spec_decode_heuristics(*h));
    hs
}

/// The position of each strategy in the decoder's fixed precedence order:
/// Z-drop first, then X-drop, adaptive band, static band,
/// wavefront-adaptive, wfmash. `NoHeuristic` never appears in a decoded
/// list and sits last.
pub open spec fn decode_precedence(h: HeuristicStrategy) -> int {
    match h {
        HeuristicStrategy::ZDrop { .. } => 0,
        HeuristicStrategy::XDrop { .. } => 1,
        HeuristicStrategy::BandedAdaptive { .. } => 2,
        HeuristicStrategy::BandedStatic { .. } => 3,
        HeuristicStrategy::WFAdaptive { .. } => 4,
        HeuristicStrategy::WFMash { .. } => 5,
        HeuristicStrategy::NoHeuristic => 6,
    }
}

/// Decoding yields exactly one entry per set flag bit — the list's length
/// is the number of known flags set, and the variant of each flag appears
/// in the list if and only if its bit is set — and the entries stand in
/// strictly increasing precedence order, so simultaneously set bits come
/// out as one entry each, Z-drop before X-drop before the band and
/// wavefront strategies.
pub proof fn lemma_decode_one_entry_per_set_bit(h: HeuristicAttributes)
    ensures
        spec_decode_heuristics(h).len() == (if h.strategy & HEURISTIC_ZDROP > 0 {
            1int
        } else {
            0int
        }) + (if h.strategy & HEURISTIC_XDROP > 0 {
            1int
        } else {
            0int
        }) + (if h.strategy & HEURISTIC_BANDED_ADAPTIVE > 0 {
            1int
        } else {
            0int
        }) + (if h.strategy & HEURISTIC_BANDED_STATIC > 0 {
            1int
        } else {
            0int
        }) + (if h.strategy & HEURISTIC_WFADAPTIVE > 0 {
            1int
        } else {
            0int
        }) + (if h.strategy & HEURISTIC_WFMASH > 0 {
            1int
        } else {
            0int
        }),
        h.strategy & HEURISTIC_ZDROP > 0 <==> spec_decode_heuristics(h).contains(
            (HeuristicStrategy::ZDrop { zdrop: h.zdrop, score_steps: h.steps_between_cutoffs }),
        ),
        h.strategy & HEURISTIC_XDROP > 0 <==> spec_decode_heuristics(h).contains(
            (HeuristicStrategy::XDrop { xdrop: h.zdrop, score_steps: h.steps_between_cutoffs }),
        ),
        h.strategy & HEURISTIC_BANDED_ADAPTIVE > 0 <==> spec_decode_heuristics(h).contains(
            (HeuristicStrategy::BandedAdaptive {
                band_min_k: h.min_k,
                band_max_k: h.max_k,
                score_steps: h.steps_between_cutoffs,
            }),
        ),
        h.strategy & HEURISTIC_BANDED_STATIC > 0 <==> spec_decode_heuristics(h).contains(
            (HeuristicStrategy::BandedStatic { band_min_k: h.min_k, band_max_k: h.max_k }),
        ),
        h.strategy & HEURISTIC_WFADAPTIVE > 0 <==> spec_decode_heuristics(h).contains(
            (HeuristicStrategy::WFAdaptive {
                min_wavefront_length: h.min_wavefront_length,
                max_distance_threshold: h.max_distance_threshold,
                score_steps: h.steps_between_cutoffs,
            }),
        ),
        h.strategy & HEURISTIC_WFMASH > 0 <==> spec_decode_heuristics(h).contains(
            (HeuristicStrategy::WFMash {
                min_wavefront_length: h.min_wavefront_length,
                max_distance_threshold: h.max_distance_threshold,
                score_steps: h.steps_between_cutoffs,
            }),
        ),
        forall|i: int, j: int|
            0 <= i < j < spec_decode_heuristics(h).len() ==> decode_precedence(
                spec_decode_heuristics(h)[i],
            ) < decode_precedence(spec_decode_heuristics(h)[j]),
{
    broadcast use vstd::seq_lib::lemma_seq_contains_after_push;
    broadcast use vstd::seq_lib::lemma_seq_empty_contains_nothing;

    let e0 = HeuristicStrategy::ZDrop { zdrop: h.zdrop, score_steps: h.steps_between_cutoffs };
    let e1 = HeuristicStrategy::XDrop { xdrop: h.zdrop, score_steps: h.steps_between_cutoffs };
    let e2 = HeuristicStrategy::BandedAdaptive {
        band_min_k: h.min_k,
        band_max_k: h.max_k,
        score_steps: h.steps_between_cutoffs,
    };
    let e3 = HeuristicStrategy::BandedStatic { band_min_k: h.min_k, band_max_k: h.max_k };
    let e4 = HeuristicStrategy::WFAdaptive {
        min_wavefront_length: h.min_wavefront_length,
        max_distance_threshold: h.max_distance_threshold,
        score_steps: h.steps_between_cutoffs,
    };
    let e5 = HeuristicStrategy::WFMash {
        min_wavefront_length: h.min_wavefront_length,
        max_distance_threshold: h.max_distance_threshold,
        score_steps: h.steps_between_cutoffs,
    };
    let s0 = Seq::<HeuristicStrategy>::empty();
    let s1 = if h.strategy & HEURISTIC_ZDROP > 0 {
        s0.push(e0)
    } else {
        s0
    };
    let s2 = if h.strategy & HEURISTIC_XDROP > 0 {
        s1.push(e1)
    } else {
        s1
    };
    let s3 = if h.strategy & HEURISTIC_BANDED_ADAPTIVE > 0 {
        s2.push(e2)
    } else {
        s2
    };
    let s4 = if h.strategy & HEURISTIC_BANDED_STATIC > 0 {
        s3.push(e3)
    } else {
        s3
    };
    let s5 = if h.strategy & HEURISTIC_WFADAPTIVE > 0 {
        s4.push(e4)
    } else {
        s4
    };
    let s6 = if h.strategy & HEURISTIC_WFMASH > 0 {
        s5.push(e5)
    } else {
        s5
    };
    assert(spec_decode_heuristics(h) == s6);
    assert(forall|i: int| 0 <= i < s1.len() ==> decode_precedence(#[trigger] s1[i]) <= 0);
    assert(forall|i: int| 0 <= i < s2.len() ==> decode_precedence(#[trigger] s2[i]) <= 1);
    assert(forall|i: int| 0 <= i < s3.len() ==> decode_precedence(#[trigger] s3[i]) <= 2);
    assert(forall|i: int| 0 <= i < s4.len() ==> decode_precedence(#[trigger] s4[i]) <= 3);
    assert(forall|i: int| 0 <= i < s5.len() ==> decode_precedence(#[trigger] s5[i]) <= 4);
    assert(forall|i: int, j: int|
        0 <= i < j < s2.len() ==> decode_precedence(#[trigger] s2[i]) < decode_precedence(
            #[trigger] s2[j],
        ));
    assert(forall|i: int, j: int|
        0 <= i < j < s3.len() ==> decode_precedence(#[trigger] s3[i]) < decode_precedence(
            #[trigger] s3[j],
        ));
    assert(forall|i: int, j: int|
        0 <= i < j < s4.len() ==> decode_precedence(#[trigger] s4[i]) < decode_precedence(
            #[trigger] s4[j],
        ));
    assert(forall|i: int, j: int|
        0 <= i < j < s5.len() ==> decode_precedence(#[trigger] s5[i]) < decode_precedence(
            #[trigger] s5[j],
        ));
    assert(forall|i: int, j: int|
        0 <= i < j < s6.len() ==> decode_precedence(#[trigger] s6[i]) < decode_precedence(
            #[trigger] s6[j],
        ));
}

/// Writing one strategy onto a heuristic block and decoding the block
/// gives that strategy back, alone: the translator and the decoder agree.
/// `NoHeuristic` decodes back to the empty list. The one exception is
/// `XDrop`, which does not survive the round trip (see
/// `lemma_xdrop_decodes_from_the_shared_drop_store`) and is left out here.
pub proof fn lemma_written_heuristic_decodes_back(b: HeuristicAttributes, h: HeuristicStrategy)
    requires
        !(h is XDrop),
    ensures
        h is NoHeuristic ==> spec_decode_heuristics(spec_set_heuristic_block(b, Some(h)))
            =~= Seq::<HeuristicStrategy>::empty(),
        !(h is NoHeuristic) ==> spec_decode_heuristics(spec_set_heuristic_block(b, Some(h)))
            =~= seq![h],
{
    assert(HEURISTIC_BANDED_STATIC & HEURISTIC_ZDROP == 0 && HEURISTIC_BANDED_STATIC
        & HEURISTIC_XDROP == 0 && HEURISTIC_BANDED_STATIC & HEURISTIC_BANDED_ADAPTIVE == 0
        && HEURISTIC_BANDED_STATIC & HEURISTIC_BANDED_STATIC > 0 && HEURISTIC_BANDED_STATIC
        & HEURISTIC_WFADAPTIVE == 0 && HEURISTIC_BANDED_STATIC & HEURISTIC_WFMASH == 0)
        by (bit_vector);
    assert(HEURISTIC_BANDED_ADAPTIVE & HEURISTIC_ZDROP == 0 && HEURISTIC_BANDED_ADAPTIVE
        & HEURISTIC_XDROP == 0 && HEURISTIC_BANDED_ADAPTIVE & HEURISTIC_BANDED_ADAPTIVE > 0
        && HEURISTIC_BANDED_ADAPTIVE & HEURISTIC_BANDED_STATIC == 0 && HEURISTIC_BANDED_ADAPTIVE
        & HEURISTIC_WFADAPTIVE == 0 && HEURISTIC_BANDED_ADAPTIVE & HEURISTIC_WFMASH == 0)
        by (bit_vector);
    assert(HEURISTIC_WFADAPTIVE & HEURISTIC_ZDROP == 0 && HEURISTIC_WFADAPTIVE & HEURISTIC_XDROP
        == 0 && HEURISTIC_WFADAPTIVE & HEURISTIC_BANDED_ADAPTIVE == 0 && HEURISTIC_WFADAPTIVE
        & HEURISTIC_BANDED_STATIC == 0 && HEURISTIC_WFADAPTIVE & HEURISTIC_WFADAPTIVE > 0
        && HEURISTIC_WFADAPTIVE & HEURISTIC_WFMASH == 0) by (bit_vector);
    assert(HEURISTIC_ZDROP & HEURISTIC_ZDROP > 0 && HEURISTIC_ZDROP & HEURISTIC_XDROP == 0
        && HEURISTIC_ZDROP & HEURISTIC_BANDED_ADAPTIVE == 0 && HEURISTIC_ZDROP
        & HEURISTIC_BANDED_STATIC == 0 && HEURISTIC_ZDROP & HEURISTIC_WFADAPTIVE == 0
        && HEURISTIC_ZDROP & HEURISTIC_WFMASH == 0) by (bit_vector);
    assert(HEURISTIC_WFMASH & HEURISTIC_ZDROP == 0 && HEURISTIC_WFMASH & HEURISTIC_XDROP == 0
        && HEURISTIC_WFMASH & HEURISTIC_BANDED_ADAPTIVE == 0 && HEURISTIC_WFMASH
        & HEURISTIC_BANDED_STATIC == 0 && HEURISTIC_WFMASH & HEURISTIC_WFADAPTIVE == 0
        && HEURISTIC_WFMASH & HEURISTIC_WFMASH > 0) by (bit_vector);
    assert(HEURISTIC_NONE & HEURISTIC_ZDROP == 0 && HEURISTIC_NONE & HEURISTIC_XDROP == 0
        && HEURISTIC_NONE & HEURISTIC_BANDED_ADAPTIVE == 0 && HEURISTIC_NONE
        & HEURISTIC_BANDED_STATIC == 0 && HEURISTIC_NONE & HEURISTIC_WFADAPTIVE == 0
        && HEURISTIC_NONE & HEURISTIC_WFMASH == 0) by (bit_vector);
}

/// The decoding ambiguity that `XDrop` inherits from the engine: the
/// decoder fills `XDrop` from the block's `zdrop` field, the engine's
/// single "drop" store, while the translator writes `XDrop`'s drop value
/// to the `xdrop` field. So an `XDrop` written onto a block decodes back
/// with the block's old `zdrop` value, not the one written.
pub proof fn lemma_xdrop_decodes_from_the_shared_drop_store(
    b: HeuristicAttributes,
    xdrop: i32,
    score_steps: i32,
)
    ensures
        spec_decode_heuristics(
            spec_set_heuristic_block(b, Some(HeuristicStrategy::XDrop { xdrop, score_steps })),
        ) =~= seq![(HeuristicStrategy::XDrop { xdrop: b.zdrop, score_steps })],
{
    assert(HEURISTIC_XDROP & HEURISTIC_ZDROP == 0 && HEURISTIC_XDROP & HEURISTIC_XDROP > 0
        && HEURISTIC_XDROP & HEURISTIC_BANDED_ADAPTIVE == 0 && HEURISTIC_XDROP
        & HEURISTIC_BANDED_STATIC == 0 && HEURISTIC_XDROP & HEURISTIC_WFADAPTIVE == 0
        && HEURISTIC_XDROP & HEURISTIC_WFMASH == 0) by (bit_vector);
}

} // verus!
