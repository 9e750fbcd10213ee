use vstd::prelude::*;

use crate::config::Distance;
use crate::config::HeuristicStrategy;

verus! {

/// Engine discriminant for the unit-cost edit distance metric.
pub const DISTANCE_METRIC_EDIT: u32 = 1;

/// Engine discriminant for the single-piece gap-affine metric.
pub const DISTANCE_METRIC_GAP_AFFINE: u32 = 3;

/// Engine discriminant for the two-piece gap-affine metric.
pub const DISTANCE_METRIC_GAP_AFFINE_2P: u32 = 4;

/// Engine flag bit: no heuristic active.
pub const HEURISTIC_NONE: u32 = 0;

/// Engine flag bit for the static banded heuristic.
pub const HEURISTIC_BANDED_STATIC: u32 = 1;

/// Engine flag bit for the adaptive banded heuristic.
pub const HEURISTIC_BANDED_ADAPTIVE: u32 = 2;

/// Engine flag bit for the wavefront-adaptive heuristic.
pub const HEURISTIC_WFADAPTIVE: u32 = 4;

/// Engine flag bit for the X-drop heuristic.
pub const HEURISTIC_XDROP: u32 = 16;

/// Engine flag bit for the Z-drop heuristic.
pub const HEURISTIC_ZDROP: u32 = 32;

/// Engine flag bit for the wfmash hybrid heuristic.
pub const HEURISTIC_WFMASH: u32 = 64;

/// Engine discriminant for the high memory mode.
pub const MEMORY_MODE_HIGH: u32 = 0;

/// Engine discriminant for the medium memory mode.
pub const MEMORY_MODE_MEDIUM: u32 = 1;

/// Engine discriminant for the low memory mode.
pub const MEMORY_MODE_LOW: u32 = 2;

/// Engine discriminant for the ultra-low memory mode.
pub const MEMORY_MODE_ULTRALOW: u32 = 3;

/// Engine discriminant for score-only alignment scope.
pub const SCOPE_COMPUTE_SCORE: u32 = 0;

/// Engine discriminant for full-trace alignment scope.
pub const SCOPE_COMPUTE_ALIGNMENT: u32 = 1;

/// Engine discriminant for the end-to-end alignment span.
pub const SPAN_END2END: u32 = 0;

/// Engine discriminant for the ends-free alignment span.
pub const SPAN_ENDSFREE: u32 = 1;

/// Penalties of the single-piece gap-affine metric, as the engine's
/// attribute record lays them out.
#[derive(Debug, Clone, PartialEq, Eq, Structural)]
pub struct AffinePenalties {
    pub mismatch: i32,
    pub gap_opening: i32,
    pub gap_extension: i32,
}

/// Penalties of the two-piece gap-affine metric, as the engine's attribute
/// record lays them out.
#[derive(Debug, Clone, PartialEq, Eq, Structural)]
pub struct Affine2pPenalties {
    pub mismatch: i32,
    pub gap_opening1: i32,
    pub gap_extension1: i32,
    pub gap_opening2: i32,
    pub gap_extension2: i32,
}

/// The heuristic block of the engine's attribute record: a strategy
/// bitmask beside one shared parameter block. Several strategies read the
/// same fields, which is why the block is shared rather than per-strategy.
#[derive(Debug, Clone, PartialEq, Eq, Structural)]
pub struct HeuristicAttributes {
    pub strategy: u32,
    pub min_k: i32,
    pub max_k: i32,
    pub steps_between_cutoffs: i32,
    pub min_wavefront_length: i32,
    pub max_distance_threshold: i32,
    pub xdrop: i32,
    pub zdrop: i32,
}

/// The slice of the engine's attribute record that this layer writes:
/// metric discriminant, the two penalty blocks, the heuristic block, and
/// the memory mode. Fields that the active metric or strategy does not
/// mention are left untouched, so the engine's own defaults stay in force
/// for them.
#[derive(Debug, Clone, PartialEq, Eq, Structural)]
pub struct AlignerAttributes {
    pub distance_metric: u32,
    pub affine_penalties: AffinePenalties,
    pub affine2p_penalties: Affine2pPenalties,
    pub heuristic: HeuristicAttributes,
    pub memory_mode: u32,
}

/// The attribute record after the distance metric of `mode` is written
/// onto `a`: the discriminant always, and only the penalty block that the
/// active metric reads.
pub open spec fn spec_set_distance(a: AlignerAttributes, mode: Distance) -> AlignerAttributes {
    match mode {
        Distance::Edit => AlignerAttributes { distance_metric: DISTANCE_METRIC_EDIT, ..a },
        Distance::GapAffine { mismatch, gap_opening, gap_extension } => AlignerAttributes {
            distance_metric: DISTANCE_METRIC_GAP_AFFINE,
            affine_penalties: AffinePenalties { mismatch, gap_opening, gap_extension },
            ..a
        },
        Distance::GapAffine2p {
            mismatch,
            gap_opening1,
            gap_extension1,
            gap_opening2,
            gap_extension2,
        } => AlignerAttributes {
            distance_metric: DISTANCE_METRIC_GAP_AFFINE_2P,
            affine2p_penalties: Affine2pPenalties {
                mismatch,
                gap_opening1,
                gap_extension1,
                gap_opening2,
                gap_extension2,
            },
            ..a
        },
    }
}

/// The heuristic block after the strategy `h` is written onto it: the
/// flag bit of the selected strategy, and only the shared parameter fields
/// that this strategy reads. `None` and `NoHeuristic` both clear the
/// strategy to the engine's "no heuristic" flag and touch no parameter.
pub open spec fn spec_set_heuristic_block(
    b: HeuristicAttributes,
    h: Option<HeuristicStrategy>,
) -> HeuristicAttributes {
    match h {
        Some(
            HeuristicStrategy::BandedStatic { band_min_k, band_max_k },
        ) => HeuristicAttributes {
            strategy: HEURISTIC_BANDED_STATIC,
            min_k: band_min_k,
            max_k: band_max_k,
            ..b
        },
        Some(
            HeuristicStrategy::BandedAdaptive { band_min_k, band_max_k, score_steps },
        ) => HeuristicAttributes {
            strategy: HEURISTIC_BANDED_ADAPTIVE,
            min_k: band_min_k,
            max_k: band_max_k,
            steps_between_cutoffs: score_steps,
            ..b
        },
        Some(
            HeuristicStrategy::WFAdaptive {
                min_wavefront_length,
                max_distance_threshold,
                score_steps,
            },
        ) => HeuristicAttributes {
            strategy: HEURISTIC_WFADAPTIVE,
            min_wavefront_length,
            max_distance_threshold,
            steps_between_cutoffs: score_steps,
            ..b
        },
        Some(HeuristicStrategy::XDrop { xdrop, score_steps }) => HeuristicAttributes {
            strategy: HEURISTIC_XDROP,
            xdrop,
            steps_between_cutoffs: score_steps,
            ..b
        },
        Some(HeuristicStrategy::ZDrop { zdrop, score_steps }) => HeuristicAttributes {
            strategy: HEURISTIC_ZDROP,
            zdrop,
            steps_between_cutoffs: score_steps,
            ..b
        },
        Some(
            HeuristicStrategy::WFMash {
                min_wavefront_length,
                max_distance_threshold,
                score_steps,
            },
        ) => HeuristicAttributes {
            strategy: HEURISTIC_WFMASH,
            min_wavefront_length,
            max_distance_threshold,
            steps_between_cutoffs: score_steps,
            ..b
        },
        Some(HeuristicStrategy::NoHeuristic) => HeuristicAttributes {
            strategy: HEURISTIC_NONE,
            ..b
        },
        None => HeuristicAttributes { strategy: HEURISTIC_NONE, ..b },
    }
}

/// The attribute record after the heuristic choice `h` is written onto its
/// heuristic block; every other field of the record is untouched.
pub open spec fn spec_set_heuristic(
    a: AlignerAttributes,
    h: Option<HeuristicStrategy>,
) -> AlignerAttributes {
    AlignerAttributes { heuristic: spec_set_heuristic_block(a.heuristic, h), ..a }
}

/// A record ready for engine construction: the metric and the heuristic
/// written onto `a`, and the memory mode pinned to `High`.
pub open spec fn spec_configured(
    a: AlignerAttributes,
    mode: Distance,
    h: Option<HeuristicStrategy>,
) -> AlignerAttributes {
    spec_set_heuristic(
        AlignerAttributes { memory_mode: MEMORY_MODE_HIGH, ..spec_set_distance(a, mode) },
        h,
    )
}

impl AlignerAttributes {
    /// Write the distance metric onto this record: the discriminant, and
    /// the penalty block of the active metric. Penalty fields of the other
    /// metrics stay as they were — the engine never reads them.
    pub fn set_distance_attr(&mut self, mode: &Distance)
        ensures
            *final(self) == spec_set_distance(*old(self), *mode),
    {
        match mode {
            Distance::Edit => {
                self.distance_metric = DISTANCE_METRIC_EDIT;
            },
            Distance::GapAffine { mismatch, gap_opening, gap_extension } => {
                self.distance_metric = DISTANCE_METRIC_GAP_AFFINE;
                self.affine_penalties.mismatch = *mismatch;
                self.affine_penalties.gap_opening = *gap_opening;
                self.affine_penalties.gap_extension = *gap_extension;
            },
            Distance::GapAffine2p {
                mismatch,
                gap_opening1,
                gap_extension1,
                gap_opening2,
                gap_extension2,
            } => {
                self.distance_metric = DISTANCE_METRIC_GAP_AFFINE_2P;
                self.affine2p_penalties.mismatch = *mismatch;
                self.affine2p_penalties.gap_opening1 = *gap_opening1;
                self.affine2p_penalties.gap_extension1 = *gap_extension1;
                self.affine2p_penalties.gap_opening2 = *gap_opening2;
                self.affine2p_penalties.gap_extension2 = *gap_extension2;
            },
        }
    }

    /// Write the heuristic choice onto this record's heuristic block: the
    /// strategy flag, and only the shared parameters that the selected
    /// strategy reads. `None` clears the strategy. No other field of the
    /// record is touched, and writing the same choice twice leaves the
    /// same record as writing it once.
    pub fn set_heuristic_attr(&mut self, heuristic: Option<&HeuristicStrategy>)
        ensures
            *final(self) == spec_set_heuristic(
                *old(self),
                match heuristic {
                    Some(h) => Some(*h),
                    None => None,
                },
            ),
    {
        match heuristic {
            Some(HeuristicStrategy::BandedStatic { band_min_k, band_max_k }) => {
                self.heuristic.strategy = HEURISTIC_BANDED_STATIC;
                self.heuristic.min_k = *band_min_k;
                self.heuristic.max_k = *band_max_k;
            },
            Some(HeuristicStrategy::BandedAdaptive { band_min_k, band_max_k, score_steps }) => {
                self.heuristic.strategy = HEURISTIC_BANDED_ADAPTIVE;
                self.heuristic.min_k = *band_min_k;
                self.heuristic.max_k = *band_max_k;
                self.heuristic.steps_between_cutoffs = *score_steps;
            },
            Some(
                HeuristicStrategy::WFAdaptive {
                    min_wavefront_length,
                    max_distance_threshold,
                    score_steps,
                },
            ) => {
                self.heuristic.strategy = HEURISTIC_WFADAPTIVE;
                self.heuristic.min_wavefront_length = *min_wavefront_length;
                self.heuristic.max_distance_threshold = *max_distance_threshold;
                self.heuristic.steps_between_cutoffs = *score_steps;
            },
            Some(HeuristicStrategy::XDrop { xdrop, score_steps }) => {
                self.heuristic.strategy = HEURISTIC_XDROP;
                self.heuristic.xdrop = *xdrop;
                self.heuristic.steps_between_cutoffs = *score_steps;
            },
            Some(HeuristicStrategy::ZDrop { zdrop, score_steps }) => {
                self.heuristic.strategy = HEURISTIC_ZDROP;
                self.heuristic.zdrop = *zdrop;
                self.heuristic.steps_between_cutoffs = *score_steps;
            },
            Some(
                HeuristicStrategy::WFMash {
                    min_wavefront_length,
                    max_distance_threshold,
                    score_steps,
                },
            ) => {
                self.heuristic.strategy = HEURISTIC_WFMASH;
                self.heuristic.min_wavefront_length = *min_wavefront_length;
                self.heuristic.max_distance_threshold = *max_distance_threshold;
                self.heuristic.steps_between_cutoffs = *score_steps;
            },
            Some(HeuristicStrategy::NoHeuristic) | None => {
                self.heuristic.strategy = HEURISTIC_NONE;
            },
        }
    }

    /// Make this record ready for engine construction: write the distance
    /// metric and the heuristic choice, and pin the memory mode to `High`
    /// (the ultra-low mode is known not to work reliably).
    pub fn configure(&mut self, mode: &Distance, heuristic: Option<&HeuristicStrategy>)
        ensures
            *final(self) == spec_configured(
                *old(self),
                *mode,
                match heuristic {
                    Some(h) => Some(*h),
                    None => None,
                },
            ),
            final(self).memory_mode == MEMORY_MODE_HIGH,
    {
        self.set_distance_attr(mode);
        self.memory_mode = MEMORY_MODE_HIGH;
        self.set_heuristic_attr(heuristic);
    }
}

impl Default for AlignerAttributes {
    /// A record with every field zeroed. Zero is also the engine's
    /// discriminant for the `High` memory mode, so a default record
    /// already carries the pinned memory mode.
    fn default() -> (r: AlignerAttributes)
        ensures
            r == (AlignerAttributes {
                distance_metric: 0,
                affine_penalties: AffinePenalties { mismatch: 0, gap_opening: 0, gap_extension: 0 },
                affine2p_penalties: Affine2pPenalties {
                    mismatch: 0,
                    gap_opening1: 0,
                    gap_extension1: 0,
                    gap_opening2: 0,
                    gap_extension2: 0,
                },
                heuristic: HeuristicAttributes {
                    strategy: 0,
                    min_k: 0,
                    max_k: 0,
                    steps_between_cutoffs: 0,
                    min_wavefront_length: 0,
                    max_distance_threshold: 0,
                    xdrop: 0,
                    zdrop: 0,
                },
                memory_mode: MEMORY_MODE_HIGH,
            }),
    {
        AlignerAttributes {
            distance_metric: 0,
            affine_penalties: AffinePenalties { mismatch: 0, gap_opening: 0, gap_extension: 0 },
            affine2p_penalties: Affine2pPenalties {
                mismatch: 0,
                gap_opening1: 0,
                gap_extension1: 0,
                gap_opening2: 0,
                gap_extension2: 0,
            },
            heuristic: HeuristicAttributes {
                strategy: 0,
                min_k: 0,
                max_k: 0,
                steps_between_cutoffs: 0,
                min_wavefront_length: 0,
                max_distance_threshold: 0,
                xdrop: 0,
                zdrop: 0,
            },
            memory_mode: MEMORY_MODE_HIGH,
        }
    }
}

/// Writing the same distance metric twice leaves the same record as
/// writing it once: the translation is idempotent.
pub proof fn lemma_set_distance_idempotent(a: AlignerAttributes, mode: Distance)
    ensures
        spec_set_distance(spec_set_distance(a, mode), mode) == spec_set_distance(a, mode),
{
}

/// Writing the same heuristic choice twice leaves the same record as
/// writing it once: the translation is idempotent.
pub proof fn lemma_set_heuristic_idempotent(a: AlignerAttributes, h: Option<HeuristicStrategy>)
    ensures
        spec_set_heuristic(spec_set_heuristic(a, h), h) == spec_set_heuristic(a, h),
{
}

/// Writing a heuristic choice touches nothing but the heuristic block, and
/// writing a distance metric touches nothing of the heuristic block or the
/// memory mode: the two translations commute inside one record.
pub proof fn lemma_translations_independent(
    a: AlignerAttributes,
    mode: Distance,
    h: Option<HeuristicStrategy>,
)
    ensures
        spec_set_heuristic(a, h).distance_metric == a.distance_metric,
        spec_set_heuristic(a, h).affine_penalties == a.affine_penalties,
        spec_set_heuristic(a, h).affine2p_penalties == a.affine2p_penalties,
        spec_set_heuristic(a, h).memory_mode == a.memory_mode,
        spec_set_distance(a, mode).heuristic == a.heuristic,
        spec_set_distance(a, mode).memory_mode == a.memory_mode,
        spec_set_distance(spec_set_heuristic(a, h), mode) == spec_set_heuristic(
            spec_set_distance(a, mode),
            h,
        ),
{
}

} // verus!
