use affine_wavefront::attrs::HeuristicAttributes;
use affine_wavefront::attrs::HEURISTIC_BANDED_ADAPTIVE;
use affine_wavefront::attrs::HEURISTIC_BANDED_STATIC;
use affine_wavefront::attrs::HEURISTIC_WFADAPTIVE;
use affine_wavefront::attrs::HEURISTIC_WFMASH;
use affine_wavefront::attrs::HEURISTIC_XDROP;
use affine_wavefront::attrs::HEURISTIC_ZDROP;
use affine_wavefront::decode::decode_heuristics;
use affine_wavefront::AlignmentScope;
use affine_wavefront::AlignmentSpan;
use affine_wavefront::AlignmentStatus;
use affine_wavefront::Distance;
use affine_wavefront::HeuristicStrategy;
use affine_wavefront::MemoryMode;

#[test]
fn status_codes_decode_to_their_statuses() {
    assert_eq!(AlignmentStatus::from(0), AlignmentStatus::Completed);
    assert_eq!(AlignmentStatus::from(1), AlignmentStatus::Partial);
    assert_eq!(AlignmentStatus::from(-100), AlignmentStatus::MaxStepsReached);
    assert_eq!(AlignmentStatus::from(-200), AlignmentStatus::OOM);
    assert_eq!(AlignmentStatus::from(-300), AlignmentStatus::Unattainable);
}

#[test]
fn unmapped_status_codes_decode_to_undefined() {
    assert_eq!(AlignmentStatus::from(2), AlignmentStatus::Undefined);
    assert_eq!(AlignmentStatus::from(-1), AlignmentStatus::Undefined);
    assert_eq!(AlignmentStatus::from(-99), AlignmentStatus::Undefined);
    assert_eq!(AlignmentStatus::from(i32::MAX), AlignmentStatus::Undefined);
    assert_eq!(AlignmentStatus::from(i32::MIN), AlignmentStatus::Undefined);
}

#[test]
fn status_rank_orders_completed_above_partial_above_the_rest() {
    assert_eq!(AlignmentStatus::Completed.rank(), 2);
    assert_eq!(AlignmentStatus::Partial.rank(), 1);
    assert_eq!(AlignmentStatus::MaxStepsReached.rank(), 0);
    assert_eq!(AlignmentStatus::OOM.rank(), 0);
    assert_eq!(AlignmentStatus::Unattainable.rank(), 0);
    assert_eq!(AlignmentStatus::Undefined.rank(), 0);
}

#[test]
fn scope_discriminants_decode() {
    assert_eq!(AlignmentScope::from_scope(1), AlignmentScope::Alignment);
    assert_eq!(AlignmentScope::from_scope(0), AlignmentScope::ComputeScore);
    assert_eq!(AlignmentScope::from_scope(7), AlignmentScope::Undefined);
}

#[test]
fn span_forms_decode() {
    assert_eq!(AlignmentSpan::from_form(0, 1, 2, 3, 4), AlignmentSpan::End2End);
    assert_eq!(
        AlignmentSpan::from_form(1, 1, 2, 3, 4),
        AlignmentSpan::EndsFree {
            pattern_begin_free: 1,
            pattern_end_free: 2,
            text_begin_free: 3,
            text_end_free: 4,
        }
    );
    assert_eq!(AlignmentSpan::from_form(9, 1, 2, 3, 4), AlignmentSpan::Undefined);
}

#[test]
fn memory_mode_discriminants_decode() {
    assert_eq!(MemoryMode::from_value(0), MemoryMode::High);
    assert_eq!(MemoryMode::from_value(1), MemoryMode::Medium);
    assert_eq!(MemoryMode::from_value(2), MemoryMode::Low);
    assert_eq!(MemoryMode::from_value(3), MemoryMode::Ultralow);
    assert_eq!(MemoryMode::from_value(4), MemoryMode::Undefined);
}

#[test]
fn raw_penalty_records_decode_to_metrics() {
    assert_eq!(Distance::from_raw(1, 4, 6, 2, 12, 1), Distance::Edit);
    assert_eq!(
        Distance::from_raw(3, 4, 6, 2, 12, 1),
        Distance::GapAffine { mismatch: 4, gap_opening: 6, gap_extension: 2 }
    );
    assert_eq!(
        Distance::from_raw(4, 4, 6, 2, 12, 1),
        Distance::GapAffine2p {
            mismatch: 4,
            gap_opening1: 6,
            gap_extension1: 2,
            gap_opening2: 12,
            gap_extension2: 1,
        }
    );
}

#[test]
fn unmapped_metric_discriminants_fall_back_to_edit() {
    assert_eq!(Distance::from_raw(0, 4, 6, 2, 12, 1), Distance::Edit);
    assert_eq!(Distance::from_raw(2, 4, 6, 2, 12, 1), Distance::Edit);
    assert_eq!(Distance::from_raw(99, 4, 6, 2, 12, 1), Distance::Edit);
}

fn block(strategy: u32) -> HeuristicAttributes {
    HeuristicAttributes {
        strategy,
        min_k: -15,
        max_k: 15,
        steps_between_cutoffs: 4,
        min_wavefront_length: 10,
        max_distance_threshold: 50,
        xdrop: 20,
        zdrop: 25,
    }
}

#[test]
fn empty_bitmask_decodes_to_no_strategies() {
    assert_eq!(decode_heuristics(&block(0)), vec![]);
}

#[test]
fn each_single_bit_decodes_to_its_strategy() {
    assert_eq!(
        decode_heuristics(&block(HEURISTIC_BANDED_STATIC)),
        vec![HeuristicStrategy::BandedStatic { band_min_k: -15, band_max_k: 15 }]
    );
    assert_eq!(
        decode_heuristics(&block(HEURISTIC_BANDED_ADAPTIVE)),
        vec![HeuristicStrategy::BandedAdaptive {
            band_min_k: -15,
            band_max_k: 15,
            score_steps: 4,
        }]
    );
    assert_eq!(
        decode_heuristics(&block(HEURISTIC_WFADAPTIVE)),
        vec![HeuristicStrategy::WFAdaptive {
            min_wavefront_length: 10,
            max_distance_threshold: 50,
            score_steps: 4,
        }]
    );
    assert_eq!(
        decode_heuristics(&block(HEURISTIC_ZDROP)),
        vec![HeuristicStrategy::ZDrop { zdrop: 25, score_steps: 4 }]
    );
    assert_eq!(
        decode_heuristics(&block(HEURISTIC_WFMASH)),
        vec![HeuristicStrategy::WFMash {
            min_wavefront_length: 10,
            max_distance_threshold: 50,
            score_steps: 4,
        }]
    );
}

#[test]
fn xdrop_decodes_from_the_shared_drop_field() {
    assert_eq!(
        decode_heuristics(&block(HEURISTIC_XDROP)),
        vec![HeuristicStrategy::XDrop { xdrop: 25, score_steps: 4 }]
    );
}

#[test]
fn two_set_bits_decode_to_two_strategies_in_precedence_order() {
    assert_eq!(
        decode_heuristics(&block(HEURISTIC_ZDROP | HEURISTIC_XDROP)),
        vec![
            HeuristicStrategy::ZDrop { zdrop: 25, score_steps: 4 },
            HeuristicStrategy::XDrop { xdrop: 25, score_steps: 4 },
        ]
    );
    assert_eq!(
        decode_heuristics(&block(HEURISTIC_BANDED_STATIC | HEURISTIC_WFMASH)),
        vec![
            HeuristicStrategy::BandedStatic { band_min_k: -15, band_max_k: 15 },
            HeuristicStrategy::WFMash {
                min_wavefront_length: 10,
                max_distance_threshold: 50,
                score_steps: 4,
            },
        ]
    );
}

#[test]
fn all_known_bits_decode_to_one_strategy_each() {
    let all = HEURISTIC_BANDED_STATIC
        | HEURISTIC_BANDED_ADAPTIVE
        | HEURISTIC_WFADAPTIVE
        | HEURISTIC_XDROP
        | HEURISTIC_ZDROP
        | HEURISTIC_WFMASH;
    let decoded = decode_heuristics(&block(all));
    assert_eq!(decoded.len(), 6);
    assert!(matches!(decoded[0], HeuristicStrategy::ZDrop { .. }));
    assert!(matches!(decoded[1], HeuristicStrategy::XDrop { .. }));
    assert!(matches!(decoded[2], HeuristicStrategy::BandedAdaptive { .. }));
    assert!(matches!(decoded[3], HeuristicStrategy::BandedStatic { .. }));
    assert!(matches!(decoded[4], HeuristicStrategy::WFAdaptive { .. }));
    assert!(matches!(decoded[5], HeuristicStrategy::WFMash { .. }));
}

#[test]
fn unknown_bits_alone_decode_to_nothing() {
    assert_eq!(decode_heuristics(&block(8)), vec![]);
    assert_eq!(decode_heuristics(&block(128)), vec![]);
}
