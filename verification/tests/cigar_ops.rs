use affine_wavefront::cigar::cigar_window;
use affine_wavefront::cigar::count_operations;

#[test]
fn window_returns_the_marked_range() {
    let ops = b"????MMXMID??";
    let w = cigar_window(ops, 4, 10).unwrap();
    assert_eq!(w, b"MMXMID");
}

#[test]
fn window_may_be_empty() {
    let ops = b"MMMM";
    let w = cigar_window(ops, 2, 2).unwrap();
    assert_eq!(w, b"");
}

#[test]
fn window_rejects_reversed_offsets() {
    let ops = b"MMMM";
    assert!(cigar_window(ops, 3, 1).is_none());
}

#[test]
fn window_rejects_an_end_past_the_buffer() {
    let ops = b"MMMM";
    assert!(cigar_window(ops, 0, 5).is_none());
}

#[test]
fn operations_are_counted_exactly() {
    let counts = count_operations(b"MMXMIDM");
    assert_eq!(counts.matches, 4);
    assert_eq!(counts.mismatches, 1);
    assert_eq!(counts.insertions, 1);
    assert_eq!(counts.deletions, 1);
    assert_eq!(counts.unknown, 0);
}

#[test]
fn counts_partition_the_buffer() {
    let ops = b"MMX?MID?Z";
    let counts = count_operations(ops);
    assert_eq!(counts.unknown, 3);
    assert_eq!(
        counts.matches + counts.mismatches + counts.insertions + counts.deletions + counts.unknown,
        ops.len()
    );
}

#[test]
fn extents_cover_pattern_and_text() {
    // three matches, one mismatch, one insertion, one deletion
    let counts = count_operations(b"MMXMID");
    assert_eq!(counts.pattern_extent(), 5);
    assert_eq!(counts.text_extent(), 5);
}

#[test]
fn empty_buffer_counts_to_zero() {
    let counts = count_operations(b"");
    assert_eq!(counts.matches, 0);
    assert_eq!(counts.pattern_extent(), 0);
    assert_eq!(counts.text_extent(), 0);
}
