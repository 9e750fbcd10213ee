use affine_wavefront::Distance;

#[test]
fn to_u8_gives_each_variant_its_code() {
    assert_eq!(Distance::Edit.to_u8(), 0);
    assert_eq!(
        Distance::GapAffine { mismatch: 4, gap_opening: 6, gap_extension: 2 }.to_u8(),
        1
    );
    assert_eq!(
        Distance::GapAffine2p {
            mismatch: 4,
            gap_opening1: 6,
            gap_extension1: 2,
            gap_opening2: 12,
            gap_extension2: 1,
        }
        .to_u8(),
        2
    );
}

#[test]
fn from_u8_round_trips_every_valid_code() {
    for code in 0u8..=2u8 {
        let d = Distance::from_u8(code).unwrap();
        assert_eq!(d.to_u8(), code);
    }
}

#[test]
fn from_u8_rejects_every_other_code() {
    for code in 3u8..=255u8 {
        let r = Distance::from_u8(code);
        assert!(r.is_err());
        assert_eq!(r.unwrap_err(), "Invalid distance code");
    }
}

#[test]
fn byte_code_round_trip_zeroes_gap_affine_penalties() {
    let populated = Distance::GapAffine { mismatch: 4, gap_opening: 6, gap_extension: 2 };
    let back = Distance::from_u8(populated.to_u8()).unwrap();
    assert_eq!(
        back,
        Distance::GapAffine { mismatch: 0, gap_opening: 0, gap_extension: 0 }
    );
    assert_ne!(back, populated);
}

#[test]
fn byte_code_round_trip_zeroes_gap_affine2p_penalties() {
    let populated = Distance::GapAffine2p {
        mismatch: 4,
        gap_opening1: 6,
        gap_extension1: 2,
        gap_opening2: 12,
        gap_extension2: 1,
    };
    let back = Distance::from_u8(populated.to_u8()).unwrap();
    assert_eq!(
        back,
        Distance::GapAffine2p {
            mismatch: 0,
            gap_opening1: 0,
            gap_extension1: 0,
            gap_opening2: 0,
            gap_extension2: 0,
        }
    );
    assert_ne!(back, populated);
}

#[test]
fn byte_code_round_trip_keeps_edit() {
    let back = Distance::from_u8(Distance::Edit.to_u8()).unwrap();
    assert_eq!(back, Distance::Edit);
}
