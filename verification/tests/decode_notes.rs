use nai_rs::decode::DecodeErrorKind;
use nai_rs::note::{Air, AirHold, AirSlide, AirTrace, ExTap, Flick, Hold, NoteType, Slide, Tap};
use nai_rs::num::Decimal;

fn dec(neg: bool, units: u64, frac_num: u64, frac_len: u64) -> Decimal {
    Decimal { neg, units, frac_num, frac_len }
}

#[test]
fn tap_end_to_end() {
    let n = NoteType::from_str("TAP\t10\t96\t3\t2").unwrap();
    assert_eq!(n, NoteType::Tap(Tap { measure: 10, offset: 96, cell: 3, width: 2 }));
}

#[test]
fn mine_min_arity() {
    let n = NoteType::from_str("MNE\t1\t0\t15\t1").unwrap();
    assert_eq!(n, NoteType::Mine(Tap { measure: 1, offset: 0, cell: 15, width: 1 }));
}

#[test]
fn extap_min_arity() {
    let n = NoteType::from_str("CHR\t0\t0\t4\t4\tCE").unwrap();
    assert_eq!(
        n,
        NoteType::ExTap(ExTap {
            measure: 0,
            offset: 0,
            cell: 4,
            width: 4,
            animation: "CE".to_string(),
        })
    );
}

#[test]
fn hold_min_arity_has_no_animation() {
    let n = NoteType::from_str("HLD\t2\t0\t5\t3\t192").unwrap();
    assert_eq!(
        n,
        NoteType::Hold(Hold {
            measure: 2,
            offset: 0,
            cell: 5,
            width: 3,
            duration: 192,
            animation: None,
        })
    );
}

#[test]
fn hold_extra_field_is_animation() {
    let n = NoteType::from_str("HLD\t2\t0\t5\t3\t192\tUP").unwrap();
    assert_eq!(
        n,
        NoteType::Hold(Hold {
            measure: 2,
            offset: 0,
            cell: 5,
            width: 3,
            duration: 192,
            animation: Some("UP".to_string()),
        })
    );
}

#[test]
fn hold_ex_head_min_arity() {
    let n = NoteType::from_str("HXD\t2\t96\t5\t3\t48").unwrap();
    assert_eq!(
        n,
        NoteType::HoldWithExTapHead(Hold {
            measure: 2,
            offset: 96,
            cell: 5,
            width: 3,
            duration: 48,
            animation: None,
        })
    );
}

#[test]
fn slide_min_arity_has_no_animation() {
    let n = NoteType::from_str("SLD\t3\t0\t1\t2\t96\t5\t2").unwrap();
    assert_eq!(
        n,
        NoteType::Slide(Slide {
            measure: 3,
            offset: 0,
            cell: 1,
            width: 2,
            duration: 96,
            end_cell: 5,
            end_width: 2,
            animation: None,
        })
    );
}

#[test]
fn slide_skips_one_field_before_animation() {
    // The field right after end-width is skipped; only the one after it
    // is read as the animation name.
    let skipped = NoteType::from_str("SLD\t3\t0\t1\t2\t96\t5\t2\tX").unwrap();
    assert_eq!(
        skipped,
        NoteType::Slide(Slide {
            measure: 3,
            offset: 0,
            cell: 1,
            width: 2,
            duration: 96,
            end_cell: 5,
            end_width: 2,
            animation: None,
        })
    );
    let with_anim = NoteType::from_str("SLD\t3\t0\t1\t2\t96\t5\t2\tX\tDW").unwrap();
    assert_eq!(
        with_anim,
        NoteType::Slide(Slide {
            measure: 3,
            offset: 0,
            cell: 1,
            width: 2,
            duration: 96,
            end_cell: 5,
            end_width: 2,
            animation: Some("DW".to_string()),
        })
    );
}

#[test]
fn slide_variants_share_shape() {
    let body = Slide {
        measure: 0,
        offset: 0,
        cell: 0,
        width: 1,
        duration: 48,
        end_cell: 2,
        end_width: 1,
        animation: None,
    };
    assert_eq!(
        NoteType::from_str("SLC\t0\t0\t0\t1\t48\t2\t1").unwrap(),
        NoteType::SlideControlPoint(body.clone())
    );
    assert_eq!(
        NoteType::from_str("SXD\t0\t0\t0\t1\t48\t2\t1").unwrap(),
        NoteType::SlideWithExTapHead(body.clone())
    );
    assert_eq!(
        NoteType::from_str("SXC\t0\t0\t0\t1\t48\t2\t1").unwrap(),
        NoteType::SlideControlPointWithExTapHead(body)
    );
}

#[test]
fn flick_min_arity() {
    let n = NoteType::from_str("FLK\t1\t0\t7\t4\tL").unwrap();
    assert_eq!(
        n,
        NoteType::Flick(Flick { measure: 1, offset: 0, cell: 7, width: 4, unknown: "L".to_string() })
    );
}

#[test]
fn air_family_min_arity() {
    let body = Air { measure: 4, offset: 0, cell: 8, width: 2, target_note: "TAP".to_string() };
    assert_eq!(NoteType::from_str("AIR\t4\t0\t8\t2\tTAP").unwrap(), NoteType::Air(body.clone()));
    assert_eq!(
        NoteType::from_str("AUR\t4\t0\t8\t2\tTAP").unwrap(),
        NoteType::AirUpRight(body.clone())
    );
    assert_eq!(
        NoteType::from_str("AUL\t4\t0\t8\t2\tTAP").unwrap(),
        NoteType::AirUpLeft(body.clone())
    );
    assert_eq!(
        NoteType::from_str("ADW\t4\t0\t8\t2\tTAP").unwrap(),
        NoteType::AirDown(body.clone())
    );
    assert_eq!(
        NoteType::from_str("ADR\t4\t0\t8\t2\tTAP").unwrap(),
        NoteType::AirDownRight(body.clone())
    );
    assert_eq!(
        NoteType::from_str("ADL\t4\t0\t8\t2\tTAP").unwrap(),
        NoteType::AirDownLeft(body)
    );
}

#[test]
fn air_hold_min_arity() {
    let n = NoteType::from_str("AHD\t4\t0\t8\t2\tHLD\t96").unwrap();
    assert_eq!(
        n,
        NoteType::AirHold(AirHold {
            measure: 4,
            offset: 0,
            cell: 8,
            width: 2,
            target_note: "HLD".to_string(),
            duration: 96,
        })
    );
}

#[test]
fn air_crush_end_to_end() {
    let n = NoteType::from_str("ALD\t5\t0\t1\t1\t0\t1.0\t96\t1\t1\t2.0\tRED").unwrap();
    assert_eq!(
        n,
        NoteType::AirCrush(AirTrace {
            measure: 5,
            offset: 0,
            cell: 1,
            width: 1,
            unknown: 0,
            starting_height: dec(false, 1, 0, 1),
            duration: 96,
            end_cell: 1,
            end_width: 1,
            target_height: dec(false, 2, 0, 1),
            color: "RED".to_string(),
        })
    );
}

#[test]
fn air_slide_min_arity() {
    let n = NoteType::from_str("ASD\t5\t0\t1\t2\tTAP\t1.0\t96\t3\t2\t1.5\tDEF").unwrap();
    assert_eq!(
        n,
        NoteType::AirSlide(AirSlide {
            measure: 5,
            offset: 0,
            cell: 1,
            width: 2,
            target_note: "TAP".to_string(),
            starting_height: dec(false, 1, 0, 1),
            duration: 96,
            end_cell: 3,
            end_width: 2,
            target_height: dec(false, 1, 5, 1),
            color: "DEF".to_string(),
        })
    );
}

#[test]
fn every_valid_color_is_kept_unchanged() {
    let colors = [
        "GRY", "RED", "ORN", "YEL", "AQA", "PPL", "PNK", "CYN", "BLK", "VLT", "LIM", "BLU", "NON",
        "DEF",
    ];
    for color in colors {
        let line = format!("ALD\t0\t0\t0\t1\t0\t1.0\t96\t0\t1\t1.0\t{}", color);
        match NoteType::from_str(&line).unwrap() {
            NoteType::AirCrush(t) => assert_eq!(t.color, color),
            other => panic!("expected an air crush, got {:?}", other),
        }
    }
}

#[test]
fn color_outside_the_set_is_a_domain_error() {
    let r = NoteType::from_str("ALD\t0\t0\t0\t1\t0\t1.0\t96\t0\t1\t1.0\tMAGENTA");
    assert_eq!(r.unwrap_err(), DecodeErrorKind::InvalidColor);
    let r = NoteType::from_str("ASD\t0\t0\t0\t1\tTAP\t1.0\t96\t0\t1\t1.0\tred");
    assert_eq!(r.unwrap_err(), DecodeErrorKind::InvalidColor);
}

#[test]
fn missing_color_is_a_structural_error() {
    let r = NoteType::from_str("ALD\t0\t0\t0\t1\t0\t1.0\t96\t0\t1\t1.0");
    assert_eq!(r.unwrap_err(), DecodeErrorKind::MissingField);
}

#[test]
fn unknown_note_tag_is_rejected_by_the_note_decoder() {
    let r = NoteType::from_str("XYZ\t1\t2\t3\t4");
    assert_eq!(r.unwrap_err(), DecodeErrorKind::UnknownNoteTag);
}

#[test]
fn missing_common_field_is_a_structural_error() {
    let r = NoteType::from_str("TAP\t1\t2\t3");
    assert_eq!(r.unwrap_err(), DecodeErrorKind::MissingField);
}

#[test]
fn non_numeric_common_field_is_a_type_error() {
    let r = NoteType::from_str("TAP\t1\ttwo\t3\t4");
    assert_eq!(r.unwrap_err(), DecodeErrorKind::InvalidUint);
}

#[test]
fn non_numeric_height_is_a_type_error() {
    let r = NoteType::from_str("ALD\t0\t0\t0\t1\t0\thigh\t96\t0\t1\t1.0\tRED");
    assert_eq!(r.unwrap_err(), DecodeErrorKind::InvalidDecimal);
}

#[test]
fn every_note_shape_round_trips_through_its_line() {
    let notes = vec![
        NoteType::Tap(Tap { measure: 10, offset: 96, cell: 3, width: 2 }),
        NoteType::Mine(Tap { measure: 1, offset: 0, cell: 15, width: 1 }),
        NoteType::ExTap(ExTap {
            measure: 0,
            offset: 0,
            cell: 4,
            width: 4,
            animation: "CE".to_string(),
        }),
        NoteType::Hold(Hold {
            measure: 2,
            offset: 0,
            cell: 5,
            width: 3,
            duration: 192,
            animation: None,
        }),
        NoteType::HoldWithExTapHead(Hold {
            measure: 2,
            offset: 96,
            cell: 5,
            width: 3,
            duration: 48,
            animation: Some("UP".to_string()),
        }),
        NoteType::Slide(Slide {
            measure: 3,
            offset: 0,
            cell: 1,
            width: 2,
            duration: 96,
            end_cell: 5,
            end_width: 2,
            animation: None,
        }),
        NoteType::SlideControlPointWithExTapHead(Slide {
            measure: 3,
            offset: 0,
            cell: 1,
            width: 2,
            duration: 96,
            end_cell: 5,
            end_width: 2,
            animation: Some("DW".to_string()),
        }),
        NoteType::Flick(Flick {
            measure: 1,
            offset: 0,
            cell: 7,
            width: 4,
            unknown: "L".to_string(),
        }),
        NoteType::AirUpLeft(Air {
            measure: 4,
            offset: 0,
            cell: 8,
            width: 2,
            target_note: "TAP".to_string(),
        }),
        NoteType::AirHold(AirHold {
            measure: 4,
            offset: 0,
            cell: 8,
            width: 2,
            target_note: "HLD".to_string(),
            duration: 96,
        }),
        NoteType::AirCrush(AirTrace {
            measure: 5,
            offset: 0,
            cell: 1,
            width: 1,
            unknown: 0,
            starting_height: dec(false, 1, 0, 1),
            duration: 96,
            end_cell: 1,
            end_width: 1,
            target_height: dec(false, 2, 0, 1),
            color: "RED".to_string(),
        }),
        NoteType::AirSlide(AirSlide {
            measure: 5,
            offset: 0,
            cell: 1,
            width: 2,
            target_note: "TAP".to_string(),
            starting_height: dec(false, 1, 0, 1),
            duration: 96,
            end_cell: 3,
            end_width: 2,
            target_height: dec(false, 1, 5, 1),
            color: "DEF".to_string(),
        }),
    ];
    for n in notes {
        let line = n.to_line();
        assert_eq!(NoteType::from_str(&line).unwrap(), n, "line was {:?}", line);
    }
}

#[test]
fn slide_with_animation_encodes_the_skipped_field() {
    let n = NoteType::Slide(Slide {
        measure: 3,
        offset: 0,
        cell: 1,
        width: 2,
        duration: 96,
        end_cell: 5,
        end_width: 2,
        animation: Some("DW".to_string()),
    });
    assert_eq!(n.to_line(), "SLD\t3\t0\t1\t2\t96\t5\t2\t0\tDW");
    assert_eq!(NoteType::from_str(&n.to_line()).unwrap(), n);
}

#[test]
fn fields_are_trimmed_before_decoding() {
    let n = NoteType::from_str("  TAP \t 10\t96 \t3\t 2 ").unwrap();
    assert_eq!(n, NoteType::Tap(Tap { measure: 10, offset: 96, cell: 3, width: 2 }));
}
