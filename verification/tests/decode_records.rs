use nai_rs::bpm::{Bpm, BpmDef};
use nai_rs::decode::DecodeErrorKind;
use nai_rs::met::{Met, MetDef};
use nai_rs::num::Decimal;
use nai_rs::sfl::Sfl;

fn dec(neg: bool, units: u64, frac_num: u64, frac_len: u64) -> Decimal {
    Decimal { neg, units, frac_num, frac_len }
}

#[test]
fn bpm_end_to_end() {
    let b = Bpm::from_str("BPM\t0\t0\t120.0").unwrap();
    assert_eq!(b, Bpm { beginning_measure: 0, offset: 0, bpm: dec(false, 120, 0, 1) });
}

#[test]
fn bpm_def_reads_four_values() {
    let d = BpmDef::from_str("BPM_DEF\t120.0\t120.0\t180.0\t90.5").unwrap();
    assert_eq!(
        d,
        BpmDef {
            starting_bpm: dec(false, 120, 0, 1),
            mode: dec(false, 120, 0, 1),
            highest_bpm: dec(false, 180, 0, 1),
            lowest_bpm: dec(false, 90, 5, 1),
        }
    );
}

#[test]
fn bpm_def_missing_value_is_a_structural_error() {
    let r = BpmDef::from_str("BPM_DEF\t120.0\t120.0\t180.0");
    assert_eq!(r.unwrap_err(), DecodeErrorKind::MissingField);
}

#[test]
fn met_def_reads_two_values() {
    let d = MetDef::from_str("MET_DEF\t4\t4").unwrap();
    assert_eq!(d, MetDef { first_value: 4, second_value: 4 });
}

#[test]
fn met_writes_its_second_value_first() {
    let m = Met::from_str("MET\t2\t96\t8\t3").unwrap();
    assert_eq!(m, Met { beginning_measure: 2, offset: 96, second_value: 8, first_value: 3 });
}

#[test]
fn met_non_numeric_value_is_a_type_error() {
    let r = Met::from_str("MET\t2\t96\tx\t3");
    assert_eq!(r.unwrap_err(), DecodeErrorKind::InvalidUint);
}

#[test]
fn sfl_reads_fields_from_the_first_token_on() {
    // The scroll-speed decoder consumes no leading tag; it is handed the
    // payload after the `SFL` tag.
    let s = Sfl::from_str("3\t192\t384\t1.5").unwrap();
    assert_eq!(
        s,
        Sfl { beginning_measure: 3, offset: 192, duration: 384, multiplier: dec(false, 1, 5, 1) }
    );
}

#[test]
fn sfl_negative_multiplier() {
    let s = Sfl::from_str("0\t0\t96\t-2.25").unwrap();
    assert_eq!(s.multiplier, dec(true, 2, 25, 2));
}

#[test]
fn decimal_keeps_its_written_parts() {
    let b = Bpm::from_str("BPM\t1\t0\t240.000").unwrap();
    assert_eq!(b.bpm, dec(false, 240, 0, 3));
    let b = Bpm::from_str("BPM\t1\t0\t0.999").unwrap();
    assert_eq!(b.bpm, dec(false, 0, 999, 3));
    let b = Bpm::from_str("BPM\t1\t0\t185").unwrap();
    assert_eq!(b.bpm, dec(false, 185, 0, 0));
}

#[test]
fn decimal_accepts_bare_point_forms() {
    let s = Sfl::from_str("0\t0\t96\t.5").unwrap();
    assert_eq!(s.multiplier, dec(false, 0, 5, 1));
    let s = Sfl::from_str("0\t0\t96\t12.").unwrap();
    assert_eq!(s.multiplier, dec(false, 12, 0, 0));
    let s = Sfl::from_str("0\t0\t96\t+3.5").unwrap();
    assert_eq!(s.multiplier, dec(false, 3, 5, 1));
}

#[test]
fn decimal_rejects_malformed_tokens() {
    assert_eq!(Sfl::from_str("0\t0\t96\t.").unwrap_err(), DecodeErrorKind::InvalidDecimal);
    assert_eq!(Sfl::from_str("0\t0\t96\t1.2.3").unwrap_err(), DecodeErrorKind::InvalidDecimal);
    assert_eq!(Sfl::from_str("0\t0\t96\tfast").unwrap_err(), DecodeErrorKind::InvalidDecimal);
    assert_eq!(Sfl::from_str("0\t0\t96\t-").unwrap_err(), DecodeErrorKind::InvalidDecimal);
}

#[test]
fn uint_rejects_sign_and_overflow() {
    assert_eq!(Bpm::from_str("BPM\t-1\t0\t120.0").unwrap_err(), DecodeErrorKind::InvalidUint);
    assert_eq!(
        Bpm::from_str("BPM\t99999999999999999999999\t0\t120.0").unwrap_err(),
        DecodeErrorKind::InvalidUint
    );
    assert_eq!(Bpm::from_str("BPM\t\t0\t120.0").unwrap_err(), DecodeErrorKind::InvalidUint);
}

#[test]
fn bpm_round_trips_through_its_line() {
    let b = Bpm { beginning_measure: 12, offset: 96, bpm: dec(false, 185, 25, 2) };
    let line = b.to_line();
    assert_eq!(line, "BPM\t12\t96\t185.25");
    assert_eq!(Bpm::from_str(&line).unwrap(), b);
}

#[test]
fn bpm_def_round_trips_through_its_line() {
    let d = BpmDef {
        starting_bpm: dec(false, 120, 0, 1),
        mode: dec(false, 120, 0, 1),
        highest_bpm: dec(false, 180, 0, 0),
        lowest_bpm: dec(false, 90, 5, 1),
    };
    let line = d.to_line();
    assert_eq!(line, "BPM_DEF\t120.0\t120.0\t180\t90.5");
    assert_eq!(BpmDef::from_str(&line).unwrap(), d);
}

#[test]
fn met_records_round_trip_through_their_lines() {
    let d = MetDef { first_value: 4, second_value: 8 };
    assert_eq!(d.to_line(), "MET_DEF\t4\t8");
    assert_eq!(MetDef::from_str(&d.to_line()).unwrap(), d);
    let m = Met { beginning_measure: 2, offset: 96, second_value: 8, first_value: 3 };
    assert_eq!(m.to_line(), "MET\t2\t96\t8\t3");
    assert_eq!(Met::from_str(&m.to_line()).unwrap(), m);
}

#[test]
fn sfl_round_trips_through_its_payload() {
    let s = Sfl {
        beginning_measure: 3,
        offset: 192,
        duration: 384,
        multiplier: dec(true, 0, 75, 2),
    };
    let line = s.to_line();
    assert_eq!(line, "3\t192\t384\t-0.75");
    assert_eq!(Sfl::from_str(&line).unwrap(), s);
}

#[test]
fn encoded_fractions_keep_their_leading_zeros() {
    let b = Bpm { beginning_measure: 0, offset: 0, bpm: dec(false, 240, 5, 3) };
    let line = b.to_line();
    assert_eq!(line, "BPM\t0\t0\t240.005");
    assert_eq!(Bpm::from_str(&line).unwrap(), b);
}

#[test]
fn leading_zeros_are_accepted() {
    let b = Bpm::from_str("BPM\t007\t000\t120.0").unwrap();
    assert_eq!(b.beginning_measure, 7);
    assert_eq!(b.offset, 0);
}
