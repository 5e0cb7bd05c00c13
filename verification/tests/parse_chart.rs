use nai_rs::decode::DecodeErrorKind;
use nai_rs::note::NoteType;
use nai_rs::num::Decimal;
use nai_rs::{ChuniChart, ParserContext};

fn dec(neg: bool, units: u64, frac_num: u64, frac_len: u64) -> Decimal {
    Decimal { neg, units, frac_num, frac_len }
}

fn full_chart_text() -> String {
    [
        "VERSION\t1.12.00",
        "MUSIC\t0",
        "SEQUENCEID\t0",
        "DIFFICULT\t00",
        "LEVEL\t13.5",
        "CREATOR\tSomeone",
        "BPM_DEF\t120.0\t120.0\t120.0\t120.0",
        "MET_DEF\t4\t4",
        "RESOLUTION\t384",
        "CLK_DEF\t384",
        "PROGJUDGE_BPM\t240.000",
        "PROGJUDGE_AER\t0.999",
        "TUTORIAL\t0",
        "",
        "BPM\t0\t0\t120.0",
        "MET\t0\t0\t4\t4",
        "SFL\t2\t0\t384\t1.5",
        "TAP\t10\t96\t3\t2",
        "HLD\t11\t0\t5\t3\t192",
        "AIR\t12\t0\t8\t2\tTAP",
    ]
    .join("\n")
}

#[test]
fn full_chart_parses_with_every_section() {
    let chart = ChuniChart::parse(full_chart_text()).unwrap();
    assert_eq!(chart.version, "1.12.00");
    assert_eq!(chart.music, 0);
    assert_eq!(chart.sequence_id, 0);
    assert_eq!(chart.difficult, 0);
    assert_eq!(chart.level, dec(false, 13, 5, 1));
    assert_eq!(chart.creator, "Someone");
    assert_eq!(chart.bpm_def.starting_bpm, dec(false, 120, 0, 1));
    assert_eq!(chart.met_def.first_value, 4);
    assert_eq!(chart.met_def.second_value, 4);
    assert_eq!(chart.resolution, 384);
    assert_eq!(chart.clk_def, 384);
    assert_eq!(chart.progjudge_bpm, dec(false, 240, 0, 3));
    assert_eq!(chart.progjudge_aer, dec(false, 0, 999, 3));
    assert!(!chart.tutorial);
    assert_eq!(chart.bpm.len(), 1);
    assert_eq!(chart.bpm[0].bpm, dec(false, 120, 0, 1));
    assert_eq!(chart.met.len(), 1);
    assert_eq!(chart.met[0].second_value, 4);
    assert_eq!(chart.sfl.len(), 1);
    assert_eq!(chart.sfl[0].beginning_measure, 2);
    assert_eq!(chart.sfl[0].multiplier, dec(false, 1, 5, 1));
    assert_eq!(chart.notes.len(), 3);
    assert!(matches!(chart.notes[0], NoteType::Tap(_)));
    assert!(matches!(chart.notes[1], NoteType::Hold(_)));
    assert!(matches!(chart.notes[2], NoteType::Air(_)));
}

#[test]
fn lists_preserve_file_order() {
    let text = "BPM\t0\t0\t120.0\nBPM\t4\t0\t180.0\nTAP\t1\t0\t0\t1\nMNE\t2\t0\t0\t1\n";
    let chart = ChuniChart::parse(text.to_string()).unwrap();
    assert_eq!(chart.bpm.len(), 2);
    assert_eq!(chart.bpm[0].beginning_measure, 0);
    assert_eq!(chart.bpm[1].beginning_measure, 4);
    assert_eq!(chart.notes.len(), 2);
    assert!(matches!(chart.notes[0], NoteType::Tap(_)));
    assert!(matches!(chart.notes[1], NoteType::Mine(_)));
}

#[test]
fn blank_lines_change_nothing() {
    let plain = ChuniChart::parse("BPM\t0\t0\t120.0\nTAP\t1\t0\t0\t1".to_string()).unwrap();
    let airy =
        ChuniChart::parse("\n\nBPM\t0\t0\t120.0\n   \n\t\nTAP\t1\t0\t0\t1\n\n".to_string())
            .unwrap();
    assert_eq!(plain, airy);
}

#[test]
fn unrecognized_tags_are_skipped_silently() {
    let plain = ChuniChart::parse("TAP\t1\t0\t0\t1".to_string()).unwrap();
    let noisy = ChuniChart::parse(
        "NOTE this file is historic\nTAP\t1\t0\t0\t1\nEOF\t3".to_string(),
    )
    .unwrap();
    assert_eq!(plain, noisy);
    assert_eq!(noisy.notes.len(), 1);
}

#[test]
fn empty_input_yields_the_default_chart() {
    let chart = ChuniChart::parse(String::new()).unwrap();
    assert_eq!(chart, ChuniChart::default());
}

#[test]
fn later_header_lines_overwrite_earlier_ones() {
    let chart =
        ChuniChart::parse("VERSION\t1.00.00\nVERSION\t1.12.00".to_string()).unwrap();
    assert_eq!(chart.version, "1.12.00");
}

#[test]
fn tutorial_is_true_for_any_nonzero_value() {
    assert!(ChuniChart::parse("TUTORIAL\t1".to_string()).unwrap().tutorial);
    assert!(ChuniChart::parse("TUTORIAL\t7".to_string()).unwrap().tutorial);
    assert!(!ChuniChart::parse("TUTORIAL\t0".to_string()).unwrap().tutorial);
}

#[test]
fn errors_carry_line_number_tag_and_kind() {
    let text = "VERSION\t1.12.00\nBPM\t0\t0\tslow\nTAP\t1\t0\t0\t1";
    let e = ChuniChart::parse(text.to_string()).unwrap_err();
    assert_eq!(e.line, 2);
    assert_eq!(e.tag, "BPM");
    assert_eq!(e.kind, DecodeErrorKind::InvalidDecimal);
}

#[test]
fn first_failing_line_aborts_the_parse() {
    let text = "TAP\t1\t0\t0\nHLD\tbad\t0\t0\t1\t96";
    let e = ChuniChart::parse(text.to_string()).unwrap_err();
    assert_eq!(e.line, 1);
    assert_eq!(e.tag, "TAP");
    assert_eq!(e.kind, DecodeErrorKind::MissingField);
}

#[test]
fn recognized_tag_with_bad_fields_is_never_skipped() {
    let e = ChuniChart::parse("MET\t0\t0\tfour\tfour".to_string()).unwrap_err();
    assert_eq!(e.kind, DecodeErrorKind::InvalidUint);
    assert_eq!(e.tag, "MET");
}

#[test]
fn crlf_line_endings_are_tolerated() {
    let chart = ChuniChart::parse("VERSION\t1.12.00\r\nTAP\t1\t0\t0\t1\r\n".to_string()).unwrap();
    assert_eq!(chart.version, "1.12.00");
    assert_eq!(chart.notes.len(), 1);
}

#[test]
fn get_section_classifies_by_the_first_field() {
    assert_eq!(ParserContext::get_section("VERSION\t1.12.00"), ParserContext::Version);
    assert_eq!(ParserContext::get_section("BPM\t0\t0\t120.0"), ParserContext::Bpm);
    assert_eq!(ParserContext::get_section("SFL\t0\t0\t1\t1.0"), ParserContext::Sfl);
    assert_eq!(ParserContext::get_section("TAP\t0\t0\t0\t1"), ParserContext::Note);
    assert_eq!(ParserContext::get_section("ASD\t0\t0\t0\t1"), ParserContext::Note);
    assert_eq!(ParserContext::get_section("GARBAGE\t1"), ParserContext::Skip);
    assert_eq!(ParserContext::get_section(""), ParserContext::Skip);
}

#[test]
fn every_note_tag_classifies_as_a_note() {
    let tags = [
        "TAP", "CHR", "HLD", "HXD", "SLD", "SLC", "SXD", "SXC", "FLK", "AIR", "AUR", "AUL", "AHD",
        "ADW", "ADR", "ADL", "ALD", "ASD", "MNE",
    ];
    for tag in tags {
        assert_eq!(ParserContext::from_str(tag), ParserContext::Note);
    }
}

#[test]
fn sfl_line_in_a_chart_drops_its_tag_before_decoding() {
    let chart = ChuniChart::parse("SFL\t3\t192\t384\t2.0".to_string()).unwrap();
    assert_eq!(chart.sfl.len(), 1);
    assert_eq!(chart.sfl[0].beginning_measure, 3);
    assert_eq!(chart.sfl[0].offset, 192);
    assert_eq!(chart.sfl[0].duration, 384);
    assert_eq!(chart.sfl[0].multiplier, dec(false, 2, 0, 1));
}

#[test]
fn one_note_of_each_tag_parses_in_one_chart() {
    let text = [
        "TAP\t0\t0\t0\t1",
        "CHR\t0\t0\t0\t1\tCE",
        "HLD\t0\t0\t0\t1\t96",
        "HXD\t0\t0\t0\t1\t96",
        "SLD\t0\t0\t0\t1\t96\t2\t1",
        "SLC\t0\t0\t0\t1\t96\t2\t1",
        "SXD\t0\t0\t0\t1\t96\t2\t1",
        "SXC\t0\t0\t0\t1\t96\t2\t1",
        "FLK\t0\t0\t0\t1\tL",
        "AIR\t0\t0\t0\t1\tTAP",
        "AUR\t0\t0\t0\t1\tTAP",
        "AUL\t0\t0\t0\t1\tTAP",
        "AHD\t0\t0\t0\t1\tTAP\t96",
        "ADW\t0\t0\t0\t1\tTAP",
        "ADR\t0\t0\t0\t1\tTAP",
        "ADL\t0\t0\t0\t1\tTAP",
        "ALD\t0\t0\t0\t1\t0\t1.0\t96\t0\t1\t1.0\tRED",
        "ASD\t0\t0\t0\t1\tTAP\t1.0\t96\t0\t1\t1.0\tBLU",
        "MNE\t0\t0\t0\t1",
    ]
    .join("\n");
    let chart = ChuniChart::parse(text).unwrap();
    assert_eq!(chart.notes.len(), 19);
    assert!(matches!(chart.notes[16], NoteType::AirCrush(_)));
    assert!(matches!(chart.notes[18], NoteType::Mine(_)));
}
