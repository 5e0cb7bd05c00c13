//! Laws of the decoder and the assembler, stated over the specification
//! model and proved once for all inputs: minimum-arity note decoding, the
//! closed color set, and the harmlessness of blank and unrecognized
//! lines.

use vstd::prelude::*;
use crate::decode::DecodeErrorKind;
use crate::note::is_color_token;
use crate::note::is_note_tag;
use crate::note::note_animation;
use crate::note::note_color;
use crate::note::spec_decode_note;
use crate::note::NoteModel;
use crate::num::dec_token_ok;
use crate::num::uint_token_ok;
use crate::spec_apply_line;
use crate::spec_classify;
use crate::spec_parse_lines;
use crate::text::line_blank;
use crate::text::line_fields;
use crate::ChartErrorModel;
use crate::ChartModel;
use crate::ParserContext;

verus! {

/// How many fields, tag included, the note tag `t` requires at least.
pub open spec fn spec_min_note_fields(t: Seq<char>) -> int {
    if t == "TAP"@ || t == "MNE"@ {
        5
    } else if t == "HLD"@ || t == "HXD"@ {
        6
    } else if t == "SLD"@ || t == "SLC"@ || t == "SXD"@ || t == "SXC"@ {
        8
    } else if t == "AHD"@ {
        7
    } else if t == "ALD"@ || t == "ASD"@ {
        12
    } else {
        6
    }
}

/// Decoding a note line with exactly its tag's minimum field count
/// succeeds, for every tag of the note alphabet, and the optional
/// animation field of the hold and slide shapes is absent.
pub proof fn lemma_note_min_arity(f: Seq<Seq<char>>)
    requires
        is_note_tag(f[0]),
        f.len() == spec_min_note_fields(f[0]),
        uint_token_ok(f[1]),
        uint_token_ok(f[2]),
        uint_token_ok(f[3]),
        uint_token_ok(f[4]),
        f[0] == "HLD"@ || f[0] == "HXD"@ || f[0] == "ALD"@ ==> uint_token_ok(f[5]),
        f[0] == "SLD"@ || f[0] == "SLC"@ || f[0] == "SXD"@ || f[0] == "SXC"@ ==> uint_token_ok(
            f[5],
        ) && uint_token_ok(f[6]) && uint_token_ok(f[7]),
        f[0] == "AHD"@ ==> uint_token_ok(f[6]),
        f[0] == "ALD"@ || f[0] == "ASD"@ ==> dec_token_ok(f[6]) && uint_token_ok(f[7])
            && uint_token_ok(f[8]) && uint_token_ok(f[9]) && dec_token_ok(f[10]) && is_color_token(
            f[11],
        ),
    ensures
        spec_decode_note(f) is Ok,
        spec_decode_note(f) matches Ok(n) ==> note_animation(n) is None,
{
    reveal_strlit("TAP");
    reveal_strlit("MNE");
    reveal_strlit("CHR");
    reveal_strlit("HLD");
    reveal_strlit("HXD");
    reveal_strlit("SLD");
    reveal_strlit("SLC");
    reveal_strlit("SXD");
    reveal_strlit("SXC");
    reveal_strlit("FLK");
    reveal_strlit("AIR");
    reveal_strlit("AUR");
    reveal_strlit("AUL");
    reveal_strlit("ADW");
    reveal_strlit("ADR");
    reveal_strlit("ADL");
    reveal_strlit("AHD");
    reveal_strlit("ALD");
    reveal_strlit("ASD");
}

/// One field past a hold line's minimum count is read as its animation
/// name.
pub proof fn lemma_hold_trailing_animation(f: Seq<Seq<char>>)
    requires
        f[0] == "HLD"@ || f[0] == "HXD"@,
        f.len() == 7,
        uint_token_ok(f[1]),
        uint_token_ok(f[2]),
        uint_token_ok(f[3]),
        uint_token_ok(f[4]),
        uint_token_ok(f[5]),
    ensures
        spec_decode_note(f) is Ok,
        spec_decode_note(f) matches Ok(n) ==> note_animation(n) == Some(f[6]),
{
    reveal_strlit("TAP");
    reveal_strlit("MNE");
    reveal_strlit("CHR");
    reveal_strlit("HLD");
    reveal_strlit("HXD");
    assert("HLD"@[0] == 'H' && "HLD"@[1] == 'L' && "HLD"@[2] == 'D');
    assert("HXD"@[0] == 'H' && "HXD"@[1] == 'X' && "HXD"@[2] == 'D');
    assert(match spec_decode_note(f) {
        Ok(NoteModel::Hold { animation, .. }) => animation == Some(f[6]),
        Ok(NoteModel::HoldWithExTapHead { animation, .. }) => animation == Some(f[6]),
        _ => false,
    });
}

/// A slide line's animation name stands one field past the skipped
/// field: with both present, the last field is read as the animation.
pub proof fn lemma_slide_trailing_animation(f: Seq<Seq<char>>)
    requires
        f[0] == "SLD"@ || f[0] == "SLC"@ || f[0] == "SXD"@ || f[0] == "SXC"@,
        f.len() == 10,
        uint_token_ok(f[1]),
        uint_token_ok(f[2]),
        uint_token_ok(f[3]),
        uint_token_ok(f[4]),
        uint_token_ok(f[5]),
        uint_token_ok(f[6]),
        uint_token_ok(f[7]),
    ensures
        spec_decode_note(f) is Ok,
        spec_decode_note(f) matches Ok(n) ==> note_animation(n) == Some(f[9]),
{
    reveal_strlit("TAP");
    reveal_strlit("MNE");
    reveal_strlit("CHR");
    reveal_strlit("HLD");
    reveal_strlit("HXD");
    reveal_strlit("SLD");
    reveal_strlit("SLC");
    reveal_strlit("SXD");
    reveal_strlit("SXC");
    assert("SLD"@[0] == 'S' && "SLD"@[1] == 'L' && "SLD"@[2] == 'D');
    assert("SLC"@[0] == 'S' && "SLC"@[1] == 'L' && "SLC"@[2] == 'C');
    assert("SXD"@[0] == 'S' && "SXD"@[1] == 'X' && "SXD"@[2] == 'D');
    assert("SXC"@[0] == 'S' && "SXC"@[1] == 'X' && "SXC"@[2] == 'C');
    if f[0] == "SLD"@ {
        assert(spec_decode_note(f) matches Ok(n) && n matches NoteModel::Slide { animation, .. }
            && animation == Some(f[9]));
    } else if f[0] == "SLC"@ {
        assert(spec_decode_note(f) matches Ok(n) && n matches NoteModel::SlideControlPoint {
            animation,
            ..
        } && animation == Some(f[9]));
    } else if f[0] == "SXD"@ {
        assert(spec_decode_note(f) matches Ok(n) && n matches NoteModel::SlideWithExTapHead {
            animation,
            ..
        } && animation == Some(f[9]));
    } else {
        assert(spec_decode_note(f) matches Ok(n) && n
            matches NoteModel::SlideControlPointWithExTapHead { animation, .. } && animation
            == Some(f[9]));
    }
}

/// On an air-trace or air-slide line whose other fields are valid, a
/// color token outside the closed color set is a domain error, and each
/// token inside the set is kept in the record unchanged.
pub proof fn lemma_color_closed_set(f: Seq<Seq<char>>)
    requires
        f[0] == "ALD"@ || f[0] == "ASD"@,
        f.len() == 12,
        uint_token_ok(f[1]),
        uint_token_ok(f[2]),
        uint_token_ok(f[3]),
        uint_token_ok(f[4]),
        f[0] == "ALD"@ ==> uint_token_ok(f[5]),
        dec_token_ok(f[6]),
        uint_token_ok(f[7]),
        uint_token_ok(f[8]),
        uint_token_ok(f[9]),
        dec_token_ok(f[10]),
    ensures
        !is_color_token(f[11]) ==> spec_decode_note(f) == Err::<NoteModel, DecodeErrorKind>(
            DecodeErrorKind::InvalidColor,
        ),
        is_color_token(f[11]) ==> spec_decode_note(f) is Ok,
        spec_decode_note(f) matches Ok(n) ==> note_color(n) == Some(f[11]),
{
    reveal_strlit("TAP");
    reveal_strlit("MNE");
    reveal_strlit("CHR");
    reveal_strlit("HLD");
    reveal_strlit("HXD");
    reveal_strlit("SLD");
    reveal_strlit("SLC");
    reveal_strlit("SXD");
    reveal_strlit("SXC");
    reveal_strlit("FLK");
    reveal_strlit("AIR");
    reveal_strlit("AUR");
    reveal_strlit("AUL");
    reveal_strlit("ADW");
    reveal_strlit("ADR");
    reveal_strlit("ADL");
    reveal_strlit("AHD");
    reveal_strlit("ALD");
    reveal_strlit("ASD");
    assert("ALD"@[0] == 'A' && "ALD"@[1] == 'L' && "ALD"@[2] == 'D');
    assert("ASD"@[0] == 'A' && "ASD"@[1] == 'S' && "ASD"@[2] == 'D');
    if is_color_token(f[11]) {
        if f[0] == "ALD"@ {
            assert(spec_decode_note(f) matches Ok(n) && n matches NoteModel::AirCrush {
                color,
                ..
            } && color == f[11]);
        } else {
            assert(spec_decode_note(f) matches Ok(n) && n matches NoteModel::AirSlide {
                color,
                ..
            } && color == f[11]);
        }
    }
}

/// The starting line number shifts only the line numbers of reported
/// errors: which lines parse, the chart they build, and the kind and tag
/// of any error are the same.
pub proof fn lemma_lineno_shifts_only(ls: Seq<Seq<char>>, n1: int, n2: int, c: ChartModel)
    ensures
        spec_parse_lines(ls, n1, c) is Ok <==> spec_parse_lines(ls, n2, c) is Ok,
        spec_parse_lines(ls, n1, c) matches Ok(c1) ==> spec_parse_lines(ls, n2, c) == Ok::<
            ChartModel,
            ChartErrorModel,
        >(c1),
        spec_parse_lines(ls, n1, c) matches Err(e1) ==> spec_parse_lines(ls, n2, c) matches Err(e2)
            && e2.kind == e1.kind && e2.tag == e1.tag && e2.line - n2 == e1.line - n1,
    decreases ls.len(),
{
    if ls.len() != 0 {
        match spec_apply_line(c, ls[0]) {
            Ok(c2) => {
                lemma_lineno_shifts_only(ls.drop_first(), n1 + 1, n2 + 1, c2);
            },
            Err(k) => {},
        }
    }
}

/// A line is inert when it is blank or its tag is unrecognized.
pub open spec fn inert_line(raw: Seq<char>) -> bool {
    line_blank(raw) || spec_classify(line_fields(raw)[0]) is Skip
}

/// An inert line leaves the chart under construction exactly as it was.
pub proof fn lemma_inert_apply(c: ChartModel, raw: Seq<char>)
    requires
        inert_line(raw),
    ensures
        spec_apply_line(c, raw) == Ok::<ChartModel, DecodeErrorKind>(c),
{
}

/// Inserting an inert line anywhere in the input never changes whether
/// the parse succeeds, never changes the chart it builds, and never
/// changes the kind or tag of the error it reports.
pub proof fn lemma_inert_line_ignored(
    ls: Seq<Seq<char>>,
    i: int,
    extra: Seq<char>,
    n: int,
    c: ChartModel,
)
    requires
        0 <= i <= ls.len(),
        inert_line(extra),
    ensures
        spec_parse_lines(ls.insert(i, extra), n, c) is Ok <==> spec_parse_lines(ls, n, c) is Ok,
        spec_parse_lines(ls, n, c) matches Ok(c1) ==> spec_parse_lines(ls.insert(i, extra), n, c)
            == Ok::<ChartModel, ChartErrorModel>(c1),
        spec_parse_lines(ls, n, c) matches Err(e1) ==> spec_parse_lines(ls.insert(i, extra), n, c)
            matches Err(e2) && e2.kind == e1.kind && e2.tag == e1.tag,
    decreases ls.len(),
{
    if i == 0 {
        assert(ls.insert(0, extra)[0] == extra);
        lemma_inert_apply(c, extra);
        assert(ls.insert(0, extra).drop_first() =~~= ls);
        lemma_lineno_shifts_only(ls, n, n + 1, c);
    } else {
        assert(ls.insert(i, extra)[0] == ls[0]);
        match spec_apply_line(c, ls[0]) {
            Ok(c2) => {
                assert(ls.insert(i, extra).drop_first() =~~= ls.drop_first().insert(i - 1, extra));
                lemma_inert_line_ignored(ls.drop_first(), i - 1, extra, n + 1, c2);
            },
            Err(k) => {},
        }
    }
}

/// Blank and whitespace-only lines never affect the parsed aggregate:
/// inserting one anywhere changes neither success, nor any field or list
/// of the chart, nor the kind or tag of a reported error.
pub proof fn lemma_blank_line_ignored(
    ls: Seq<Seq<char>>,
    i: int,
    blank: Seq<char>,
    n: int,
    c: ChartModel,
)
    requires
        0 <= i <= ls.len(),
        line_blank(blank),
    ensures
        spec_parse_lines(ls.insert(i, blank), n, c) is Ok <==> spec_parse_lines(ls, n, c) is Ok,
        spec_parse_lines(ls, n, c) matches Ok(c1) ==> spec_parse_lines(ls.insert(i, blank), n, c)
            == Ok::<ChartModel, ChartErrorModel>(c1),
        spec_parse_lines(ls, n, c) matches Err(e1) ==> spec_parse_lines(ls.insert(i, blank), n, c)
            matches Err(e2) && e2.kind == e1.kind && e2.tag == e1.tag,
{
    lemma_inert_line_ignored(ls, i, blank, n, c);
}

/// Lines with unrecognized leading tags never raise an error and never
/// append to any list: inserting one anywhere changes neither success,
/// nor any field or list of the chart, nor the kind or tag of a reported
/// error.
pub proof fn lemma_unrecognized_line_ignored(
    ls: Seq<Seq<char>>,
    i: int,
    extra: Seq<char>,
    n: int,
    c: ChartModel,
)
    requires
        0 <= i <= ls.len(),
        spec_classify(line_fields(extra)[0]) is Skip,
    ensures
        spec_parse_lines(ls.insert(i, extra), n, c) is Ok <==> spec_parse_lines(ls, n, c) is Ok,
        spec_parse_lines(ls, n, c) matches Ok(c1) ==> spec_parse_lines(ls.insert(i, extra), n, c)
            == Ok::<ChartModel, ChartErrorModel>(c1),
        spec_parse_lines(ls, n, c) matches Err(e1) ==> spec_parse_lines(ls.insert(i, extra), n, c)
            matches Err(e2) && e2.kind == e1.kind && e2.tag == e1.tag,
{
    lemma_inert_line_ignored(ls, i, extra, n, c);
}

} // verus!
