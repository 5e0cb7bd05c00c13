//! Note records: the tag-dispatched, variable-arity decoder that turns a
//! note line into one of the closed set of note variants.
//!
//! Every note line shares a common prefix of four unsigned fields
//! (measure, offset, cell, width); the leading tag then selects which
//! suffix fields follow.  Several tags alias one underlying shape.

use vstd::prelude::*;
use crate::decode::ef_dec;
use crate::decode::ef_str;
use crate::encode::decimal_to_string;
use crate::encode::join_tokens;
use crate::encode::lemma_dec_str_clean;
use crate::encode::lemma_dec_str_reads_back;
use crate::encode::lemma_join_fields;
use crate::encode::lemma_uint_str_clean;
use crate::encode::spec_dec_str;
use crate::encode::spec_uint_str;
use crate::encode::token_clean;
use crate::encode::uint_to_string;
use crate::decode::ef_uint;
use crate::decode::sf_dec;
use crate::decode::sf_str;
use crate::decode::sf_uint;
use crate::decode::DecodeErrorKind;
use crate::num::Decimal;
use crate::text::line_fields;
use crate::text::split_line_fields;
use crate::text::str_eq;

verus! {

/// Tap notes are the most basic notes that can be charted: the player
/// hits the occupied cells at the required time.  This shape is also the
/// universal note prefix.
#[derive(Clone, Debug, PartialEq, Eq)]
pub struct Tap {
    /// The measure the note is placed in.
    pub measure: usize,
    /// The offset of the note from the start of the measure, in
    /// resolution ticks.
    pub offset: usize,
    /// The leftmost playfield column the note occupies, 0 through 15.
    pub cell: usize,
    /// How many columns the note spans, extending rightward; at least 1.
    pub width: usize,
}

/// ExTaps are taps that always judge as a critical hit; they carry the
/// name of the animation played when hit.
#[derive(Clone, Debug, PartialEq, Eq)]
pub struct ExTap {
    /// The measure the note is placed in.
    pub measure: usize,
    /// The offset of the note from the start of the measure, in
    /// resolution ticks.
    pub offset: usize,
    /// The leftmost playfield column the note occupies, 0 through 15.
    pub cell: usize,
    /// How many columns the note spans, extending rightward; at least 1.
    pub width: usize,
    /// The hit-animation name (`UP`, `DW`, `CE`, `LS`, `RS`, `LC`, `RC`).
    pub animation: String,
}

/// Hold notes keep the designated cells pressed over a continuous span.
#[derive(Clone, Debug, PartialEq, Eq)]
pub struct Hold {
    /// The measure the note is placed in.
    pub measure: usize,
    /// The offset of the note from the start of the measure, in
    /// resolution ticks.
    pub offset: usize,
    /// The leftmost playfield column the note occupies, 0 through 15.
    pub cell: usize,
    /// How many columns the note spans, extending rightward; at least 1.
    pub width: usize,
    /// How long the hold lasts, in resolution ticks.
    pub duration: usize,
    /// The hit-animation name of an ex-head hold; `None` on a plain hold.
    pub animation: Option<String>,
}

/// A hold whose head judges as an ExTap; same shape as [`Hold`].
pub type HoldWithExTapHead = Hold;

/// Slide notes trace a path from a starting span to an ending span.
#[derive(Clone, Debug, PartialEq, Eq)]
pub struct Slide {
    /// The measure the note is placed in.
    pub measure: usize,
    /// The offset of the note from the start of the measure, in
    /// resolution ticks.
    pub offset: usize,
    /// The leftmost playfield column the note occupies, 0 through 15.
    pub cell: usize,
    /// How many columns the note spans, extending rightward; at least 1.
    pub width: usize,
    /// How long the slide segment lasts, in resolution ticks.
    pub duration: usize,
    /// The leftmost column of the ending span.
    pub end_cell: usize,
    /// How many columns the ending span covers.
    pub end_width: usize,
    /// The optional trailing animation name.  The decoder skips one field
    /// before reading it, a quirk of the format.
    pub animation: Option<String>,
}

/// A slide control point; same shape as [`Slide`].
pub type SlideControlPoint = Slide;

/// A slide whose head judges as an ExTap; same shape as [`Slide`].
pub type SlideWithExTapHead = Slide;

/// A slide control point with an ExTap head; same shape as [`Slide`].
pub type SlideControlPointWithExTapHead = Slide;

/// Flick notes; their extra field's meaning is unresolved in the format
/// and is preserved verbatim.
#[derive(Clone, Debug, PartialEq, Eq)]
pub struct Flick {
    /// The measure the note is placed in.
    pub measure: usize,
    /// The offset of the note from the start of the measure, in
    /// resolution ticks.
    pub offset: usize,
    /// The leftmost playfield column the note occupies, 0 through 15.
    pub cell: usize,
    /// How many columns the note spans, extending rightward; at least 1.
    pub width: usize,
    /// An opaque field of unresolved meaning, kept as written.
    pub unknown: String,
}

/// Air notes attach an upward (or directional) arrow to another note.
#[derive(Clone, Debug, PartialEq, Eq)]
pub struct Air {
    /// The measure the note is placed in.
    pub measure: usize,
    /// The offset of the note from the start of the measure, in
    /// resolution ticks.
    pub offset: usize,
    /// The leftmost playfield column the note occupies, 0 through 15.
    pub cell: usize,
    /// How many columns the note spans, extending rightward; at least 1.
    pub width: usize,
    /// The tag of the note this air note attaches to.
    pub target_note: String,
}

/// An air note pointing up-right; same shape as [`Air`].
pub type AirUpRight = Air;

/// An air note pointing up-left; same shape as [`Air`].
pub type AirUpLeft = Air;

/// An air note pointing down; same shape as [`Air`].
pub type AirDown = Air;

/// An air note pointing down-right; same shape as [`Air`].
pub type AirDownRight = Air;

/// An air note pointing down-left; same shape as [`Air`].
pub type AirDownLeft = Air;

/// Air-hold notes keep an airborne position over a continuous span.
#[derive(Clone, Debug, PartialEq, Eq)]
pub struct AirHold {
    /// The measure the note is placed in.
    pub measure: usize,
    /// The offset of the note from the start of the measure, in
    /// resolution ticks.
    pub offset: usize,
    /// The leftmost playfield column the note occupies, 0 through 15.
    pub cell: usize,
    /// How many columns the note spans, extending rightward; at least 1.
    pub width: usize,
    /// The tag of the note this air hold attaches to.
    pub target_note: String,
    /// How long the air hold lasts, in resolution ticks.
    pub duration: usize,
}

/// Air-trace (air-crush) notes: a colored airborne bar from a starting
/// span and height to an ending span and height.
#[derive(Clone, Debug, PartialEq, Eq)]
pub struct AirTrace {
    /// The measure the note is placed in.
    pub measure: usize,
    /// The offset of the note from the start of the measure, in
    /// resolution ticks.
    pub offset: usize,
    /// The leftmost playfield column the note occupies, 0 through 15.
    pub cell: usize,
    /// How many columns the note spans, extending rightward; at least 1.
    pub width: usize,
    /// A field of unresolved meaning.
    pub unknown: usize,
    /// The height the bar starts at.
    pub starting_height: Decimal,
    /// How long the bar lasts, in resolution ticks.
    pub duration: usize,
    /// The leftmost column of the ending span.
    pub end_cell: usize,
    /// How many columns the ending span covers.
    pub end_width: usize,
    /// The height the bar ends at.
    pub target_height: Decimal,
    /// The bar's color, one of the closed color set.
    pub color: String,
}

/// An air-crush note; same shape as [`AirTrace`].
pub type AirCrush = AirTrace;

/// Air-slide notes: a colored airborne path attached to a target note.
#[derive(Clone, Debug, PartialEq, Eq)]
pub struct AirSlide {
    /// The measure the note is placed in.
    pub measure: usize,
    /// The offset of the note from the start of the measure, in
    /// resolution ticks.
    pub offset: usize,
    /// The leftmost playfield column the note occupies, 0 through 15.
    pub cell: usize,
    /// How many columns the note spans, extending rightward; at least 1.
    pub width: usize,
    /// The tag of the note this air slide attaches to.
    pub target_note: String,
    /// The height the path starts at.
    pub starting_height: Decimal,
    /// How long the path lasts, in resolution ticks.
    pub duration: usize,
    /// The leftmost column of the ending span.
    pub end_cell: usize,
    /// How many columns the ending span covers.
    pub end_width: usize,
    /// The height the path ends at.
    pub target_height: Decimal,
    /// The path's color, one of the closed color set.
    pub color: String,
}

/// An air-slide control point; same shape as [`AirSlide`].
pub type AirSlideControlPoint = AirSlide;

/// A mine note: touching its cells loses score; same shape as [`Tap`].
pub type Mine = Tap;

/// One decoded note, tagged by its line's leading token.
#[derive(Clone, Debug, PartialEq, Eq)]
pub enum NoteType {
    /// A `TAP` line.
    Tap(Tap),
    /// A `CHR` line.
    ExTap(ExTap),
    /// An `HLD` line.
    Hold(Hold),
    /// An `HXD` line.
    HoldWithExTapHead(HoldWithExTapHead),
    /// An `SLD` line.
    Slide(Slide),
    /// An `SLC` line.
    SlideControlPoint(SlideControlPoint),
    /// An `SXD` line.
    SlideWithExTapHead(SlideWithExTapHead),
    /// An `SXC` line.
    SlideControlPointWithExTapHead(SlideControlPointWithExTapHead),
    /// An `FLK` line.
    Flick(Flick),
    /// An `AIR` line.
    Air(Air),
    /// An `AUR` line.
    AirUpRight(AirUpRight),
    /// An `AUL` line.
    AirUpLeft(AirUpLeft),
    /// An `AHD` line.
    AirHold(AirHold),
    /// An `ADW` line.
    AirDown(AirDown),
    /// An `ADR` line.
    AirDownRight(AirDownRight),
    /// An `ADL` line.
    AirDownLeft(AirDownLeft),
    /// An `ALD` line.
    AirCrush(AirCrush),
    /// An `ASD` line.
    AirSlide(AirSlide),
    /// An `SXC`-family air-slide control point; an `ASC` shape shares
    /// `ASD`'s fields.
    AirSlideControlPoint(AirSlideControlPoint),
    /// An `MNE` line.
    Mine(Mine),
}

/// The mathematical model of one decoded note: the same variants with
/// strings abstracted to character sequences.
pub enum NoteModel {
    /// Model of a `TAP` note.
    Tap { measure: usize, offset: usize, cell: usize, width: usize },
    /// Model of a `CHR` note.
    ExTap { measure: usize, offset: usize, cell: usize, width: usize, animation: Seq<char> },
    /// Model of an `HLD` note.
    Hold {
        measure: usize,
        offset: usize,
        cell: usize,
        width: usize,
        duration: usize,
        animation: Option<Seq<char>>,
    },
    /// Model of an `HXD` note.
    HoldWithExTapHead {
        measure: usize,
        offset: usize,
        cell: usize,
        width: usize,
        duration: usize,
        animation: Option<Seq<char>>,
    },
    /// Model of an `SLD` note.
    Slide {
        measure: usize,
        offset: usize,
        cell: usize,
        width: usize,
        duration: usize,
        end_cell: usize,
        end_width: usize,
        animation: Option<Seq<char>>,
    },
    /// Model of an `SLC` note.
    SlideControlPoint {
        measure: usize,
        offset: usize,
        cell: usize,
        width: usize,
        duration: usize,
        end_cell: usize,
        end_width: usize,
        animation: Option<Seq<char>>,
    },
    /// Model of an `SXD` note.
    SlideWithExTapHead {
        measure: usize,
        offset: usize,
        cell: usize,
        width: usize,
        duration: usize,
        end_cell: usize,
        end_width: usize,
        animation: Option<Seq<char>>,
    },
    /// Model of an `SXC` note.
    SlideControlPointWithExTapHead {
        measure: usize,
        offset: usize,
        cell: usize,
        width: usize,
        duration: usize,
        end_cell: usize,
        end_width: usize,
        animation: Option<Seq<char>>,
    },
    /// Model of an `FLK` note.
    Flick { measure: usize, offset: usize, cell: usize, width: usize, unknown: Seq<char> },
    /// Model of an `AIR` note.
    Air { measure: usize, offset: usize, cell: usize, width: usize, target_note: Seq<char> },
    /// Model of an `AUR` note.
    AirUpRight { measure: usize, offset: usize, cell: usize, width: usize, target_note: Seq<char> },
    /// Model of an `AUL` note.
    AirUpLeft { measure: usize, offset: usize, cell: usize, width: usize, target_note: Seq<char> },
    /// Model of an `AHD` note.
    AirHold {
        measure: usize,
        offset: usize,
        cell: usize,
        width: usize,
        target_note: Seq<char>,
        duration: usize,
    },
    /// Model of an `ADW` note.
    AirDown { measure: usize, offset: usize, cell: usize, width: usize, target_note: Seq<char> },
    /// Model of an `ADR` note.
    AirDownRight {
        measure: usize,
        offset: usize,
        cell: usize,
        width: usize,
        target_note: Seq<char>,
    },
    /// Model of an `ADL` note.
    AirDownLeft {
        measure: usize,
        offset: usize,
        cell: usize,
        width: usize,
        target_note: Seq<char>,
    },
    /// Model of an `ALD` note.
    AirCrush {
        measure: usize,
        offset: usize,
        cell: usize,
        width: usize,
        unknown: usize,
        starting_height: Decimal,
        duration: usize,
        end_cell: usize,
        end_width: usize,
        target_height: Decimal,
        color: Seq<char>,
    },
    /// Model of an `ASD` note.
    AirSlide {
        measure: usize,
        offset: usize,
        cell: usize,
        width: usize,
        target_note: Seq<char>,
        starting_height: Decimal,
        duration: usize,
        end_cell: usize,
        end_width: usize,
        target_height: Decimal,
        color: Seq<char>,
    },
    /// Model of an air-slide control point.
    AirSlideControlPoint {
        measure: usize,
        offset: usize,
        cell: usize,
        width: usize,
        target_note: Seq<char>,
        starting_height: Decimal,
        duration: usize,
        end_cell: usize,
        end_width: usize,
        target_height: Decimal,
        color: Seq<char>,
    },
    /// Model of an `MNE` note.
    Mine { measure: usize, offset: usize, cell: usize, width: usize },
}

/// The model of an optional owned string.
pub open spec fn opt_view(o: Option<String>) -> Option<Seq<char>> {
    match o {
        Some(s) => Some(s@),
        None => None,
    }
}

impl View for NoteType {
    type V = NoteModel;

    /// The note with its strings abstracted to character sequences.
    open spec fn view(&self) -> NoteModel {
        match self {
            NoteType::Tap(n) => NoteModel::Tap {
                measure: n.measure,
                offset: n.offset,
                cell: n.cell,
                width: n.width,
            },
            NoteType::ExTap(n) => NoteModel::ExTap {
                measure: n.measure,
                offset: n.offset,
                cell: n.cell,
                width: n.width,
                animation: n.animation@,
            },
            NoteType::Hold(n) => NoteModel::Hold {
                measure: n.measure,
                offset: n.offset,
                cell: n.cell,
                width: n.width,
                duration: n.duration,
                animation: opt_view(n.animation),
            },
            NoteType::HoldWithExTapHead(n) => NoteModel::HoldWithExTapHead {
                measure: n.measure,
                offset: n.offset,
                cell: n.cell,
                width: n.width,
                duration: n.duration,
                animation: opt_view(n.animation),
            },
            NoteType::Slide(n) => NoteModel::Slide {
                measure: n.measure,
                offset: n.offset,
                cell: n.cell,
                width: n.width,
                duration: n.duration,
                end_cell: n.end_cell,
                end_width: n.end_width,
                animation: opt_view(n.animation),
            },
            NoteType::SlideControlPoint(n) => NoteModel::SlideControlPoint {
                measure: n.measure,
                offset: n.offset,
                cell: n.cell,
                width: n.width,
                duration: n.duration,
                end_cell: n.end_cell,
                end_width: n.end_width,
                animation: opt_view(n.animation),
            },
            NoteType::SlideWithExTapHead(n) => NoteModel::SlideWithExTapHead {
                measure: n.measure,
                offset: n.offset,
                cell: n.cell,
                width: n.width,
                duration: n.duration,
                end_cell: n.end_cell,
                end_width: n.end_width,
                animation: opt_view(n.animation),
            },
            NoteType::SlideControlPointWithExTapHead(n) => NoteModel::SlideControlPointWithExTapHead {
                measure: n.measure,
                offset: n.offset,
                cell: n.cell,
                width: n.width,
                duration: n.duration,
                end_cell: n.end_cell,
                end_width: n.end_width,
                animation: opt_view(n.animation),
            },
            NoteType::Flick(n) => NoteModel::Flick {
                measure: n.measure,
                offset: n.offset,
                cell: n.cell,
                width: n.width,
                unknown: n.unknown@,
            },
            NoteType::Air(n) => NoteModel::Air {
                measure: n.measure,
                offset: n.offset,
                cell: n.cell,
                width: n.width,
                target_note: n.target_note@,
            },
            NoteType::AirUpRight(n) => NoteModel::AirUpRight {
                measure: n.measure,
                offset: n.offset,
                cell: n.cell,
                width: n.width,
                target_note: n.target_note@,
            },
            NoteType::AirUpLeft(n) => NoteModel::AirUpLeft {
                measure: n.measure,
                offset: n.offset,
                cell: n.cell,
                width: n.width,
                target_note: n.target_note@,
            },
            NoteType::AirHold(n) => NoteModel::AirHold {
                measure: n.measure,
                offset: n.offset,
                cell: n.cell,
                width: n.width,
                target_note: n.target_note@,
                duration: n.duration,
            },
            NoteType::AirDown(n) => NoteModel::AirDown {
                measure: n.measure,
                offset: n.offset,
                cell: n.cell,
                width: n.width,
                target_note: n.target_note@,
            },
            NoteType::AirDownRight(n) => NoteModel::AirDownRight {
                measure: n.measure,
                offset: n.offset,
                cell: n.cell,
                width: n.width,
                target_note: n.target_note@,
            },
            NoteType::AirDownLeft(n) => NoteModel::AirDownLeft {
                measure: n.measure,
                offset: n.offset,
                cell: n.cell,
                width: n.width,
                target_note: n.target_note@,
            },
            NoteType::AirCrush(n) => NoteModel::AirCrush {
                measure: n.measure,
                offset: n.offset,
                cell: n.cell,
                width: n.width,
                unknown: n.unknown,
                starting_height: n.starting_height,
                duration: n.duration,
                end_cell: n.end_cell,
                end_width: n.end_width,
                target_height: n.target_height,
                color: n.color@,
            },
            NoteType::AirSlide(n) => NoteModel::AirSlide {
                measure: n.measure,
                offset: n.offset,
                cell: n.cell,
                width: n.width,
                target_note: n.target_note@,
                starting_height: n.starting_height,
                duration: n.duration,
                end_cell: n.end_cell,
                end_width: n.end_width,
                target_height: n.target_height,
                color: n.color@,
            },
            NoteType::AirSlideControlPoint(n) => NoteModel::AirSlideControlPoint {
                measure: n.measure,
                offset: n.offset,
                cell: n.cell,
                width: n.width,
                target_note: n.target_note@,
                starting_height: n.starting_height,
                duration: n.duration,
                end_cell: n.end_cell,
                end_width: n.end_width,
                target_height: n.target_height,
                color: n.color@,
            },
            NoteType::Mine(n) => NoteModel::Mine {
                measure: n.measure,
                offset: n.offset,
                cell: n.cell,
                width: n.width,
            },
        }
    }
}

/// The closed set of color tokens an `ALD`/`ASD` line may carry.
pub open spec fn is_color_token(s: Seq<char>) -> bool {
    ||| s == "GRY"@
    ||| s == "RED"@
    ||| s == "ORN"@
    ||| s == "YEL"@
    ||| s == "AQA"@
    ||| s == "PPL"@
    ||| s == "PNK"@
    ||| s == "CYN"@
    ||| s == "BLK"@
    ||| s == "VLT"@
    ||| s == "LIM"@
    ||| s == "BLU"@
    ||| s == "NON"@
    ||| s == "DEF"@
}

/// Tests whether `s` is one of the closed color tokens.
pub fn is_color_exec(s: &str) -> (r: bool)
    ensures
        r == is_color_token(s@),
{
    str_eq(s, "GRY") || str_eq(s, "RED") || str_eq(s, "ORN") || str_eq(s, "YEL") || str_eq(
        s,
        "AQA",
    ) || str_eq(s, "PPL") || str_eq(s, "PNK") || str_eq(s, "CYN") || str_eq(s, "BLK") || str_eq(
        s,
        "VLT",
    ) || str_eq(s, "LIM") || str_eq(s, "BLU") || str_eq(s, "NON") || str_eq(s, "DEF")
}

/// The closed set of note tags.
pub open spec fn is_note_tag(t: Seq<char>) -> bool {
    ||| t == "TAP"@
    ||| t == "CHR"@
    ||| t == "HLD"@
    ||| t == "HXD"@
    ||| t == "SLD"@
    ||| t == "SLC"@
    ||| t == "SXD"@
    ||| t == "SXC"@
    ||| t == "FLK"@
    ||| t == "AIR"@
    ||| t == "AUR"@
    ||| t == "AUL"@
    ||| t == "AHD"@
    ||| t == "ADW"@
    ||| t == "ADR"@
    ||| t == "ADL"@
    ||| t == "ALD"@
    ||| t == "MNE"@
    ||| t == "ASD"@
}

/// The suffix of a hold-shaped line: a duration at field `5`, then an
/// optional animation name at field `6`.
pub open spec fn spec_hold_suffix(f: Seq<Seq<char>>) -> Result<
    (usize, Option<Seq<char>>),
    DecodeErrorKind,
> {
    match sf_uint(f, 5) {
        Err(k) => Err(k),
        Ok(duration) => Ok(
            (duration, if f.len() > 6 { Some(f[6]) } else { None }),
        ),
    }
}

/// The suffix of a slide-shaped line: duration, end cell and end width at
/// fields `5` through `7`; the decoder then skips field `8` and reads an
/// optional animation name at field `9`, a quirk of the format.
pub open spec fn spec_slide_suffix(f: Seq<Seq<char>>) -> Result<
    (usize, usize, usize, Option<Seq<char>>),
    DecodeErrorKind,
> {
    match sf_uint(f, 5) {
        Err(k) => Err(k),
        Ok(duration) => match sf_uint(f, 6) {
            Err(k) => Err(k),
            Ok(end_cell) => match sf_uint(f, 7) {
                Err(k) => Err(k),
                Ok(end_width) => Ok(
                    (duration, end_cell, end_width, if f.len() > 9 { Some(f[9]) } else { None }),
                ),
            },
        },
    }
}

/// The color field of an air-trace or air-slide line at position `i`:
/// missing is a structural error, a token outside the closed color set a
/// domain error.
pub open spec fn spec_color_at(f: Seq<Seq<char>>, i: int) -> Result<Seq<char>, DecodeErrorKind> {
    if !(0 <= i < f.len()) {
        Err(DecodeErrorKind::MissingField)
    } else if !is_color_token(f[i]) {
        Err(DecodeErrorKind::InvalidColor)
    } else {
        Ok(f[i])
    }
}

/// The optional animation name a note model carries: the trailing
/// animation of the hold and slide shapes, and nothing for every other
/// shape.
pub open spec fn note_animation(n: NoteModel) -> Option<Seq<char>> {
    match n {
        NoteModel::Hold { animation, .. } => animation,
        NoteModel::HoldWithExTapHead { animation, .. } => animation,
        NoteModel::Slide { animation, .. } => animation,
        NoteModel::SlideControlPoint { animation, .. } => animation,
        NoteModel::SlideWithExTapHead { animation, .. } => animation,
        NoteModel::SlideControlPointWithExTapHead { animation, .. } => animation,
        _ => None,
    }
}

/// The color token a note model carries: the color of the air-trace and
/// air-slide shapes, and nothing for every other shape.
pub open spec fn note_color(n: NoteModel) -> Option<Seq<char>> {
    match n {
        NoteModel::AirCrush { color, .. } => Some(color),
        NoteModel::AirSlide { color, .. } => Some(color),
        NoteModel::AirSlideControlPoint { color, .. } => Some(color),
        _ => None,
    }
}

/// The tail an air-trace or air-slide line shares: starting height,
/// duration, end cell, end width, target height and color, at fields `6`
/// through `11`.
pub open spec fn spec_air_tail(f: Seq<Seq<char>>) -> Result<
    (Decimal, usize, usize, usize, Decimal, Seq<char>),
    DecodeErrorKind,
> {
    match sf_dec(f, 6) {
        Err(k) => Err(k),
        Ok(starting_height) => match sf_uint(f, 7) {
            Err(k) => Err(k),
            Ok(duration) => match sf_uint(f, 8) {
                Err(k) => Err(k),
                Ok(end_cell) => match sf_uint(f, 9) {
                    Err(k) => Err(k),
                    Ok(end_width) => match sf_dec(f, 10) {
                        Err(k) => Err(k),
                        Ok(target_height) => match spec_color_at(f, 11) {
                            Err(k) => Err(k),
                            Ok(color) => Ok(
                                (
                                    starting_height,
                                    duration,
                                    end_cell,
                                    end_width,
                                    target_height,
                                    color,
                                ),
                            ),
                        },
                    },
                },
            },
        },
    }
}

/// Decodes a note line's fields: the four common fields at `1` through
/// `4`, then the tag-specific suffix.  A tag outside the note alphabet is
/// a decode error of its own kind.
pub open spec fn spec_decode_note(f: Seq<Seq<char>>) -> Result<NoteModel, DecodeErrorKind> {
    match sf_uint(f, 1) {
        Err(k) => Err(k),
        Ok(measure) => match sf_uint(f, 2) {
            Err(k) => Err(k),
            Ok(offset) => match sf_uint(f, 3) {
                Err(k) => Err(k),
                Ok(cell) => match sf_uint(f, 4) {
                    Err(k) => Err(k),
                    Ok(width) => spec_decode_note_suffix(f, measure, offset, cell, width),
                },
            },
        },
    }
}

/// Dispatches on the tag once the four common fields are read.
pub open spec fn spec_decode_note_suffix(
    f: Seq<Seq<char>>,
    measure: usize,
    offset: usize,
    cell: usize,
    width: usize,
) -> Result<NoteModel, DecodeErrorKind> {
    let t = f[0];
    if t == "TAP"@ {
        Ok(NoteModel::Tap { measure, offset, cell, width })
    } else if t == "MNE"@ {
        Ok(NoteModel::Mine { measure, offset, cell, width })
    } else if t == "CHR"@ {
        match sf_str(f, 5) {
            Err(k) => Err(k),
            Ok(animation) => Ok(NoteModel::ExTap { measure, offset, cell, width, animation }),
        }
    } else if t == "HLD"@ {
        match spec_hold_suffix(f) {
            Err(k) => Err(k),
            Ok((duration, animation)) => Ok(
                NoteModel::Hold { measure, offset, cell, width, duration, animation },
            ),
        }
    } else if t == "HXD"@ {
        match spec_hold_suffix(f) {
            Err(k) => Err(k),
            Ok((duration, animation)) => Ok(
                NoteModel::HoldWithExTapHead { measure, offset, cell, width, duration, animation },
            ),
        }
    } else if t == "SLD"@ {
        match spec_slide_suffix(f) {
            Err(k) => Err(k),
            Ok((duration, end_cell, end_width, animation)) => Ok(
                NoteModel::Slide {
                    measure,
                    offset,
                    cell,
                    width,
                    duration,
                    end_cell,
                    end_width,
                    animation,
                },
            ),
        }
    } else if t == "SLC"@ {
        match spec_slide_suffix(f) {
            Err(k) => Err(k),
            Ok((duration, end_cell, end_width, animation)) => Ok(
                NoteModel::SlideControlPoint {
                    measure,
                    offset,
                    cell,
                    width,
                    duration,
                    end_cell,
                    end_width,
                    animation,
                },
            ),
        }
    } else if t == "SXD"@ {
        match spec_slide_suffix(f) {
            Err(k) => Err(k),
            Ok((duration, end_cell, end_width, animation)) => Ok(
                NoteModel::SlideWithExTapHead {
                    measure,
                    offset,
                    cell,
                    width,
                    duration,
                    end_cell,
                    end_width,
                    animation,
                },
            ),
        }
    } else if t == "SXC"@ {
        match spec_slide_suffix(f) {
            Err(k) => Err(k),
            Ok((duration, end_cell, end_width, animation)) => Ok(
                NoteModel::SlideControlPointWithExTapHead {
                    measure,
                    offset,
                    cell,
                    width,
                    duration,
                    end_cell,
                    end_width,
                    animation,
                },
            ),
        }
    } else if t == "FLK"@ {
        match sf_str(f, 5) {
            Err(k) => Err(k),
            Ok(unknown) => Ok(NoteModel::Flick { measure, offset, cell, width, unknown }),
        }
    } else {
        spec_decode_air_family(f, measure, offset, cell, width)
    }
}

/// Dispatches among the air-note tags; any other tag left at this point
/// is outside the note alphabet.
pub open spec fn spec_decode_air_family(
    f: Seq<Seq<char>>,
    measure: usize,
    offset: usize,
    cell: usize,
    width: usize,
) -> Result<NoteModel, DecodeErrorKind> {
    let t = f[0];
    if t == "AIR"@ {
        match sf_str(f, 5) {
            Err(k) => Err(k),
            Ok(target_note) => Ok(NoteModel::Air { measure, offset, cell, width, target_note }),
        }
    } else if t == "AUR"@ {
        match sf_str(f, 5) {
            Err(k) => Err(k),
            Ok(target_note) => Ok(
                NoteModel::AirUpRight { measure, offset, cell, width, target_note },
            ),
        }
    } else if t == "AUL"@ {
        match sf_str(f, 5) {
            Err(k) => Err(k),
            Ok(target_note) => Ok(
                NoteModel::AirUpLeft { measure, offset, cell, width, target_note },
            ),
        }
    } else if t == "ADW"@ {
        match sf_str(f, 5) {
            Err(k) => Err(k),
            Ok(target_note) => Ok(
                NoteModel::AirDown { measure, offset, cell, width, target_note },
            ),
        }
    } else if t == "ADR"@ {
        match sf_str(f, 5) {
            Err(k) => Err(k),
            Ok(target_note) => Ok(
                NoteModel::AirDownRight { measure, offset, cell, width, target_note },
            ),
        }
    } else if t == "ADL"@ {
        match sf_str(f, 5) {
            Err(k) => Err(k),
            Ok(target_note) => Ok(
                NoteModel::AirDownLeft { measure, offset, cell, width, target_note },
            ),
        }
    } else if t == "AHD"@ {
        match sf_str(f, 5) {
            Err(k) => Err(k),
            Ok(target_note) => match sf_uint(f, 6) {
                Err(k) => Err(k),
                Ok(duration) => Ok(
                    NoteModel::AirHold { measure, offset, cell, width, target_note, duration },
                ),
            },
        }
    } else if t == "ALD"@ {
        match sf_uint(f, 5) {
            Err(k) => Err(k),
            Ok(unknown) => match spec_air_tail(f) {
                Err(k) => Err(k),
                Ok(tail) => Ok(
                    NoteModel::AirCrush {
                        measure,
                        offset,
                        cell,
                        width,
                        unknown,
                        starting_height: tail.0,
                        duration: tail.1,
                        end_cell: tail.2,
                        end_width: tail.3,
                        target_height: tail.4,
                        color: tail.5,
                    },
                ),
            },
        }
    } else if t == "ASD"@ {
        match sf_str(f, 5) {
            Err(k) => Err(k),
            Ok(target_note) => match spec_air_tail(f) {
                Err(k) => Err(k),
                Ok(tail) => Ok(
                    NoteModel::AirSlide {
                        measure,
                        offset,
                        cell,
                        width,
                        target_note,
                        starting_height: tail.0,
                        duration: tail.1,
                        end_cell: tail.2,
                        end_width: tail.3,
                        target_height: tail.4,
                        color: tail.5,
                    },
                ),
            },
        }
    } else {
        Err(DecodeErrorKind::UnknownNoteTag)
    }
}

/// Whether an optional string field is absent or a clean token.
pub open spec fn opt_clean(o: Option<String>) -> bool {
    match o {
        Some(s) => token_clean(s@),
        None => true,
    }
}

/// Every color token of the closed set is a clean token.
pub proof fn lemma_color_clean(s: Seq<char>)
    requires
        is_color_token(s),
    ensures
        token_clean(s),
{
    reveal_strlit("GRY");
    reveal_strlit("RED");
    reveal_strlit("ORN");
    reveal_strlit("YEL");
    reveal_strlit("AQA");
    reveal_strlit("PPL");
    reveal_strlit("PNK");
    reveal_strlit("CYN");
    reveal_strlit("BLK");
    reveal_strlit("VLT");
    reveal_strlit("LIM");
    reveal_strlit("BLU");
    reveal_strlit("NON");
    reveal_strlit("DEF");
    assert("GRY"@[0] == 'G' && "GRY"@[1] == 'R' && "GRY"@[2] == 'Y');
    assert("RED"@[0] == 'R' && "RED"@[1] == 'E' && "RED"@[2] == 'D');
    assert("ORN"@[0] == 'O' && "ORN"@[1] == 'R' && "ORN"@[2] == 'N');
    assert("YEL"@[0] == 'Y' && "YEL"@[1] == 'E' && "YEL"@[2] == 'L');
    assert("AQA"@[0] == 'A' && "AQA"@[1] == 'Q' && "AQA"@[2] == 'A');
    assert("PPL"@[0] == 'P' && "PPL"@[1] == 'P' && "PPL"@[2] == 'L');
    assert("PNK"@[0] == 'P' && "PNK"@[1] == 'N' && "PNK"@[2] == 'K');
    assert("CYN"@[0] == 'C' && "CYN"@[1] == 'Y' && "CYN"@[2] == 'N');
    assert("BLK"@[0] == 'B' && "BLK"@[1] == 'L' && "BLK"@[2] == 'K');
    assert("VLT"@[0] == 'V' && "VLT"@[1] == 'L' && "VLT"@[2] == 'T');
    assert("LIM"@[0] == 'L' && "LIM"@[1] == 'I' && "LIM"@[2] == 'M');
    assert("BLU"@[0] == 'B' && "BLU"@[1] == 'L' && "BLU"@[2] == 'U');
    assert("NON"@[0] == 'N' && "NON"@[1] == 'O' && "NON"@[2] == 'N');
    assert("DEF"@[0] == 'D' && "DEF"@[1] == 'E' && "DEF"@[2] == 'F');
}

/// Reads a hold-shaped suffix: the duration, then the optional trailing
/// animation name.
fn hold_suffix(fields: &Vec<String>) -> (r: Result<(usize, Option<String>), DecodeErrorKind>)
    ensures
        (r matches Ok(p) ==> spec_hold_suffix(fields.deep_view()) == Ok::<
            (usize, Option<Seq<char>>),
            DecodeErrorKind,
        >((p.0, opt_view(p.1)))),
        (r matches Err(k) ==> spec_hold_suffix(fields.deep_view()) == Err::<
            (usize, Option<Seq<char>>),
            DecodeErrorKind,
        >(k)),
{
    let duration = match ef_uint(fields, 5) {
        Ok(v) => v,
        Err(k) => {
            return Err(k);
        },
    };
    let animation: Option<String> = if fields.len() > 6 {
        proof {
            assert(fields.deep_view()[6] == fields@[6]@);
        }
        Some(fields[6].clone())
    } else {
        None
    };
    Ok((duration, animation))
}

/// Reads a slide-shaped suffix: duration, end cell and end width, then
/// the optional animation name one field past the skipped one.
fn slide_suffix(fields: &Vec<String>) -> (r: Result<
    (usize, usize, usize, Option<String>),
    DecodeErrorKind,
>)
    ensures
        (r matches Ok(p) ==> spec_slide_suffix(fields.deep_view()) == Ok::<
            (usize, usize, usize, Option<Seq<char>>),
            DecodeErrorKind,
        >((p.0, p.1, p.2, opt_view(p.3)))),
        (r matches Err(k) ==> spec_slide_suffix(fields.deep_view()) == Err::<
            (usize, usize, usize, Option<Seq<char>>),
            DecodeErrorKind,
        >(k)),
{
    let duration = match ef_uint(fields, 5) {
        Ok(v) => v,
        Err(k) => {
            return Err(k);
        },
    };
    let end_cell = match ef_uint(fields, 6) {
        Ok(v) => v,
        Err(k) => {
            return Err(k);
        },
    };
    let end_width = match ef_uint(fields, 7) {
        Ok(v) => v,
        Err(k) => {
            return Err(k);
        },
    };
    let animation: Option<String> = if fields.len() > 9 {
        proof {
            assert(fields.deep_view()[9] == fields@[9]@);
        }
        Some(fields[9].clone())
    } else {
        None
    };
    Ok((duration, end_cell, end_width, animation))
}

/// Reads the color field at position `i`, holding it to the closed color
/// set.
fn color_at(fields: &Vec<String>, i: usize) -> (r: Result<String, DecodeErrorKind>)
    ensures
        (r matches Ok(c) ==> spec_color_at(fields.deep_view(), i as int) == Ok::<
            Seq<char>,
            DecodeErrorKind,
        >(c@)),
        (r matches Err(k) ==> spec_color_at(fields.deep_view(), i as int) == Err::<
            Seq<char>,
            DecodeErrorKind,
        >(k)),
{
    if i >= fields.len() {
        Err(DecodeErrorKind::MissingField)
    } else {
        proof {
            assert(fields.deep_view()[i as int] == fields@[i as int]@);
        }
        if is_color_exec(fields[i].as_str()) {
            Ok(fields[i].clone())
        } else {
            Err(DecodeErrorKind::InvalidColor)
        }
    }
}

/// Reads the tail an air-trace or air-slide line shares, fields `6`
/// through `11`.
fn air_tail(fields: &Vec<String>) -> (r: Result<
    (Decimal, usize, usize, usize, Decimal, String),
    DecodeErrorKind,
>)
    ensures
        (r matches Ok(p) ==> spec_air_tail(fields.deep_view()) == Ok::<
            (Decimal, usize, usize, usize, Decimal, Seq<char>),
            DecodeErrorKind,
        >((p.0, p.1, p.2, p.3, p.4, p.5@))),
        (r matches Err(k) ==> spec_air_tail(fields.deep_view()) == Err::<
            (Decimal, usize, usize, usize, Decimal, Seq<char>),
            DecodeErrorKind,
        >(k)),
{
    let starting_height = match ef_dec(fields, 6) {
        Ok(v) => v,
        Err(k) => {
            return Err(k);
        },
    };
    let duration = match ef_uint(fields, 7) {
        Ok(v) => v,
        Err(k) => {
            return Err(k);
        },
    };
    let end_cell = match ef_uint(fields, 8) {
        Ok(v) => v,
        Err(k) => {
            return Err(k);
        },
    };
    let end_width = match ef_uint(fields, 9) {
        Ok(v) => v,
        Err(k) => {
            return Err(k);
        },
    };
    let target_height = match ef_dec(fields, 10) {
        Ok(v) => v,
        Err(k) => {
            return Err(k);
        },
    };
    let color = match color_at(fields, 11) {
        Ok(v) => v,
        Err(k) => {
            return Err(k);
        },
    };
    Ok((starting_height, duration, end_cell, end_width, target_height, color))
}

impl NoteType {
    /// Decodes the trimmed fields of a note line, tag included.
    #[verifier::rlimit(100)]
    pub fn decode_fields(fields: &Vec<String>) -> (r: Result<NoteType, DecodeErrorKind>)
        ensures
            (r matches Ok(n) ==> spec_decode_note(fields.deep_view()) == Ok::<
                NoteModel,
                DecodeErrorKind,
            >(n@)),
            (r matches Err(k) ==> spec_decode_note(fields.deep_view()) == Err::<
                NoteModel,
                DecodeErrorKind,
            >(k)),
    {
        let measure = match ef_uint(fields, 1) {
            Ok(v) => v,
            Err(k) => {
                return Err(k);
            },
        };
        let offset = match ef_uint(fields, 2) {
            Ok(v) => v,
            Err(k) => {
                return Err(k);
            },
        };
        let cell = match ef_uint(fields, 3) {
            Ok(v) => v,
            Err(k) => {
                return Err(k);
            },
        };
        let width = match ef_uint(fields, 4) {
            Ok(v) => v,
            Err(k) => {
                return Err(k);
            },
        };
        proof {
            assert(fields.deep_view()[0] == fields@[0]@);
        }
        let tag = fields[0].as_str();
        if str_eq(tag, "TAP") {
            Ok(NoteType::Tap(Tap { measure, offset, cell, width }))
        } else if str_eq(tag, "MNE") {
            Ok(NoteType::Mine(Mine { measure, offset, cell, width }))
        } else if str_eq(tag, "CHR") {
            let animation = match ef_str(fields, 5) {
                Ok(v) => v,
                Err(k) => {
                    return Err(k);
                },
            };
            Ok(NoteType::ExTap(ExTap { measure, offset, cell, width, animation }))
        } else if str_eq(tag, "HLD") {
            match hold_suffix(fields) {
                Ok((duration, animation)) => Ok(
                    NoteType::Hold(Hold { measure, offset, cell, width, duration, animation }),
                ),
                Err(k) => Err(k),
            }
        } else if str_eq(tag, "HXD") {
            match hold_suffix(fields) {
                Ok((duration, animation)) => Ok(
                    NoteType::HoldWithExTapHead(
                        Hold { measure, offset, cell, width, duration, animation },
                    ),
                ),
                Err(k) => Err(k),
            }
        } else if str_eq(tag, "SLD") {
            match slide_suffix(fields) {
                Ok((duration, end_cell, end_width, animation)) => Ok(
                    NoteType::Slide(
                        Slide {
                            measure,
                            offset,
                            cell,
                            width,
                            duration,
                            end_cell,
                            end_width,
                            animation,
                        },
                    ),
                ),
                Err(k) => Err(k),
            }
        } else if str_eq(tag, "SLC") {
            match slide_suffix(fields) {
                Ok((duration, end_cell, end_width, animation)) => Ok(
                    NoteType::SlideControlPoint(
                        Slide {
                            measure,
                            offset,
                            cell,
                            width,
                            duration,
                            end_cell,
                            end_width,
                            animation,
                        },
                    ),
                ),
                Err(k) => Err(k),
            }
        } else if str_eq(tag, "SXD") {
            match slide_suffix(fields) {
                Ok((duration, end_cell, end_width, animation)) => Ok(
                    NoteType::SlideWithExTapHead(
                        Slide {
                            measure,
                            offset,
                            cell,
                            width,
                            duration,
                            end_cell,
                            end_width,
                            animation,
                        },
                    ),
                ),
                Err(k) => Err(k),
            }
        } else if str_eq(tag, "SXC") {
            match slide_suffix(fields) {
                Ok((duration, end_cell, end_width, animation)) => Ok(
                    NoteType::SlideControlPointWithExTapHead(
                        Slide {
                            measure,
                            offset,
                            cell,
                            width,
                            duration,
                            end_cell,
                            end_width,
                            animation,
                        },
                    ),
                ),
                Err(k) => Err(k),
            }
        } else if str_eq(tag, "FLK") {
            let unknown = match ef_str(fields, 5) {
                Ok(v) => v,
                Err(k) => {
                    return Err(k);
                },
            };
            Ok(NoteType::Flick(Flick { measure, offset, cell, width, unknown }))
        } else {
            decode_air_family(fields, measure, offset, cell, width)
        }
    }

    /// Decodes one whole note line.
    pub fn from_str(s: &str) -> (r: Result<NoteType, DecodeErrorKind>)
        ensures
            (r matches Ok(n) ==> spec_decode_note(line_fields(s@)) == Ok::<
                NoteModel,
                DecodeErrorKind,
            >(n@)),
            (r matches Err(k) ==> spec_decode_note(line_fields(s@)) == Err::<
                NoteModel,
                DecodeErrorKind,
            >(k)),
    {
        let fields = split_line_fields(s);
        Self::decode_fields(&fields)
    }
}

/// Dispatches among the air-note tags once the common fields are read;
/// any other tag left at this point is outside the note alphabet.
#[verifier::rlimit(100)]
fn decode_air_family(
    fields: &Vec<String>,
    measure: usize,
    offset: usize,
    cell: usize,
    width: usize,
) -> (r: Result<NoteType, DecodeErrorKind>)
    requires
        fields.len() >= 1,
    ensures
        (r matches Ok(n) ==> spec_decode_air_family(fields.deep_view(), measure, offset, cell, width)
            == Ok::<NoteModel, DecodeErrorKind>(n@)),
        (r matches Err(k) ==> spec_decode_air_family(
            fields.deep_view(),
            measure,
            offset,
            cell,
            width,
        ) == Err::<NoteModel, DecodeErrorKind>(k)),
{
    proof {
        assert(fields.deep_view()[0] == fields@[0]@);
    }
    let tag = fields[0].as_str();
    {
        if str_eq(tag, "AIR") {
            let target_note = match ef_str(fields, 5) {
                Ok(v) => v,
                Err(k) => {
                    return Err(k);
                },
            };
            Ok(NoteType::Air(Air { measure, offset, cell, width, target_note }))
        } else if str_eq(tag, "AUR") {
            let target_note = match ef_str(fields, 5) {
                Ok(v) => v,
                Err(k) => {
                    return Err(k);
                },
            };
            Ok(NoteType::AirUpRight(Air { measure, offset, cell, width, target_note }))
        } else if str_eq(tag, "AUL") {
            let target_note = match ef_str(fields, 5) {
                Ok(v) => v,
                Err(k) => {
                    return Err(k);
                },
            };
            Ok(NoteType::AirUpLeft(Air { measure, offset, cell, width, target_note }))
        } else if str_eq(tag, "ADW") {
            let target_note = match ef_str(fields, 5) {
                Ok(v) => v,
                Err(k) => {
                    return Err(k);
                },
            };
            Ok(NoteType::AirDown(Air { measure, offset, cell, width, target_note }))
        } else if str_eq(tag, "ADR") {
            let target_note = match ef_str(fields, 5) {
                Ok(v) => v,
                Err(k) => {
                    return Err(k);
                },
            };
            Ok(NoteType::AirDownRight(Air { measure, offset, cell, width, target_note }))
        } else if str_eq(tag, "ADL") {
            let target_note = match ef_str(fields, 5) {
                Ok(v) => v,
                Err(k) => {
                    return Err(k);
                },
            };
            Ok(NoteType::AirDownLeft(Air { measure, offset, cell, width, target_note }))
        } else if str_eq(tag, "AHD") {
            let target_note = match ef_str(fields, 5) {
                Ok(v) => v,
                Err(k) => {
                    return Err(k);
                },
            };
            let duration = match ef_uint(fields, 6) {
                Ok(v) => v,
                Err(k) => {
                    return Err(k);
                },
            };
            Ok(NoteType::AirHold(AirHold { measure, offset, cell, width, target_note, duration }))
        } else if str_eq(tag, "ALD") {
            let unknown = match ef_uint(fields, 5) {
                Ok(v) => v,
                Err(k) => {
                    return Err(k);
                },
            };
            match air_tail(fields) {
                Ok((starting_height, duration, end_cell, end_width, target_height, color)) => Ok(
                    NoteType::AirCrush(
                        AirTrace {
                            measure,
                            offset,
                            cell,
                            width,
                            unknown,
                            starting_height,
                            duration,
                            end_cell,
                            end_width,
                            target_height,
                            color,
                        },
                    ),
                ),
                Err(k) => Err(k),
            }
        } else if str_eq(tag, "ASD") {
            let target_note = match ef_str(fields, 5) {
                Ok(v) => v,
                Err(k) => {
                    return Err(k);
                },
            };
            match air_tail(fields) {
                Ok((starting_height, duration, end_cell, end_width, target_height, color)) => Ok(
                    NoteType::AirSlide(
                        AirSlide {
                            measure,
                            offset,
                            cell,
                            width,
                            target_note,
                            starting_height,
                            duration,
                            end_cell,
                            end_width,
                            target_height,
                            color,
                        },
                    ),
                ),
                Err(k) => Err(k),
            }
        } else {
            Err(DecodeErrorKind::UnknownNoteTag)
        }
    }
}

impl NoteType {
    /// Whether the note can be written back as a line that decodes to
    /// it: every string field must be a clean token, every height
    /// well-formed, the color one of the closed set, and the variant one
    /// that a tag of the format names (the air-slide control point has
    /// no tag of its own).
    pub open spec fn encodable(self) -> bool {
        match self {
            NoteType::Tap(n) => true,
            NoteType::Mine(n) => true,
            NoteType::ExTap(n) => token_clean(n.animation@),
            NoteType::Hold(n) => opt_clean(n.animation),
            NoteType::HoldWithExTapHead(n) => opt_clean(n.animation),
            NoteType::Slide(n) => opt_clean(n.animation),
            NoteType::SlideControlPoint(n) => opt_clean(n.animation),
            NoteType::SlideWithExTapHead(n) => opt_clean(n.animation),
            NoteType::SlideControlPointWithExTapHead(n) => opt_clean(n.animation),
            NoteType::Flick(n) => token_clean(n.unknown@),
            NoteType::Air(n) => token_clean(n.target_note@),
            NoteType::AirUpRight(n) => token_clean(n.target_note@),
            NoteType::AirUpLeft(n) => token_clean(n.target_note@),
            NoteType::AirHold(n) => token_clean(n.target_note@),
            NoteType::AirDown(n) => token_clean(n.target_note@),
            NoteType::AirDownRight(n) => token_clean(n.target_note@),
            NoteType::AirDownLeft(n) => token_clean(n.target_note@),
            NoteType::AirCrush(n) => n.starting_height.wf() && n.target_height.wf()
                && is_color_token(n.color@),
            NoteType::AirSlide(n) => token_clean(n.target_note@) && n.starting_height.wf()
                && n.target_height.wf() && is_color_token(n.color@),
            NoteType::AirSlideControlPoint(n) => false,
        }
    }

    /// Writes the note back as a note line.  The written line decodes to
    /// exactly this note.
    #[verifier::rlimit(100)]
    pub fn to_line(&self) -> (r: String)
        requires
            self.encodable(),
        ensures
            spec_decode_note(line_fields(r@)) == Ok::<NoteModel, DecodeErrorKind>(self@),
    {
        match self {
            NoteType::Tap(n) => tap_line(n, false),
            NoteType::Mine(n) => tap_line(n, true),
            NoteType::ExTap(n) => extap_line(n),
            NoteType::Hold(n) => hold_line(n, false),
            NoteType::HoldWithExTapHead(n) => hold_line(n, true),
            NoteType::Slide(n) => slide_line(n, false, false),
            NoteType::SlideControlPoint(n) => slide_line(n, false, true),
            NoteType::SlideWithExTapHead(n) => slide_line(n, true, false),
            NoteType::SlideControlPointWithExTapHead(n) => slide_line(n, true, true),
            NoteType::Flick(n) => flick_line(n),
            NoteType::Air(n) => air_line(n, AirKind::Neutral),
            NoteType::AirUpRight(n) => air_line(n, AirKind::UpRight),
            NoteType::AirUpLeft(n) => air_line(n, AirKind::UpLeft),
            NoteType::AirHold(n) => air_hold_line(n),
            NoteType::AirDown(n) => air_line(n, AirKind::Down),
            NoteType::AirDownRight(n) => air_line(n, AirKind::DownRight),
            NoteType::AirDownLeft(n) => air_line(n, AirKind::DownLeft),
            NoteType::AirCrush(n) => air_crush_line(n),
            NoteType::AirSlide(n) => air_slide_line(n),
            NoteType::AirSlideControlPoint(n) => {
                proof {
                    assert(false);
                }
                String::new()
            },
        }
    }
}

/// Which direction an air arrow points; selects among the six air tags
/// that share one record shape.
enum AirKind {
    Neutral,
    UpRight,
    UpLeft,
    Down,
    DownRight,
    DownLeft,
}

/// The note model an air line of direction `k` decodes to.
spec fn air_model(k: AirKind, n: Air) -> NoteModel {
    match k {
        AirKind::Neutral => NoteModel::Air {
            measure: n.measure,
            offset: n.offset,
            cell: n.cell,
            width: n.width,
            target_note: n.target_note@,
        },
        AirKind::UpRight => NoteModel::AirUpRight {
            measure: n.measure,
            offset: n.offset,
            cell: n.cell,
            width: n.width,
            target_note: n.target_note@,
        },
        AirKind::UpLeft => NoteModel::AirUpLeft {
            measure: n.measure,
            offset: n.offset,
            cell: n.cell,
            width: n.width,
            target_note: n.target_note@,
        },
        AirKind::Down => NoteModel::AirDown {
            measure: n.measure,
            offset: n.offset,
            cell: n.cell,
            width: n.width,
            target_note: n.target_note@,
        },
        AirKind::DownRight => NoteModel::AirDownRight {
            measure: n.measure,
            offset: n.offset,
            cell: n.cell,
            width: n.width,
            target_note: n.target_note@,
        },
        AirKind::DownLeft => NoteModel::AirDownLeft {
            measure: n.measure,
            offset: n.offset,
            cell: n.cell,
            width: n.width,
            target_note: n.target_note@,
        },
    }
}

/// The note model a slide line of the given variant decodes to.
spec fn slide_model(ex: bool, control: bool, n: Slide) -> NoteModel {
    if ex {
        if control {
            NoteModel::SlideControlPointWithExTapHead {
                measure: n.measure,
                offset: n.offset,
                cell: n.cell,
                width: n.width,
                duration: n.duration,
                end_cell: n.end_cell,
                end_width: n.end_width,
                animation: opt_view(n.animation),
            }
        } else {
            NoteModel::SlideWithExTapHead {
                measure: n.measure,
                offset: n.offset,
                cell: n.cell,
                width: n.width,
                duration: n.duration,
                end_cell: n.end_cell,
                end_width: n.end_width,
                animation: opt_view(n.animation),
            }
        }
    } else if control {
        NoteModel::SlideControlPoint {
            measure: n.measure,
            offset: n.offset,
            cell: n.cell,
            width: n.width,
            duration: n.duration,
            end_cell: n.end_cell,
            end_width: n.end_width,
            animation: opt_view(n.animation),
        }
    } else {
        NoteModel::Slide {
            measure: n.measure,
            offset: n.offset,
            cell: n.cell,
            width: n.width,
            duration: n.duration,
            end_cell: n.end_cell,
            end_width: n.end_width,
            animation: opt_view(n.animation),
        }
    }
}

/// The four common tokens of the note `measure`, `offset`, `cell` and
/// `width` fields, in line order.
spec fn common_tokens(measure: usize, offset: usize, cell: usize, width: usize) -> Seq<Seq<char>> {
    seq![
        spec_uint_str(measure as int),
        spec_uint_str(offset as int),
        spec_uint_str(cell as int),
        spec_uint_str(width as int),
    ]
}

/// Pushes one token, tracking the token list's model.
fn push_token(tokens: &mut Vec<String>, t: String)
    ensures
        final(tokens).len() == old(tokens).len() + 1,
        final(tokens).deep_view() =~~= old(tokens).deep_view().push(t@),
{
    let ghost v = t@;
    tokens.push(t);
    proof {
        assert(tokens.deep_view() =~~= old(tokens).deep_view().push(v));
    }
}

/// Pushes the four common tokens of a note line.
fn push_common(tokens: &mut Vec<String>, measure: usize, offset: usize, cell: usize, width: usize)
    ensures
        final(tokens).len() == old(tokens).len() + 4,
        final(tokens).deep_view() =~~= old(tokens).deep_view() + common_tokens(
            measure,
            offset,
            cell,
            width,
        ),
{
    push_token(tokens, uint_to_string(measure));
    push_token(tokens, uint_to_string(offset));
    push_token(tokens, uint_to_string(cell));
    push_token(tokens, uint_to_string(width));
    proof {
        assert(tokens.deep_view() =~~= old(tokens).deep_view() + common_tokens(
            measure,
            offset,
            cell,
            width,
        ));
    }
}

/// Writes a `TAP` or `MNE` line.
fn tap_line(n: &Tap, mine: bool) -> (r: String)
    ensures
        spec_decode_note(line_fields(r@)) == Ok::<NoteModel, DecodeErrorKind>(
            if mine {
                (NoteModel::Mine {
                    measure: n.measure,
                    offset: n.offset,
                    cell: n.cell,
                    width: n.width,
                })
            } else {
                (NoteModel::Tap {
                    measure: n.measure,
                    offset: n.offset,
                    cell: n.cell,
                    width: n.width,
                })
            },
        ),
{
    let mut tokens: Vec<String> = Vec::new();
    if mine {
        push_token(&mut tokens, "MNE".to_owned());
    } else {
        push_token(&mut tokens, "TAP".to_owned());
    }
    push_common(&mut tokens, n.measure, n.offset, n.cell, n.width);
    let r = join_tokens(&tokens);
    proof {
        let ts = tokens.deep_view();
        reveal_strlit("TAP");
        reveal_strlit("MNE");
        assert("TAP"@[0] == 'T' && "TAP"@[1] == 'A' && "TAP"@[2] == 'P');
        assert("MNE"@[0] == 'M' && "MNE"@[1] == 'N' && "MNE"@[2] == 'E');
        lemma_uint_str_clean(n.measure as int);
        lemma_uint_str_clean(n.offset as int);
        lemma_uint_str_clean(n.cell as int);
        lemma_uint_str_clean(n.width as int);
        assert(ts =~~= seq![
            if mine {
                "MNE"@
            } else {
                "TAP"@
            },
        ] + common_tokens(n.measure, n.offset, n.cell, n.width));
        lemma_join_fields(ts);
    }
    r
}

/// Writes a `CHR` line.
fn extap_line(n: &ExTap) -> (r: String)
    requires
        token_clean(n.animation@),
    ensures
        spec_decode_note(line_fields(r@)) == Ok::<NoteModel, DecodeErrorKind>(
            (NoteModel::ExTap {
                measure: n.measure,
                offset: n.offset,
                cell: n.cell,
                width: n.width,
                animation: n.animation@,
            }),
        ),
{
    let mut tokens: Vec<String> = Vec::new();
    push_token(&mut tokens, "CHR".to_owned());
    push_common(&mut tokens, n.measure, n.offset, n.cell, n.width);
    push_token(&mut tokens, n.animation.clone());
    let r = join_tokens(&tokens);
    proof {
        let ts = tokens.deep_view();
        reveal_strlit("TAP");
        reveal_strlit("MNE");
        reveal_strlit("CHR");
        assert("CHR"@[0] == 'C' && "CHR"@[1] == 'H' && "CHR"@[2] == 'R');
        lemma_uint_str_clean(n.measure as int);
        lemma_uint_str_clean(n.offset as int);
        lemma_uint_str_clean(n.cell as int);
        lemma_uint_str_clean(n.width as int);
        assert(ts =~~= seq!["CHR"@] + common_tokens(n.measure, n.offset, n.cell, n.width) + seq![
            n.animation@,
        ]);
        lemma_join_fields(ts);
    }
    r
}

/// Writes an `HLD` or `HXD` line, with the animation token only when the
/// record carries one.
fn hold_line(n: &Hold, ex: bool) -> (r: String)
    requires
        opt_clean(n.animation),
    ensures
        spec_decode_note(line_fields(r@)) == Ok::<NoteModel, DecodeErrorKind>(
            if ex {
                (NoteModel::HoldWithExTapHead {
                    measure: n.measure,
                    offset: n.offset,
                    cell: n.cell,
                    width: n.width,
                    duration: n.duration,
                    animation: opt_view(n.animation),
                })
            } else {
                (NoteModel::Hold {
                    measure: n.measure,
                    offset: n.offset,
                    cell: n.cell,
                    width: n.width,
                    duration: n.duration,
                    animation: opt_view(n.animation),
                })
            },
        ),
{
    let mut tokens: Vec<String> = Vec::new();
    if ex {
        push_token(&mut tokens, "HXD".to_owned());
    } else {
        push_token(&mut tokens, "HLD".to_owned());
    }
    push_common(&mut tokens, n.measure, n.offset, n.cell, n.width);
    push_token(&mut tokens, uint_to_string(n.duration));
    match &n.animation {
        Some(a) => {
            push_token(&mut tokens, a.clone());
        },
        None => {},
    }
    let r = join_tokens(&tokens);
    proof {
        let ts = tokens.deep_view();
        reveal_strlit("TAP");
        reveal_strlit("MNE");
        reveal_strlit("CHR");
        reveal_strlit("HLD");
        reveal_strlit("HXD");
        assert("HLD"@[0] == 'H' && "HLD"@[1] == 'L' && "HLD"@[2] == 'D');
        assert("HXD"@[0] == 'H' && "HXD"@[1] == 'X' && "HXD"@[2] == 'D');
        lemma_uint_str_clean(n.measure as int);
        lemma_uint_str_clean(n.offset as int);
        lemma_uint_str_clean(n.cell as int);
        lemma_uint_str_clean(n.width as int);
        lemma_uint_str_clean(n.duration as int);
        let base = seq![
            if ex {
                "HXD"@
            } else {
                "HLD"@
            },
        ] + common_tokens(n.measure, n.offset, n.cell, n.width) + seq![
            spec_uint_str(n.duration as int),
        ];
        match &n.animation {
            Some(a) => {
                assert(ts =~~= base.push(a@));
            },
            None => {
                assert(ts =~~= base);
            },
        }
        lemma_join_fields(ts);
    }
    r
}

/// Writes a slide-family line.  When the record carries an animation,
/// the encoder emits a zero placeholder for the field the decoder skips,
/// then the animation token.
fn slide_line(n: &Slide, ex: bool, control: bool) -> (r: String)
    requires
        opt_clean(n.animation),
    ensures
        spec_decode_note(line_fields(r@)) == Ok::<NoteModel, DecodeErrorKind>(
            slide_model(ex, control, *n),
        ),
{
    let mut tokens: Vec<String> = Vec::new();
    if ex {
        if control {
            push_token(&mut tokens, "SXC".to_owned());
        } else {
            push_token(&mut tokens, "SXD".to_owned());
        }
    } else if control {
        push_token(&mut tokens, "SLC".to_owned());
    } else {
        push_token(&mut tokens, "SLD".to_owned());
    }
    push_common(&mut tokens, n.measure, n.offset, n.cell, n.width);
    push_token(&mut tokens, uint_to_string(n.duration));
    push_token(&mut tokens, uint_to_string(n.end_cell));
    push_token(&mut tokens, uint_to_string(n.end_width));
    match &n.animation {
        Some(a) => {
            push_token(&mut tokens, "0".to_owned());
            push_token(&mut tokens, a.clone());
        },
        None => {},
    }
    let r = join_tokens(&tokens);
    proof {
        let ts = tokens.deep_view();
        reveal_strlit("TAP");
        reveal_strlit("MNE");
        reveal_strlit("CHR");
        reveal_strlit("HLD");
        reveal_strlit("HXD");
        reveal_strlit("SLD");
        reveal_strlit("SLC");
        reveal_strlit("SXD");
        reveal_strlit("SXC");
        reveal_strlit("0");
        assert("SLD"@[0] == 'S' && "SLD"@[1] == 'L' && "SLD"@[2] == 'D');
        assert("SLC"@[0] == 'S' && "SLC"@[1] == 'L' && "SLC"@[2] == 'C');
        assert("SXD"@[0] == 'S' && "SXD"@[1] == 'X' && "SXD"@[2] == 'D');
        assert("SXC"@[0] == 'S' && "SXC"@[1] == 'X' && "SXC"@[2] == 'C');
        assert("0"@[0] == '0');
        lemma_uint_str_clean(n.measure as int);
        lemma_uint_str_clean(n.offset as int);
        lemma_uint_str_clean(n.cell as int);
        lemma_uint_str_clean(n.width as int);
        lemma_uint_str_clean(n.duration as int);
        lemma_uint_str_clean(n.end_cell as int);
        lemma_uint_str_clean(n.end_width as int);
        let tag = if ex {
            if control {
                "SXC"@
            } else {
                "SXD"@
            }
        } else if control {
            "SLC"@
        } else {
            "SLD"@
        };
        let base = seq![tag] + common_tokens(n.measure, n.offset, n.cell, n.width) + seq![
            spec_uint_str(n.duration as int),
            spec_uint_str(n.end_cell as int),
            spec_uint_str(n.end_width as int),
        ];
        match &n.animation {
            Some(a) => {
                assert(ts =~~= base.push("0"@).push(a@));
            },
            None => {
                assert(ts =~~= base);
            },
        }
        lemma_join_fields(ts);
    }
    r
}

/// Writes an `FLK` line.
fn flick_line(n: &Flick) -> (r: String)
    requires
        token_clean(n.unknown@),
    ensures
        spec_decode_note(line_fields(r@)) == Ok::<NoteModel, DecodeErrorKind>(
            (NoteModel::Flick {
                measure: n.measure,
                offset: n.offset,
                cell: n.cell,
                width: n.width,
                unknown: n.unknown@,
            }),
        ),
{
    let mut tokens: Vec<String> = Vec::new();
    push_token(&mut tokens, "FLK".to_owned());
    push_common(&mut tokens, n.measure, n.offset, n.cell, n.width);
    push_token(&mut tokens, n.unknown.clone());
    let r = join_tokens(&tokens);
    proof {
        let ts = tokens.deep_view();
        reveal_strlit("TAP");
        reveal_strlit("MNE");
        reveal_strlit("CHR");
        reveal_strlit("HLD");
        reveal_strlit("HXD");
        reveal_strlit("SLD");
        reveal_strlit("SLC");
        reveal_strlit("SXD");
        reveal_strlit("SXC");
        reveal_strlit("FLK");
        assert("FLK"@[0] == 'F' && "FLK"@[1] == 'L' && "FLK"@[2] == 'K');
        lemma_uint_str_clean(n.measure as int);
        lemma_uint_str_clean(n.offset as int);
        lemma_uint_str_clean(n.cell as int);
        lemma_uint_str_clean(n.width as int);
        assert(ts =~~= seq!["FLK"@] + common_tokens(n.measure, n.offset, n.cell, n.width) + seq![
            n.unknown@,
        ]);
        lemma_join_fields(ts);
    }
    r
}

/// Writes an air line of direction `k`.
fn air_line(n: &Air, k: AirKind) -> (r: String)
    requires
        token_clean(n.target_note@),
    ensures
        spec_decode_note(line_fields(r@)) == Ok::<NoteModel, DecodeErrorKind>(air_model(k, *n)),
{
    let mut tokens: Vec<String> = Vec::new();
    match k {
        AirKind::Neutral => push_token(&mut tokens, "AIR".to_owned()),
        AirKind::UpRight => push_token(&mut tokens, "AUR".to_owned()),
        AirKind::UpLeft => push_token(&mut tokens, "AUL".to_owned()),
        AirKind::Down => push_token(&mut tokens, "ADW".to_owned()),
        AirKind::DownRight => push_token(&mut tokens, "ADR".to_owned()),
        AirKind::DownLeft => push_token(&mut tokens, "ADL".to_owned()),
    }
    push_common(&mut tokens, n.measure, n.offset, n.cell, n.width);
    push_token(&mut tokens, n.target_note.clone());
    let r = join_tokens(&tokens);
    proof {
        let ts = tokens.deep_view();
        reveal_strlit("TAP");
        reveal_strlit("MNE");
        reveal_strlit("CHR");
        reveal_strlit("HLD");
        reveal_strlit("HXD");
        reveal_strlit("SLD");
        reveal_strlit("SLC");
        reveal_strlit("SXD");
        reveal_strlit("SXC");
        reveal_strlit("FLK");
        reveal_strlit("AIR");
        reveal_strlit("AUR");
        reveal_strlit("AUL");
        reveal_strlit("ADW");
        reveal_strlit("ADR");
        reveal_strlit("ADL");
        assert("AIR"@[0] == 'A' && "AIR"@[1] == 'I' && "AIR"@[2] == 'R');
        assert("AUR"@[0] == 'A' && "AUR"@[1] == 'U' && "AUR"@[2] == 'R');
        assert("AUL"@[0] == 'A' && "AUL"@[1] == 'U' && "AUL"@[2] == 'L');
        assert("ADW"@[0] == 'A' && "ADW"@[1] == 'D' && "ADW"@[2] == 'W');
        assert("ADR"@[0] == 'A' && "ADR"@[1] == 'D' && "ADR"@[2] == 'R');
        assert("ADL"@[0] == 'A' && "ADL"@[1] == 'D' && "ADL"@[2] == 'L');
        lemma_uint_str_clean(n.measure as int);
        lemma_uint_str_clean(n.offset as int);
        lemma_uint_str_clean(n.cell as int);
        lemma_uint_str_clean(n.width as int);
        let tag = match k {
            AirKind::Neutral => "AIR"@,
            AirKind::UpRight => "AUR"@,
            AirKind::UpLeft => "AUL"@,
            AirKind::Down => "ADW"@,
            AirKind::DownRight => "ADR"@,
            AirKind::DownLeft => "ADL"@,
        };
        assert(ts =~~= seq![tag] + common_tokens(n.measure, n.offset, n.cell, n.width) + seq![
            n.target_note@,
        ]);
        lemma_join_fields(ts);
    }
    r
}

/// Writes an `AHD` line.
fn air_hold_line(n: &AirHold) -> (r: String)
    requires
        token_clean(n.target_note@),
    ensures
        spec_decode_note(line_fields(r@)) == Ok::<NoteModel, DecodeErrorKind>(
            (NoteModel::AirHold {
                measure: n.measure,
                offset: n.offset,
                cell: n.cell,
                width: n.width,
                target_note: n.target_note@,
                duration: n.duration,
            }),
        ),
{
    let mut tokens: Vec<String> = Vec::new();
    push_token(&mut tokens, "AHD".to_owned());
    push_common(&mut tokens, n.measure, n.offset, n.cell, n.width);
    push_token(&mut tokens, n.target_note.clone());
    push_token(&mut tokens, uint_to_string(n.duration));
    let r = join_tokens(&tokens);
    proof {
        let ts = tokens.deep_view();
        reveal_strlit("TAP");
        reveal_strlit("MNE");
        reveal_strlit("CHR");
        reveal_strlit("HLD");
        reveal_strlit("HXD");
        reveal_strlit("SLD");
        reveal_strlit("SLC");
        reveal_strlit("SXD");
        reveal_strlit("SXC");
        reveal_strlit("FLK");
        reveal_strlit("AIR");
        reveal_strlit("AUR");
        reveal_strlit("AUL");
        reveal_strlit("ADW");
        reveal_strlit("ADR");
        reveal_strlit("ADL");
        reveal_strlit("AHD");
        assert("AHD"@[0] == 'A' && "AHD"@[1] == 'H' && "AHD"@[2] == 'D');
        lemma_uint_str_clean(n.measure as int);
        lemma_uint_str_clean(n.offset as int);
        lemma_uint_str_clean(n.cell as int);
        lemma_uint_str_clean(n.width as int);
        lemma_uint_str_clean(n.duration as int);
        assert(ts =~~= seq!["AHD"@] + common_tokens(n.measure, n.offset, n.cell, n.width) + seq![
            n.target_note@,
            spec_uint_str(n.duration as int),
        ]);
        lemma_join_fields(ts);
    }
    r
}

/// Writes an `ALD` line.
#[verifier::rlimit(100)]
fn air_crush_line(n: &AirTrace) -> (r: String)
    requires
        n.starting_height.wf(),
        n.target_height.wf(),
        is_color_token(n.color@),
    ensures
        spec_decode_note(line_fields(r@)) == Ok::<NoteModel, DecodeErrorKind>(
            (NoteModel::AirCrush {
                measure: n.measure,
                offset: n.offset,
                cell: n.cell,
                width: n.width,
                unknown: n.unknown,
                starting_height: n.starting_height,
                duration: n.duration,
                end_cell: n.end_cell,
                end_width: n.end_width,
                target_height: n.target_height,
                color: n.color@,
            }),
        ),
{
    let mut tokens: Vec<String> = Vec::new();
    push_token(&mut tokens, "ALD".to_owned());
    push_common(&mut tokens, n.measure, n.offset, n.cell, n.width);
    push_token(&mut tokens, uint_to_string(n.unknown));
    push_token(&mut tokens, decimal_to_string(&n.starting_height));
    push_token(&mut tokens, uint_to_string(n.duration));
    push_token(&mut tokens, uint_to_string(n.end_cell));
    push_token(&mut tokens, uint_to_string(n.end_width));
    push_token(&mut tokens, decimal_to_string(&n.target_height));
    push_token(&mut tokens, n.color.clone());
    let r = join_tokens(&tokens);
    proof {
        let ts = tokens.deep_view();
        reveal_strlit("TAP");
        reveal_strlit("MNE");
        reveal_strlit("CHR");
        reveal_strlit("HLD");
        reveal_strlit("HXD");
        reveal_strlit("SLD");
        reveal_strlit("SLC");
        reveal_strlit("SXD");
        reveal_strlit("SXC");
        reveal_strlit("FLK");
        reveal_strlit("AIR");
        reveal_strlit("AUR");
        reveal_strlit("AUL");
        reveal_strlit("ADW");
        reveal_strlit("ADR");
        reveal_strlit("ADL");
        reveal_strlit("AHD");
        reveal_strlit("ALD");
        assert("ALD"@[0] == 'A' && "ALD"@[1] == 'L' && "ALD"@[2] == 'D');
        lemma_uint_str_clean(n.measure as int);
        lemma_uint_str_clean(n.offset as int);
        lemma_uint_str_clean(n.cell as int);
        lemma_uint_str_clean(n.width as int);
        lemma_uint_str_clean(n.unknown as int);
        lemma_uint_str_clean(n.duration as int);
        lemma_uint_str_clean(n.end_cell as int);
        lemma_uint_str_clean(n.end_width as int);
        lemma_dec_str_clean(n.starting_height);
        lemma_dec_str_clean(n.target_height);
        lemma_dec_str_reads_back(n.starting_height);
        lemma_dec_str_reads_back(n.target_height);
        lemma_color_clean(n.color@);
        assert(ts =~~= seq!["ALD"@] + common_tokens(n.measure, n.offset, n.cell, n.width) + seq![
            spec_uint_str(n.unknown as int),
            spec_dec_str(n.starting_height),
            spec_uint_str(n.duration as int),
            spec_uint_str(n.end_cell as int),
            spec_uint_str(n.end_width as int),
            spec_dec_str(n.target_height),
            n.color@,
        ]);
        lemma_join_fields(ts);
    }
    r
}

/// Writes an `ASD` line.
#[verifier::rlimit(100)]
fn air_slide_line(n: &AirSlide) -> (r: String)
    requires
        token_clean(n.target_note@),
        n.starting_height.wf(),
        n.target_height.wf(),
        is_color_token(n.color@),
    ensures
        spec_decode_note(line_fields(r@)) == Ok::<NoteModel, DecodeErrorKind>(
            (NoteModel::AirSlide {
                measure: n.measure,
                offset: n.offset,
                cell: n.cell,
                width: n.width,
                target_note: n.target_note@,
                starting_height: n.starting_height,
                duration: n.duration,
                end_cell: n.end_cell,
                end_width: n.end_width,
                target_height: n.target_height,
                color: n.color@,
            }),
        ),
{
    let mut tokens: Vec<String> = Vec::new();
    push_token(&mut tokens, "ASD".to_owned());
    push_common(&mut tokens, n.measure, n.offset, n.cell, n.width);
    push_token(&mut tokens, n.target_note.clone());
    push_token(&mut tokens, decimal_to_string(&n.starting_height));
    push_token(&mut tokens, uint_to_string(n.duration));
    push_token(&mut tokens, uint_to_string(n.end_cell));
    push_token(&mut tokens, uint_to_string(n.end_width));
    push_token(&mut tokens, decimal_to_string(&n.target_height));
    push_token(&mut tokens, n.color.clone());
    let r = join_tokens(&tokens);
    proof {
        let ts = tokens.deep_view();
        reveal_strlit("TAP");
        reveal_strlit("MNE");
        reveal_strlit("CHR");
        reveal_strlit("HLD");
        reveal_strlit("HXD");
        reveal_strlit("SLD");
        reveal_strlit("SLC");
        reveal_strlit("SXD");
        reveal_strlit("SXC");
        reveal_strlit("FLK");
        reveal_strlit("AIR");
        reveal_strlit("AUR");
        reveal_strlit("AUL");
        reveal_strlit("ADW");
        reveal_strlit("ADR");
        reveal_strlit("ADL");
        reveal_strlit("AHD");
        reveal_strlit("ALD");
        reveal_strlit("ASD");
        assert("ASD"@[0] == 'A' && "ASD"@[1] == 'S' && "ASD"@[2] == 'D');
        lemma_uint_str_clean(n.measure as int);
        lemma_uint_str_clean(n.offset as int);
        lemma_uint_str_clean(n.cell as int);
        lemma_uint_str_clean(n.width as int);
        lemma_uint_str_clean(n.duration as int);
        lemma_uint_str_clean(n.end_cell as int);
        lemma_uint_str_clean(n.end_width as int);
        lemma_dec_str_clean(n.starting_height);
        lemma_dec_str_clean(n.target_height);
        lemma_dec_str_reads_back(n.starting_height);
        lemma_dec_str_reads_back(n.target_height);
        lemma_color_clean(n.color@);
        assert(ts =~~= seq!["ASD"@] + common_tokens(n.measure, n.offset, n.cell, n.width) + seq![
            n.target_note@,
            spec_dec_str(n.starting_height),
            spec_uint_str(n.duration as int),
            spec_uint_str(n.end_cell as int),
            spec_uint_str(n.end_width as int),
            spec_dec_str(n.target_height),
            n.color@,
        ]);
        lemma_join_fields(ts);
    }
    r
}

} // verus!
