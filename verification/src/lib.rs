//! Parser for the tab-delimited `.c2s` chart text format used by CHUNITHM
//! rhythm-game charts.
//!
//! A chart file is a sequence of lines; each non-blank line starts with a
//! short tag token that names the record the line carries (a header scalar,
//! a timed event, or a note), followed by tab-separated fields.  The library
//! classifies each line, decodes its fields into strongly-typed records, and
//! assembles the records into a [`ChuniChart`] aggregate.  A line whose tag
//! is not recognized is skipped; a recognized line that fails to decode
//! aborts the whole parse with a typed error, and no partial chart is ever
//! returned.

use vstd::prelude::*;

pub mod bpm;
pub mod decode;
pub mod encode;
pub mod laws;
pub mod met;
pub mod note;
pub mod num;
pub mod sfl;
pub mod text;

use crate::bpm::spec_bpm_def_default;
use crate::bpm::Bpm;
use crate::bpm::BpmDef;
use crate::decode::ef_dec;
use crate::decode::ef_str;
use crate::decode::ef_uint;
use crate::decode::sf_dec;
use crate::decode::sf_str;
use crate::decode::sf_uint;
use crate::decode::DecodeErrorKind;
use crate::met::Met;
use crate::met::MetDef;
use crate::note::is_note_tag;
use crate::note::spec_decode_note;
use crate::note::NoteModel;
use crate::note::NoteType;
use crate::num::Decimal;
use crate::sfl::spec_decode_sfl;
use crate::sfl::Sfl;
use crate::text::line_blank;
use crate::text::line_fields;
use crate::text::split_char;
use crate::text::split_line_fields;
use crate::text::split_str;
use crate::text::str_eq;
use crate::text::trim_of;

verus! {

/// The section a line belongs to, as decided by its leading tag.
#[derive(Clone, Copy, Debug, PartialEq, Eq, Structural)]
pub enum ParserContext {
    /// An unrecognized tag: the line is skipped without error.
    Skip,
    /// A `VERSION` header line.
    Version,
    /// A `MUSIC` header line.
    Music,
    /// A `SEQUENCEID` header line.
    SequenceId,
    /// A `DIFFICULT` header line.
    Difficult,
    /// A `LEVEL` header line.
    Level,
    /// A `CREATOR` header line.
    Creator,
    /// A `BPM_DEF` declaration line.
    BpmDef,
    /// A `MET_DEF` declaration line.
    MetDef,
    /// A `RESOLUTION` header line.
    Resolution,
    /// A `CLK_DEF` header line.
    ClkDef,
    /// A `PROGJUDGE_BPM` header line.
    ProgJudgeBpm,
    /// A `PROGJUDGE_AER` header line.
    ProgJudgeAer,
    /// A `TUTORIAL` header line.
    Tutorial,
    /// A `BPM` designation line.
    Bpm,
    /// A `MET` designation line.
    Met,
    /// An `SFL` designation line.
    Sfl,
    /// A note line, one of the closed note-tag alphabet.
    Note,
}

/// Maps a leading tag to the section it names; every tag outside the
/// closed tag alphabet maps to [`ParserContext::Skip`].
pub open spec fn spec_classify(t: Seq<char>) -> ParserContext {
    if t == "VERSION"@ {
        ParserContext::Version
    } else if t == "MUSIC"@ {
        ParserContext::Music
    } else if t == "SEQUENCEID"@ {
        ParserContext::SequenceId
    } else if t == "DIFFICULT"@ {
        ParserContext::Difficult
    } else if t == "LEVEL"@ {
        ParserContext::Level
    } else if t == "CREATOR"@ {
        ParserContext::Creator
    } else if t == "BPM_DEF"@ {
        ParserContext::BpmDef
    } else if t == "MET_DEF"@ {
        ParserContext::MetDef
    } else if t == "RESOLUTION"@ {
        ParserContext::Resolution
    } else if t == "CLK_DEF"@ {
        ParserContext::ClkDef
    } else if t == "PROGJUDGE_BPM"@ {
        ParserContext::ProgJudgeBpm
    } else if t == "PROGJUDGE_AER"@ {
        ParserContext::ProgJudgeAer
    } else if t == "TUTORIAL"@ {
        ParserContext::Tutorial
    } else if t == "BPM"@ {
        ParserContext::Bpm
    } else if t == "MET"@ {
        ParserContext::Met
    } else if t == "SFL"@ {
        ParserContext::Sfl
    } else if is_note_tag(t) {
        ParserContext::Note
    } else {
        ParserContext::Skip
    }
}

impl ParserContext {
    /// Maps one tag token to its section.
    pub fn from_str(s: &str) -> (r: ParserContext)
        ensures
            r == spec_classify(s@),
    {
        if str_eq(s, "VERSION") {
            ParserContext::Version
        } else if str_eq(s, "MUSIC") {
            ParserContext::Music
        } else if str_eq(s, "SEQUENCEID") {
            ParserContext::SequenceId
        } else if str_eq(s, "DIFFICULT") {
            ParserContext::Difficult
        } else if str_eq(s, "LEVEL") {
            ParserContext::Level
        } else if str_eq(s, "CREATOR") {
            ParserContext::Creator
        } else if str_eq(s, "BPM_DEF") {
            ParserContext::BpmDef
        } else if str_eq(s, "MET_DEF") {
            ParserContext::MetDef
        } else if str_eq(s, "RESOLUTION") {
            ParserContext::Resolution
        } else if str_eq(s, "CLK_DEF") {
            ParserContext::ClkDef
        } else if str_eq(s, "PROGJUDGE_BPM") {
            ParserContext::ProgJudgeBpm
        } else if str_eq(s, "PROGJUDGE_AER") {
            ParserContext::ProgJudgeAer
        } else if str_eq(s, "TUTORIAL") {
            ParserContext::Tutorial
        } else if str_eq(s, "BPM") {
            ParserContext::Bpm
        } else if str_eq(s, "MET") {
            ParserContext::Met
        } else if str_eq(s, "SFL") {
            ParserContext::Sfl
        } else if str_eq(s, "TAP") || str_eq(s, "CHR") || str_eq(s, "HLD") || str_eq(s, "HXD")
            || str_eq(s, "SLD") || str_eq(s, "SLC") || str_eq(s, "SXD") || str_eq(s, "SXC")
            || str_eq(s, "FLK") || str_eq(s, "AIR") || str_eq(s, "AUR") || str_eq(s, "AUL")
            || str_eq(s, "AHD") || str_eq(s, "ADW") || str_eq(s, "ADR") || str_eq(s, "ADL")
            || str_eq(s, "ALD") || str_eq(s, "ASD") || str_eq(s, "MNE") {
            ParserContext::Note
        } else {
            ParserContext::Skip
        }
    }

    /// Classifies one line by its first tab-separated field.
    pub fn get_section(line: &str) -> (r: ParserContext)
        ensures
            r == spec_classify(line_fields(line@)[0]),
    {
        let fields = split_line_fields(line);
        proof {
            crate::text::lemma_line_fields_len(line@);
            assert(fields.deep_view()[0] == fields@[0]@);
        }
        ParserContext::from_str(fields[0].as_str())
    }
}

/// The mathematical model of a chart aggregate: the same fields as
/// [`ChuniChart`] with strings abstracted to character sequences and note
/// records to their models.
pub struct ChartModel {
    /// Model of the `version` field.
    pub version: Seq<char>,
    /// Model of the `music` field.
    pub music: usize,
    /// Model of the `sequence_id` field.
    pub sequence_id: usize,
    /// Model of the `difficult` field.
    pub difficult: usize,
    /// Model of the `level` field.
    pub level: Decimal,
    /// Model of the `creator` field.
    pub creator: Seq<char>,
    /// Model of the `bpm_def` field.
    pub bpm_def: BpmDef,
    /// Model of the `met_def` field.
    pub met_def: MetDef,
    /// Model of the `resolution` field.
    pub resolution: usize,
    /// Model of the `clk_def` field.
    pub clk_def: usize,
    /// Model of the `progjudge_bpm` field.
    pub progjudge_bpm: Decimal,
    /// Model of the `progjudge_aer` field.
    pub progjudge_aer: Decimal,
    /// Model of the `tutorial` field.
    pub tutorial: bool,
    /// Model of the `bpm` list.
    pub bpm: Seq<Bpm>,
    /// Model of the `met` list.
    pub met: Seq<Met>,
    /// Model of the `sfl` list.
    pub sfl: Seq<Sfl>,
    /// Model of the `notes` list.
    pub notes: Seq<NoteModel>,
}

/// The chart a parse starts from: empty strings, zero numbers, empty
/// lists.
pub open spec fn spec_chart_default() -> ChartModel {
    ChartModel {
        version: Seq::<char>::empty(),
        music: 0,
        sequence_id: 0,
        difficult: 0,
        level: Decimal { neg: false, units: 0, frac_num: 0, frac_len: 0 },
        creator: Seq::<char>::empty(),
        bpm_def: spec_bpm_def_default(),
        met_def: MetDef { first_value: 0, second_value: 0 },
        resolution: 0,
        clk_def: 0,
        progjudge_bpm: Decimal { neg: false, units: 0, frac_num: 0, frac_len: 0 },
        progjudge_aer: Decimal { neg: false, units: 0, frac_num: 0, frac_len: 0 },
        tutorial: false,
        bpm: Seq::<Bpm>::empty(),
        met: Seq::<Met>::empty(),
        sfl: Seq::<Sfl>::empty(),
        notes: Seq::<NoteModel>::empty(),
    }
}

/// What a header-scalar or declaration line of section `sec` does to the
/// chart: it overwrites the matching field.  Sections that are no header
/// leave the chart unchanged here; [`spec_apply_line`] handles them.
pub open spec fn spec_apply_header(c: ChartModel, f: Seq<Seq<char>>, sec: ParserContext) -> Result<
    ChartModel,
    DecodeErrorKind,
> {
    match sec {
        ParserContext::Version => match sf_str(f, 1) {
            Err(k) => Err(k),
            Ok(v) => Ok(ChartModel { version: v, ..c }),
        },
        ParserContext::Music => match sf_uint(f, 1) {
            Err(k) => Err(k),
            Ok(v) => Ok(ChartModel { music: v, ..c }),
        },
        ParserContext::SequenceId => match sf_uint(f, 1) {
            Err(k) => Err(k),
            Ok(v) => Ok(ChartModel { sequence_id: v, ..c }),
        },
        ParserContext::Difficult => match sf_uint(f, 1) {
            Err(k) => Err(k),
            Ok(v) => Ok(ChartModel { difficult: v, ..c }),
        },
        ParserContext::Level => match sf_dec(f, 1) {
            Err(k) => Err(k),
            Ok(v) => Ok(ChartModel { level: v, ..c }),
        },
        ParserContext::Creator => match sf_str(f, 1) {
            Err(k) => Err(k),
            Ok(v) => Ok(ChartModel { creator: v, ..c }),
        },
        sec2 => spec_apply_declaration(c, f, sec2),
    }
}

/// What a declaration or judge-parameter line of section `sec` does to
/// the chart; the identifying header sections are handled by
/// [`spec_apply_header`].
pub open spec fn spec_apply_declaration(
    c: ChartModel,
    f: Seq<Seq<char>>,
    sec: ParserContext,
) -> Result<ChartModel, DecodeErrorKind> {
    match sec {
        ParserContext::BpmDef => match crate::bpm::spec_decode_bpm_def(f) {
            Err(k) => Err(k),
            Ok(v) => Ok(ChartModel { bpm_def: v, ..c }),
        },
        ParserContext::MetDef => match crate::met::spec_decode_met_def(f) {
            Err(k) => Err(k),
            Ok(v) => Ok(ChartModel { met_def: v, ..c }),
        },
        ParserContext::Resolution => match sf_uint(f, 1) {
            Err(k) => Err(k),
            Ok(v) => Ok(ChartModel { resolution: v, ..c }),
        },
        ParserContext::ClkDef => match sf_uint(f, 1) {
            Err(k) => Err(k),
            Ok(v) => Ok(ChartModel { clk_def: v, ..c }),
        },
        ParserContext::ProgJudgeBpm => match sf_dec(f, 1) {
            Err(k) => Err(k),
            Ok(v) => Ok(ChartModel { progjudge_bpm: v, ..c }),
        },
        ParserContext::ProgJudgeAer => match sf_dec(f, 1) {
            Err(k) => Err(k),
            Ok(v) => Ok(ChartModel { progjudge_aer: v, ..c }),
        },
        ParserContext::Tutorial => match sf_uint(f, 1) {
            Err(k) => Err(k),
            Ok(v) => Ok(ChartModel { tutorial: v != 0, ..c }),
        },
        _ => Ok(c),
    }
}

/// What one line does to the chart under construction: a blank or
/// unrecognized line leaves it unchanged, a header line overwrites its
/// scalar field, a designation or note line appends to its list, and a
/// recognized line that fails to decode fails the whole parse.
pub open spec fn spec_apply_line(c: ChartModel, raw: Seq<char>) -> Result<
    ChartModel,
    DecodeErrorKind,
> {
    if line_blank(raw) {
        Ok(c)
    } else {
        let f = line_fields(raw);
        match spec_classify(f[0]) {
            ParserContext::Skip => Ok(c),
            ParserContext::Bpm => match crate::bpm::spec_decode_bpm(f) {
                Err(k) => Err(k),
                Ok(v) => Ok(ChartModel { bpm: c.bpm.push(v), ..c }),
            },
            ParserContext::Met => match crate::met::spec_decode_met(f) {
                Err(k) => Err(k),
                Ok(v) => Ok(ChartModel { met: c.met.push(v), ..c }),
            },
            ParserContext::Sfl => match spec_decode_sfl(f.drop_first()) {
                Err(k) => Err(k),
                Ok(v) => Ok(ChartModel { sfl: c.sfl.push(v), ..c }),
            },
            ParserContext::Note => match spec_decode_note(f) {
                Err(k) => Err(k),
                Ok(v) => Ok(ChartModel { notes: c.notes.push(v), ..c }),
            },
            sec => spec_apply_header(c, f, sec),
        }
    }
}

/// The mathematical model of a parse failure: the one-based line number,
/// the offending line's tag, and why decoding failed.
pub struct ChartErrorModel {
    /// The one-based number of the line that failed.
    pub line: int,
    /// The leading tag of the line that failed.
    pub tag: Seq<char>,
    /// Why decoding failed.
    pub kind: DecodeErrorKind,
}

/// Folds [`spec_apply_line`] over the remaining lines, numbering them
/// from `lineno`; the first failing line aborts the fold with its error.
pub open spec fn spec_parse_lines(ls: Seq<Seq<char>>, lineno: int, c: ChartModel) -> Result<
    ChartModel,
    ChartErrorModel,
>
    decreases ls.len(),
{
    if ls.len() == 0 {
        Ok(c)
    } else {
        match spec_apply_line(c, ls[0]) {
            Ok(c2) => spec_parse_lines(ls.drop_first(), lineno + 1, c2),
            Err(k) => Err(
                ChartErrorModel { line: lineno, tag: line_fields(ls[0])[0], kind: k },
            ),
        }
    }
}

/// The model of a whole parse: the input split on newlines, folded from
/// line one over the default chart.
pub open spec fn spec_parse(input: Seq<char>) -> Result<ChartModel, ChartErrorModel> {
    spec_parse_lines(split_char(input, '\n'), 1, spec_chart_default())
}

/// A parse failure: the one-based line number, the offending line's tag,
/// and why decoding failed.
#[derive(Clone, Debug, PartialEq, Eq)]
pub struct ChartError {
    /// The one-based number of the line that failed.
    pub line: usize,
    /// The leading tag of the line that failed.
    pub tag: String,
    /// Why decoding failed.
    pub kind: DecodeErrorKind,
}

impl View for ChartError {
    type V = ChartErrorModel;

    /// The failure with its tag abstracted to a character sequence.
    open spec fn view(&self) -> ChartErrorModel {
        ChartErrorModel { line: self.line as int, tag: self.tag@, kind: self.kind }
    }
}

/// Representation of a CHUNITHM chart.
#[derive(Clone, Debug, PartialEq, Eq)]
pub struct ChuniChart {
    /// The version of the chart format.
    pub version: String,
    /// The ID for the music track; usually 0.
    pub music: usize,
    /// The sequence ID of the chart; usually 0.
    pub sequence_id: usize,
    /// The difficulty of the chart; usually 0.
    pub difficult: usize,
    /// The internal level of the chart; usually 0.0.
    pub level: Decimal,
    /// The creator of the chart file.
    pub creator: String,
    /// The default BPM declaration for the chart.
    pub bpm_def: BpmDef,
    /// The default metronome declaration for the chart.
    pub met_def: MetDef,
    /// The resolution of the chart: how many ticks one measure spans.
    /// With the usual resolution of 384, the beats of a common-time
    /// measure fall at offsets 0, 96, 192 and 288.
    pub resolution: usize,
    /// Unknown meaning; usually 384.
    pub clk_def: usize,
    /// Unknown meaning; usually 240.000.
    pub progjudge_bpm: Decimal,
    /// Unknown meaning; usually 0.999.
    pub progjudge_aer: Decimal,
    /// Whether the track is a tutorial track.
    pub tutorial: bool,
    /// All BPM designations in the chart, in file order.
    pub bpm: Vec<Bpm>,
    /// All time-signature designations in the chart, in file order.
    pub met: Vec<Met>,
    /// All playfield speed designations in the chart, in file order.
    pub sfl: Vec<Sfl>,
    /// All notes in the chart, in file order.
    pub notes: Vec<NoteType>,
}

impl View for ChuniChart {
    type V = ChartModel;

    /// The chart with its strings and notes abstracted to their models.
    open spec fn view(&self) -> ChartModel {
        ChartModel {
            version: self.version@,
            music: self.music,
            sequence_id: self.sequence_id,
            difficult: self.difficult,
            level: self.level,
            creator: self.creator@,
            bpm_def: self.bpm_def,
            met_def: self.met_def,
            resolution: self.resolution,
            clk_def: self.clk_def,
            progjudge_bpm: self.progjudge_bpm,
            progjudge_aer: self.progjudge_aer,
            tutorial: self.tutorial,
            bpm: self.bpm@,
            met: self.met@,
            sfl: self.sfl@,
            notes: self.notes@.map_values(|n: NoteType| n@),
        }
    }
}

impl Default for ChuniChart {
    /// The chart a parse starts from: empty strings, zero numbers, empty
    /// lists.
    fn default() -> (r: ChuniChart)
        ensures
            r@ == spec_chart_default(),
    {
        let r = ChuniChart {
            version: String::new(),
            music: 0,
            sequence_id: 0,
            difficult: 0,
            level: Decimal::default(),
            creator: String::new(),
            bpm_def: BpmDef::default(),
            met_def: MetDef::default(),
            resolution: 0,
            clk_def: 0,
            progjudge_bpm: Decimal::default(),
            progjudge_aer: Decimal::default(),
            tutorial: false,
            bpm: Vec::new(),
            met: Vec::new(),
            sfl: Vec::new(),
            notes: Vec::new(),
        };
        proof {
            assert(r@.notes =~= spec_chart_default().notes);
            assert(r@ =~= spec_chart_default());
        }
        r
    }
}

/// Copies the fields after the tag, for the one decoder that consumes no
/// tag token.
fn tail_fields(fields: &Vec<String>) -> (r: Vec<String>)
    requires
        fields.len() >= 1,
    ensures
        r.deep_view() == fields.deep_view().drop_first(),
{
    let mut rest: Vec<String> = Vec::new();
    let mut j: usize = 1;
    while j < fields.len()
        invariant
            1 <= j <= fields.len(),
            rest.len() == j - 1,
            forall|k: int| 0 <= k < j - 1 ==> rest@[k]@ == fields.deep_view()[k + 1],
        decreases fields.len() - j,
    {
        proof {
            assert(fields.deep_view()[j as int] == fields@[j as int]@);
        }
        rest.push(fields[j].clone());
        j = j + 1;
    }
    proof {
        assert(rest.deep_view() =~~= fields.deep_view().drop_first());
    }
    rest
}

impl ChuniChart {
    /// Applies one header-scalar or declaration line of section `section`
    /// to the chart, overwriting the matching field.
    #[verifier::rlimit(100)]
    fn apply_header(&mut self, fields: &Vec<String>, section: ParserContext) -> (r: Result<
        (),
        DecodeErrorKind,
    >)
        ensures
            (r matches Ok(u) ==> spec_apply_header(old(self)@, fields.deep_view(), section)
                == Ok::<ChartModel, DecodeErrorKind>(final(self)@)),
            (r matches Err(k) ==> spec_apply_header(old(self)@, fields.deep_view(), section)
                == Err::<ChartModel, DecodeErrorKind>(k)),
    {
        match section {
            ParserContext::Version => match ef_str(fields, 1) {
                Ok(v) => {
                    self.version = v;
                    Ok(())
                },
                Err(k) => Err(k),
            },
            ParserContext::Music => match ef_uint(fields, 1) {
                Ok(v) => {
                    self.music = v;
                    Ok(())
                },
                Err(k) => Err(k),
            },
            ParserContext::SequenceId => match ef_uint(fields, 1) {
                Ok(v) => {
                    self.sequence_id = v;
                    Ok(())
                },
                Err(k) => Err(k),
            },
            ParserContext::Difficult => match ef_uint(fields, 1) {
                Ok(v) => {
                    self.difficult = v;
                    Ok(())
                },
                Err(k) => Err(k),
            },
            ParserContext::Level => match ef_dec(fields, 1) {
                Ok(v) => {
                    self.level = v;
                    Ok(())
                },
                Err(k) => Err(k),
            },
            ParserContext::Creator => match ef_str(fields, 1) {
                Ok(v) => {
                    self.creator = v;
                    Ok(())
                },
                Err(k) => Err(k),
            },
            _ => self.apply_declaration(fields, section),
        }
    }

    /// Applies one declaration or judge-parameter line of section
    /// `section` to the chart.
    #[verifier::rlimit(100)]
    fn apply_declaration(&mut self, fields: &Vec<String>, section: ParserContext) -> (r: Result<
        (),
        DecodeErrorKind,
    >)
        requires
            !(section is Version || section is Music || section is SequenceId || section
                is Difficult || section is Level || section is Creator),
        ensures
            (r matches Ok(u) ==> spec_apply_declaration(old(self)@, fields.deep_view(), section)
                == Ok::<ChartModel, DecodeErrorKind>(final(self)@)),
            (r matches Err(k) ==> spec_apply_declaration(old(self)@, fields.deep_view(), section)
                == Err::<ChartModel, DecodeErrorKind>(k)),
    {
        match section {
            ParserContext::BpmDef => match BpmDef::decode_fields(fields) {
                Ok(v) => {
                    self.bpm_def = v;
                    Ok(())
                },
                Err(k) => Err(k),
            },
            ParserContext::MetDef => match MetDef::decode_fields(fields) {
                Ok(v) => {
                    self.met_def = v;
                    Ok(())
                },
                Err(k) => Err(k),
            },
            ParserContext::Resolution => match ef_uint(fields, 1) {
                Ok(v) => {
                    self.resolution = v;
                    Ok(())
                },
                Err(k) => Err(k),
            },
            ParserContext::ClkDef => match ef_uint(fields, 1) {
                Ok(v) => {
                    self.clk_def = v;
                    Ok(())
                },
                Err(k) => Err(k),
            },
            ParserContext::ProgJudgeBpm => match ef_dec(fields, 1) {
                Ok(v) => {
                    self.progjudge_bpm = v;
                    Ok(())
                },
                Err(k) => Err(k),
            },
            ParserContext::ProgJudgeAer => match ef_dec(fields, 1) {
                Ok(v) => {
                    self.progjudge_aer = v;
                    Ok(())
                },
                Err(k) => Err(k),
            },
            ParserContext::Tutorial => match ef_uint(fields, 1) {
                Ok(v) => {
                    self.tutorial = v != 0;
                    Ok(())
                },
                Err(k) => Err(k),
            },
            _ => Ok(()),
        }
    }

    /// Applies one line to the chart under construction.
    #[verifier::rlimit(100)]
    fn apply_line(&mut self, line: &str) -> (r: Result<(), DecodeErrorKind>)
        ensures
            (r matches Ok(u) ==> spec_apply_line(old(self)@, line@) == Ok::<
                ChartModel,
                DecodeErrorKind,
            >(final(self)@)),
            (r matches Err(k) ==> spec_apply_line(old(self)@, line@) == Err::<
                ChartModel,
                DecodeErrorKind,
            >(k)),
    {
        let t = trim_of(line);
        if t.unicode_len() == 0 {
            return Ok(());
        }
        let fields = split_line_fields(line);
        proof {
            crate::text::lemma_line_fields_len(line@);
            assert(fields.deep_view()[0] == fields@[0]@);
        }
        let section = ParserContext::from_str(fields[0].as_str());
        match section {
            ParserContext::Skip => Ok(()),
            ParserContext::Bpm => match Bpm::decode_fields(&fields) {
                Ok(v) => {
                    self.bpm.push(v);
                    Ok(())
                },
                Err(k) => Err(k),
            },
            ParserContext::Met => match Met::decode_fields(&fields) {
                Ok(v) => {
                    self.met.push(v);
                    Ok(())
                },
                Err(k) => Err(k),
            },
            ParserContext::Sfl => {
                let rest = tail_fields(&fields);
                match Sfl::decode_fields(&rest) {
                    Ok(v) => {
                        self.sfl.push(v);
                        Ok(())
                    },
                    Err(k) => Err(k),
                }
            },
            ParserContext::Note => match NoteType::decode_fields(&fields) {
                Ok(v) => {
                    let ghost pre = self.notes@;
                    self.notes.push(v);
                    proof {
                        assert(self.notes@.map_values(|n: NoteType| n@) =~= pre.map_values(
                            |n: NoteType| n@,
                        ).push(v@));
                    }
                    Ok(())
                },
                Err(k) => Err(k),
            },
            _ => self.apply_header(&fields, section),
        }
    }

    /// Takes the chart text and parses it into a [`ChuniChart`].
    ///
    /// Returns a [`ChartError`] naming the line, tag and cause if any
    /// line fails to decode; no partial chart is returned on failure.
    pub fn parse(input: String) -> (r: Result<ChuniChart, ChartError>)
        ensures
            (r matches Ok(c) ==> spec_parse(input@) == Ok::<ChartModel, ChartErrorModel>(c@)),
            (r matches Err(e) ==> spec_parse(input@) == Err::<ChartModel, ChartErrorModel>(e@)),
    {
        let lines = split_str(input.as_str(), '\n');
        let ghost ls = split_char(input@, '\n');
        let mut chart = ChuniChart::default();
        let mut i: usize = 0;
        proof {
            assert(ls.skip(0) =~~= ls);
        }
        while i < lines.len()
            invariant
                0 <= i <= lines.len(),
                lines.deep_view() == split_char(input@, '\n'),
                ls == split_char(input@, '\n'),
                spec_parse(input@) == spec_parse_lines(ls.skip(i as int), i + 1, chart@),
            decreases lines.len() - i,
        {
            proof {
                assert(lines.deep_view()[i as int] == lines@[i as int]@);
                assert(ls.skip(i as int)[0] == ls[i as int]);
            }
            match chart.apply_line(lines[i].as_str()) {
                Ok(_) => {
                    proof {
                        assert(ls.skip(i as int).drop_first() =~~= ls.skip(i + 1));
                    }
                },
                Err(k) => {
                    let failed = split_line_fields(lines[i].as_str());
                    proof {
                        crate::text::lemma_line_fields_len(lines.deep_view()[i as int]);
                        assert(failed.deep_view()[0] == failed@[0]@);
                    }
                    let e = ChartError { line: i + 1, tag: failed[0].clone(), kind: k };
                    return Err(e);
                },
            }
            i = i + 1;
        }
        proof {
            assert(ls.skip(i as int) =~~= Seq::<Seq<char>>::empty());
        }
        Ok(chart)
    }
}

} // verus!
