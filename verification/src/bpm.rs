//! BPM records: the chart-wide default declaration (`BPM_DEF`) and the
//! per-measure designations (`BPM`).

use vstd::prelude::*;
use crate::decode::ef_dec;
use crate::encode::decimal_to_string;
use crate::encode::join_tokens;
use crate::encode::lemma_dec_str_clean;
use crate::encode::lemma_dec_str_reads_back;
use crate::encode::lemma_join_fields;
use crate::encode::lemma_uint_str_clean;
use crate::encode::spec_dec_str;
use crate::encode::spec_uint_str;
use crate::encode::token_clean;
use crate::encode::uint_to_string;
use crate::decode::ef_uint;
use crate::decode::sf_dec;
use crate::decode::sf_uint;
use crate::decode::DecodeErrorKind;
use crate::num::Decimal;
use crate::text::line_fields;
use crate::text::split_line_fields;

verus! {

/// Default BPM designation for the chart, from a `BPM_DEF` line.
#[derive(Clone, Copy, Debug, PartialEq, Eq, Structural)]
pub struct BpmDef {
    /// The starting BPM of the chart.
    pub starting_bpm: Decimal,
    /// Unknown meaning.
    pub mode: Decimal,
    /// The highest BPM the chart uses.
    pub highest_bpm: Decimal,
    /// The lowest BPM the chart uses.
    pub lowest_bpm: Decimal,
}

impl Default for BpmDef {
    /// All four values zero.
    fn default() -> (r: BpmDef)
        ensures
            r == spec_bpm_def_default(),
    {
        BpmDef {
            starting_bpm: Decimal::default(),
            mode: Decimal::default(),
            highest_bpm: Decimal::default(),
            lowest_bpm: Decimal::default(),
        }
    }
}

/// The default [`BpmDef`]: all four values zero.
pub open spec fn spec_bpm_def_default() -> BpmDef {
    BpmDef {
        starting_bpm: Decimal { neg: false, units: 0, frac_num: 0, frac_len: 0 },
        mode: Decimal { neg: false, units: 0, frac_num: 0, frac_len: 0 },
        highest_bpm: Decimal { neg: false, units: 0, frac_num: 0, frac_len: 0 },
        lowest_bpm: Decimal { neg: false, units: 0, frac_num: 0, frac_len: 0 },
    }
}

/// Decodes a `BPM_DEF` line's fields: the tag, then four decimal values.
pub open spec fn spec_decode_bpm_def(f: Seq<Seq<char>>) -> Result<BpmDef, DecodeErrorKind> {
    match sf_dec(f, 1) {
        Err(k) => Err(k),
        Ok(starting_bpm) => match sf_dec(f, 2) {
            Err(k) => Err(k),
            Ok(mode) => match sf_dec(f, 3) {
                Err(k) => Err(k),
                Ok(highest_bpm) => match sf_dec(f, 4) {
                    Err(k) => Err(k),
                    Ok(lowest_bpm) => Ok(
                        BpmDef { starting_bpm, mode, highest_bpm, lowest_bpm },
                    ),
                },
            },
        },
    }
}

impl BpmDef {
    /// Decodes the trimmed fields of a `BPM_DEF` line; the leading tag
    /// field is ignored.
    pub fn decode_fields(fields: &Vec<String>) -> (r: Result<BpmDef, DecodeErrorKind>)
        ensures
            r == spec_decode_bpm_def(fields.deep_view()),
    {
        let starting_bpm = match ef_dec(fields, 1) {
            Ok(v) => v,
            Err(k) => {
                return Err(k);
            },
        };
        let mode = match ef_dec(fields, 2) {
            Ok(v) => v,
            Err(k) => {
                return Err(k);
            },
        };
        let highest_bpm = match ef_dec(fields, 3) {
            Ok(v) => v,
            Err(k) => {
                return Err(k);
            },
        };
        let lowest_bpm = match ef_dec(fields, 4) {
            Ok(v) => v,
            Err(k) => {
                return Err(k);
            },
        };
        Ok(BpmDef { starting_bpm, mode, highest_bpm, lowest_bpm })
    }

    /// Decodes one whole `BPM_DEF` line.
    pub fn from_str(s: &str) -> (r: Result<BpmDef, DecodeErrorKind>)
        ensures
            r == spec_decode_bpm_def(line_fields(s@)),
    {
        let fields = split_line_fields(s);
        Self::decode_fields(&fields)
    }

    /// Writes the record back as a `BPM_DEF` line.  The written line
    /// decodes to exactly this record.
    pub fn to_line(&self) -> (r: String)
        requires
            self.starting_bpm.wf(),
            self.mode.wf(),
            self.highest_bpm.wf(),
            self.lowest_bpm.wf(),
        ensures
            spec_decode_bpm_def(line_fields(r@)) == Ok::<BpmDef, DecodeErrorKind>(*self),
    {
        let mut tokens: Vec<String> = Vec::new();
        tokens.push("BPM_DEF".to_owned());
        tokens.push(decimal_to_string(&self.starting_bpm));
        tokens.push(decimal_to_string(&self.mode));
        tokens.push(decimal_to_string(&self.highest_bpm));
        tokens.push(decimal_to_string(&self.lowest_bpm));
        let r = join_tokens(&tokens);
        proof {
            let ts = tokens.deep_view();
            reveal_strlit("BPM_DEF");
            assert("BPM_DEF"@[0] == 'B' && "BPM_DEF"@[1] == 'P' && "BPM_DEF"@[2] == 'M'
                && "BPM_DEF"@[3] == '_' && "BPM_DEF"@[4] == 'D' && "BPM_DEF"@[5] == 'E'
                && "BPM_DEF"@[6] == 'F');
            assert(token_clean("BPM_DEF"@));
            lemma_dec_str_clean(self.starting_bpm);
            lemma_dec_str_clean(self.mode);
            lemma_dec_str_clean(self.highest_bpm);
            lemma_dec_str_clean(self.lowest_bpm);
            lemma_dec_str_reads_back(self.starting_bpm);
            lemma_dec_str_reads_back(self.mode);
            lemma_dec_str_reads_back(self.highest_bpm);
            lemma_dec_str_reads_back(self.lowest_bpm);
            assert(ts =~~= seq![
                "BPM_DEF"@,
                spec_dec_str(self.starting_bpm),
                spec_dec_str(self.mode),
                spec_dec_str(self.highest_bpm),
                spec_dec_str(self.lowest_bpm),
            ]);
            lemma_join_fields(ts);
        }
        r
    }
}

/// BPM designation for a specified measure in the chart, from a `BPM`
/// line.
#[derive(Clone, Copy, Debug, PartialEq, Eq, Structural)]
pub struct Bpm {
    /// The starting measure of the designation.
    pub beginning_measure: usize,
    /// The offset of the designation, in resolution ticks from the start
    /// of the measure.
    pub offset: usize,
    /// The designated BPM.
    pub bpm: Decimal,
}

/// Decodes a `BPM` line's fields: the tag, measure, offset and BPM value.
pub open spec fn spec_decode_bpm(f: Seq<Seq<char>>) -> Result<Bpm, DecodeErrorKind> {
    match sf_uint(f, 1) {
        Err(k) => Err(k),
        Ok(beginning_measure) => match sf_uint(f, 2) {
            Err(k) => Err(k),
            Ok(offset) => match sf_dec(f, 3) {
                Err(k) => Err(k),
                Ok(bpm) => Ok(Bpm { beginning_measure, offset, bpm }),
            },
        },
    }
}

impl Bpm {
    /// Decodes the trimmed fields of a `BPM` line; the leading tag field
    /// is ignored.
    pub fn decode_fields(fields: &Vec<String>) -> (r: Result<Bpm, DecodeErrorKind>)
        ensures
            r == spec_decode_bpm(fields.deep_view()),
    {
        let beginning_measure = match ef_uint(fields, 1) {
            Ok(v) => v,
            Err(k) => {
                return Err(k);
            },
        };
        let offset = match ef_uint(fields, 2) {
            Ok(v) => v,
            Err(k) => {
                return Err(k);
            },
        };
        let bpm = match ef_dec(fields, 3) {
            Ok(v) => v,
            Err(k) => {
                return Err(k);
            },
        };
        Ok(Bpm { beginning_measure, offset, bpm })
    }

    /// Decodes one whole `BPM` line.
    pub fn from_str(s: &str) -> (r: Result<Bpm, DecodeErrorKind>)
        ensures
            r == spec_decode_bpm(line_fields(s@)),
    {
        let fields = split_line_fields(s);
        Self::decode_fields(&fields)
    }

    /// Writes the record back as a `BPM` line.  The written line decodes
    /// to exactly this record.
    pub fn to_line(&self) -> (r: String)
        requires
            self.bpm.wf(),
        ensures
            spec_decode_bpm(line_fields(r@)) == Ok::<Bpm, DecodeErrorKind>(*self),
    {
        let mut tokens: Vec<String> = Vec::new();
        tokens.push("BPM".to_owned());
        tokens.push(uint_to_string(self.beginning_measure));
        tokens.push(uint_to_string(self.offset));
        tokens.push(decimal_to_string(&self.bpm));
        let r = join_tokens(&tokens);
        proof {
            let ts = tokens.deep_view();
            reveal_strlit("BPM");
            assert("BPM"@[0] == 'B' && "BPM"@[1] == 'P' && "BPM"@[2] == 'M');
            assert(token_clean("BPM"@));
            lemma_uint_str_clean(self.beginning_measure as int);
            lemma_uint_str_clean(self.offset as int);
            lemma_dec_str_clean(self.bpm);
            lemma_dec_str_reads_back(self.bpm);
            assert(ts =~~= seq![
                "BPM"@,
                spec_uint_str(self.beginning_measure as int),
                spec_uint_str(self.offset as int),
                spec_dec_str(self.bpm),
            ]);
            lemma_join_fields(ts);
        }
        r
    }
}

} // verus!
