//! Metronome (time-signature) records: the chart-wide default declaration
//! (`MET_DEF`) and the per-measure designations (`MET`).
//!
//! Which of the two values is the numerator and which the denominator is
//! undocumented in the format, so both records keep them as opaque
//! positional values.  Note that a `MET` line writes its second value
//! before its first.

use vstd::prelude::*;
use crate::decode::ef_uint;
use crate::encode::join_tokens;
use crate::encode::lemma_join_fields;
use crate::encode::lemma_uint_str_clean;
use crate::encode::spec_uint_str;
use crate::encode::token_clean;
use crate::encode::uint_to_string;
use crate::decode::sf_uint;
use crate::decode::DecodeErrorKind;
use crate::text::line_fields;
use crate::text::split_line_fields;

verus! {

/// Default metronome declaration for the chart, from a `MET_DEF` line.
#[derive(Clone, Copy, Debug, PartialEq, Eq, Structural)]
pub struct MetDef {
    /// The first positional value; numerator-or-denominator role unknown.
    pub first_value: usize,
    /// The second positional value; numerator-or-denominator role unknown.
    pub second_value: usize,
}

impl Default for MetDef {
    /// Both values zero.
    fn default() -> (r: MetDef)
        ensures
            r == (MetDef { first_value: 0, second_value: 0 }),
    {
        MetDef { first_value: 0, second_value: 0 }
    }
}

/// Decodes a `MET_DEF` line's fields: the tag, then two unsigned values.
pub open spec fn spec_decode_met_def(f: Seq<Seq<char>>) -> Result<MetDef, DecodeErrorKind> {
    match sf_uint(f, 1) {
        Err(k) => Err(k),
        Ok(first_value) => match sf_uint(f, 2) {
            Err(k) => Err(k),
            Ok(second_value) => Ok(MetDef { first_value, second_value }),
        },
    }
}

impl MetDef {
    /// Decodes the trimmed fields of a `MET_DEF` line; the leading tag
    /// field is ignored.
    pub fn decode_fields(fields: &Vec<String>) -> (r: Result<MetDef, DecodeErrorKind>)
        ensures
            r == spec_decode_met_def(fields.deep_view()),
    {
        let first_value = match ef_uint(fields, 1) {
            Ok(v) => v,
            Err(k) => {
                return Err(k);
            },
        };
        let second_value = match ef_uint(fields, 2) {
            Ok(v) => v,
            Err(k) => {
                return Err(k);
            },
        };
        Ok(MetDef { first_value, second_value })
    }

    /// Decodes one whole `MET_DEF` line.
    pub fn from_str(s: &str) -> (r: Result<MetDef, DecodeErrorKind>)
        ensures
            r == spec_decode_met_def(line_fields(s@)),
    {
        let fields = split_line_fields(s);
        Self::decode_fields(&fields)
    }

    /// Writes the record back as a `MET_DEF` line.  The written line
    /// decodes to exactly this record.
    pub fn to_line(&self) -> (r: String)
        ensures
            spec_decode_met_def(line_fields(r@)) == Ok::<MetDef, DecodeErrorKind>(*self),
    {
        let mut tokens: Vec<String> = Vec::new();
        tokens.push("MET_DEF".to_owned());
        tokens.push(uint_to_string(self.first_value));
        tokens.push(uint_to_string(self.second_value));
        let r = join_tokens(&tokens);
        proof {
            let ts = tokens.deep_view();
            reveal_strlit("MET_DEF");
            assert("MET_DEF"@[0] == 'M' && "MET_DEF"@[1] == 'E' && "MET_DEF"@[2] == 'T'
                && "MET_DEF"@[3] == '_' && "MET_DEF"@[4] == 'D' && "MET_DEF"@[5] == 'E'
                && "MET_DEF"@[6] == 'F');
            assert(token_clean("MET_DEF"@));
            lemma_uint_str_clean(self.first_value as int);
            lemma_uint_str_clean(self.second_value as int);
            assert(ts =~~= seq![
                "MET_DEF"@,
                spec_uint_str(self.first_value as int),
                spec_uint_str(self.second_value as int),
            ]);
            lemma_join_fields(ts);
        }
        r
    }
}

/// Metronome designation for a specified measure, from a `MET` line.
#[derive(Clone, Copy, Debug, PartialEq, Eq, Structural)]
pub struct Met {
    /// The starting measure of the designation.
    pub beginning_measure: usize,
    /// The offset of the designation, in resolution ticks from the start
    /// of the measure.
    pub offset: usize,
    /// The second positional value, which the line writes first.
    pub second_value: usize,
    /// The first positional value, which the line writes last.
    pub first_value: usize,
}

/// Decodes a `MET` line's fields: the tag, measure, offset, then the
/// second and first positional values in that order.
pub open spec fn spec_decode_met(f: Seq<Seq<char>>) -> Result<Met, DecodeErrorKind> {
    match sf_uint(f, 1) {
        Err(k) => Err(k),
        Ok(beginning_measure) => match sf_uint(f, 2) {
            Err(k) => Err(k),
            Ok(offset) => match sf_uint(f, 3) {
                Err(k) => Err(k),
                Ok(second_value) => match sf_uint(f, 4) {
                    Err(k) => Err(k),
                    Ok(first_value) => Ok(
                        Met { beginning_measure, offset, second_value, first_value },
                    ),
                },
            },
        },
    }
}

impl Met {
    /// Decodes the trimmed fields of a `MET` line; the leading tag field
    /// is ignored.
    pub fn decode_fields(fields: &Vec<String>) -> (r: Result<Met, DecodeErrorKind>)
        ensures
            r == spec_decode_met(fields.deep_view()),
    {
        let beginning_measure = match ef_uint(fields, 1) {
            Ok(v) => v,
            Err(k) => {
                return Err(k);
            },
        };
        let offset = match ef_uint(fields, 2) {
            Ok(v) => v,
            Err(k) => {
                return Err(k);
            },
        };
        let second_value = match ef_uint(fields, 3) {
            Ok(v) => v,
            Err(k) => {
                return Err(k);
            },
        };
        let first_value = match ef_uint(fields, 4) {
            Ok(v) => v,
            Err(k) => {
                return Err(k);
            },
        };
        Ok(Met { beginning_measure, offset, second_value, first_value })
    }

    /// Decodes one whole `MET` line.
    pub fn from_str(s: &str) -> (r: Result<Met, DecodeErrorKind>)
        ensures
            r == spec_decode_met(line_fields(s@)),
    {
        let fields = split_line_fields(s);
        Self::decode_fields(&fields)
    }

    /// Writes the record back as a `MET` line, with the second value
    /// before the first as the format demands.  The written line decodes
    /// to exactly this record.
    pub fn to_line(&self) -> (r: String)
        ensures
            spec_decode_met(line_fields(r@)) == Ok::<Met, DecodeErrorKind>(*self),
    {
        let mut tokens: Vec<String> = Vec::new();
        tokens.push("MET".to_owned());
        tokens.push(uint_to_string(self.beginning_measure));
        tokens.push(uint_to_string(self.offset));
        tokens.push(uint_to_string(self.second_value));
        tokens.push(uint_to_string(self.first_value));
        let r = join_tokens(&tokens);
        proof {
            let ts = tokens.deep_view();
            reveal_strlit("MET");
            assert("MET"@[0] == 'M' && "MET"@[1] == 'E' && "MET"@[2] == 'T');
            assert(token_clean("MET"@));
            lemma_uint_str_clean(self.beginning_measure as int);
            lemma_uint_str_clean(self.offset as int);
            lemma_uint_str_clean(self.second_value as int);
            lemma_uint_str_clean(self.first_value as int);
            assert(ts =~~= seq![
                "MET"@,
                spec_uint_str(self.beginning_measure as int),
                spec_uint_str(self.offset as int),
                spec_uint_str(self.second_value as int),
                spec_uint_str(self.first_value as int),
            ]);
            lemma_join_fields(ts);
        }
        r
    }
}

} // verus!
