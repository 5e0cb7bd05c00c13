//! Scroll-speed records (`SFL` lines).
//!
//! Unlike the other record decoders, this one reads its values from the
//! very first field on: it consumes no leading tag token, a known
//! inconsistency of the format.  The chart assembler therefore strips the
//! `SFL` tag before handing the remaining fields to this decoder.

use vstd::prelude::*;
use crate::decode::ef_dec;
use crate::encode::decimal_to_string;
use crate::encode::join_tokens;
use crate::encode::lemma_dec_str_clean;
use crate::encode::lemma_dec_str_reads_back;
use crate::encode::lemma_join_fields;
use crate::encode::lemma_uint_str_clean;
use crate::encode::spec_dec_str;
use crate::encode::spec_uint_str;
use crate::encode::uint_to_string;
use crate::decode::ef_uint;
use crate::decode::sf_dec;
use crate::decode::sf_uint;
use crate::decode::DecodeErrorKind;
use crate::num::Decimal;
use crate::text::line_fields;
use crate::text::split_line_fields;

verus! {

/// Playfield scroll-speed designation for a span of the chart.
#[derive(Clone, Copy, Debug, PartialEq, Eq, Structural)]
pub struct Sfl {
    /// The starting measure of the designation.
    pub beginning_measure: usize,
    /// The offset of the designation, in resolution ticks from the start
    /// of the measure.
    pub offset: usize,
    /// How long the designation lasts, in resolution ticks.
    pub duration: usize,
    /// The speed multiplier over that span.
    pub multiplier: Decimal,
}

/// Decodes an `SFL` payload's fields: measure, offset, duration and
/// multiplier, read from the first field on with no tag skipped.
pub open spec fn spec_decode_sfl(f: Seq<Seq<char>>) -> Result<Sfl, DecodeErrorKind> {
    match sf_uint(f, 0) {
        Err(k) => Err(k),
        Ok(beginning_measure) => match sf_uint(f, 1) {
            Err(k) => Err(k),
            Ok(offset) => match sf_uint(f, 2) {
                Err(k) => Err(k),
                Ok(duration) => match sf_dec(f, 3) {
                    Err(k) => Err(k),
                    Ok(multiplier) => Ok(
                        Sfl { beginning_measure, offset, duration, multiplier },
                    ),
                },
            },
        },
    }
}

impl Sfl {
    /// Decodes the trimmed fields of an `SFL` payload, the leading tag
    /// already stripped.
    pub fn decode_fields(fields: &Vec<String>) -> (r: Result<Sfl, DecodeErrorKind>)
        ensures
            r == spec_decode_sfl(fields.deep_view()),
    {
        let beginning_measure = match ef_uint(fields, 0) {
            Ok(v) => v,
            Err(k) => {
                return Err(k);
            },
        };
        let offset = match ef_uint(fields, 1) {
            Ok(v) => v,
            Err(k) => {
                return Err(k);
            },
        };
        let duration = match ef_uint(fields, 2) {
            Ok(v) => v,
            Err(k) => {
                return Err(k);
            },
        };
        let multiplier = match ef_dec(fields, 3) {
            Ok(v) => v,
            Err(k) => {
                return Err(k);
            },
        };
        Ok(Sfl { beginning_measure, offset, duration, multiplier })
    }

    /// Decodes one whole `SFL` payload: the fields after the line's tag.
    pub fn from_str(s: &str) -> (r: Result<Sfl, DecodeErrorKind>)
        ensures
            r == spec_decode_sfl(line_fields(s@)),
    {
        let fields = split_line_fields(s);
        Self::decode_fields(&fields)
    }

    /// Writes the record back as an `SFL` payload, without the leading
    /// tag that this decoder never consumes.  The written payload
    /// decodes to exactly this record.
    pub fn to_line(&self) -> (r: String)
        requires
            self.multiplier.wf(),
        ensures
            spec_decode_sfl(line_fields(r@)) == Ok::<Sfl, DecodeErrorKind>(*self),
    {
        let mut tokens: Vec<String> = Vec::new();
        tokens.push(uint_to_string(self.beginning_measure));
        tokens.push(uint_to_string(self.offset));
        tokens.push(uint_to_string(self.duration));
        tokens.push(decimal_to_string(&self.multiplier));
        let r = join_tokens(&tokens);
        proof {
            let ts = tokens.deep_view();
            lemma_uint_str_clean(self.beginning_measure as int);
            lemma_uint_str_clean(self.offset as int);
            lemma_uint_str_clean(self.duration as int);
            lemma_dec_str_clean(self.multiplier);
            lemma_dec_str_reads_back(self.multiplier);
            assert(ts =~~= seq![
                spec_uint_str(self.beginning_measure as int),
                spec_uint_str(self.offset as int),
                spec_uint_str(self.duration as int),
                spec_dec_str(self.multiplier),
            ]);
            lemma_join_fields(ts);
        }
        r
    }
}

} // verus!
