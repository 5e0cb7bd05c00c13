//! Field-level decoding: the error taxonomy and the typed accessors that
//! every record decoder reads its tab-separated fields through.

use vstd::prelude::*;
use crate::num::dec_of;
use crate::num::dec_token_ok;
use crate::num::parse_decimal;
use crate::num::parse_uint;
use crate::num::uint_token_ok;
use crate::num::uint_val;
use crate::num::Decimal;

verus! {

/// Why decoding one line failed.
///
/// The taxonomy follows the format's three failure classes: a structural
/// error (a required field is missing), a type error (a field fails its
/// numeric conversion), and a domain error (an enumerated field holds a
/// value outside its closed set).  A note line whose leading tag is not
/// one of the note tags is its own kind, reachable only when a note
/// decoder is invoked directly.
#[derive(Clone, Copy, Debug, PartialEq, Eq, Structural)]
pub enum DecodeErrorKind {
    /// The line has fewer fields than its tag requires.
    MissingField,
    /// A field that should be an unsigned integer fails to convert.
    InvalidUint,
    /// A field that should be a decimal number fails to convert.
    InvalidDecimal,
    /// A color field holds a token outside the closed color set.
    InvalidColor,
    /// A note decoder was handed a line whose tag is not a note tag.
    UnknownNoteTag,
}

/// Field `i` of `f` read as an unsigned integer.
pub open spec fn sf_uint(f: Seq<Seq<char>>, i: int) -> Result<usize, DecodeErrorKind> {
    if !(0 <= i < f.len()) {
        Err(DecodeErrorKind::MissingField)
    } else if !uint_token_ok(f[i]) {
        Err(DecodeErrorKind::InvalidUint)
    } else {
        Ok(uint_val(f[i]) as usize)
    }
}

/// Field `i` of `f` read as a decimal number.
pub open spec fn sf_dec(f: Seq<Seq<char>>, i: int) -> Result<Decimal, DecodeErrorKind> {
    if !(0 <= i < f.len()) {
        Err(DecodeErrorKind::MissingField)
    } else if !dec_token_ok(f[i]) {
        Err(DecodeErrorKind::InvalidDecimal)
    } else {
        Ok(dec_of(f[i]))
    }
}

/// Field `i` of `f` read as a string, which is always accepted when the
/// field is present.
pub open spec fn sf_str(f: Seq<Seq<char>>, i: int) -> Result<Seq<char>, DecodeErrorKind> {
    if !(0 <= i < f.len()) {
        Err(DecodeErrorKind::MissingField)
    } else {
        Ok(f[i])
    }
}

/// Reads field `i` of `fields` as an unsigned integer.
pub fn ef_uint(fields: &Vec<String>, i: usize) -> (r: Result<usize, DecodeErrorKind>)
    ensures
        r == sf_uint(fields.deep_view(), i as int),
{
    if i >= fields.len() {
        Err(DecodeErrorKind::MissingField)
    } else {
        proof {
            assert(fields.deep_view()[i as int] == fields@[i as int]@);
        }
        match parse_uint(fields[i].as_str()) {
            None => Err(DecodeErrorKind::InvalidUint),
            Some(v) => Ok(v),
        }
    }
}

/// Reads field `i` of `fields` as a decimal number.
pub fn ef_dec(fields: &Vec<String>, i: usize) -> (r: Result<Decimal, DecodeErrorKind>)
    ensures
        r == sf_dec(fields.deep_view(), i as int),
{
    if i >= fields.len() {
        Err(DecodeErrorKind::MissingField)
    } else {
        proof {
            assert(fields.deep_view()[i as int] == fields@[i as int]@);
        }
        match parse_decimal(fields[i].as_str()) {
            None => Err(DecodeErrorKind::InvalidDecimal),
            Some(d) => Ok(d),
        }
    }
}

/// Reads field `i` of `fields` as an owned string.
pub fn ef_str(fields: &Vec<String>, i: usize) -> (r: Result<String, DecodeErrorKind>)
    ensures
        match r {
            Ok(s) => sf_str(fields.deep_view(), i as int) == Ok::<Seq<char>, DecodeErrorKind>(s@),
            Err(k) => sf_str(fields.deep_view(), i as int) == Err::<Seq<char>, DecodeErrorKind>(k),
        },
{
    if i >= fields.len() {
        Err(DecodeErrorKind::MissingField)
    } else {
        proof {
            assert(fields.deep_view()[i as int] == fields@[i as int]@);
        }
        Ok(fields[i].clone())
    }
}

} // verus!
