//! Payloads as bytes and as text.
//!
//! Text becomes bytes by UTF-8 encoding, which is total. Bytes become text
//! only where they are valid UTF-8; otherwise the conversion fails with an
//! [`ErrorKind::InvalidData`] error. A tombstone has no payload and passes
//! through unchanged in both directions.

use crate::marked::Marked;
use crate::seq_marked::SeqMarked;
use std::string::FromUtf8Error;
use vstd::prelude::*;
use vstd::utf8::decode_utf8;
use vstd::utf8::encode_utf8;
use vstd::utf8::valid_utf8;

verus! {

/// The error of `String::from_utf8`; nothing is read from it but its description.
#[verifier::external_type_specification]
#[verifier::external_body]
pub struct ExFromUtf8Error(FromUtf8Error);

/// `String::from_utf8` succeeds exactly on valid UTF-8, and the string that it
/// returns holds the characters that the bytes encode.
pub assume_specification[ String::from_utf8 ](vec: Vec<u8>) -> (r: Result<String, FromUtf8Error>)
    ensures
        r is Ok <==> valid_utf8(vec@),
        r is Ok ==> r->Ok_0@ == decode_utf8(vec@),
;

/// `String::into_bytes` returns the UTF-8 encoding of the string.
pub assume_specification[ String::into_bytes ](s: String) -> (r: Vec<u8>)
    ensures
        r@ == encode_utf8(s@),
;

/// What went wrong in a conversion.
#[derive(Debug, Clone, Copy, PartialEq, Eq, Structural)]
pub enum ErrorKind {
    /// A payload of bytes is not valid UTF-8.
    InvalidData,
}

/// A failed conversion: its kind and a description of the failure.
#[derive(Debug, PartialEq, Eq)]
pub struct ConvertError {
    pub kind: ErrorKind,
    pub message: String,
}

impl Clone for ConvertError {
    fn clone(&self) -> (r: Self)
        ensures
            r == *self,
    {
        ConvertError { kind: self.kind, message: self.message.clone() }
    }
}

/// The text that a payload of bytes holds, if the bytes are valid UTF-8.
pub open spec fn spec_decode(bytes: Seq<u8>) -> Option<Seq<char>> {
    if valid_utf8(bytes) {
        Some(decode_utf8(bytes))
    } else {
        None
    }
}

/// The bytes of a payload of text.
pub open spec fn spec_encode(text: Seq<char>) -> Seq<u8> {
    encode_utf8(text)
}

/// The description of an invalid payload, given what the decoder reported.
pub open spec fn spec_invalid_data_message(detail: Seq<char>) -> Seq<char> {
    "fail to convert Vec<u8> to String: "@ + detail
}

impl ConvertError {
    /// An invalid-data error whose description ends in what the decoder reported.
    pub fn invalid_data(detail: &str) -> (e: ConvertError)
        ensures
            e.kind == ErrorKind::InvalidData,
            e.message@ == spec_invalid_data_message(detail@),
    {
        let message = String::from_str("fail to convert Vec<u8> to String: ").concat(detail);
        ConvertError { kind: ErrorKind::InvalidData, message }
    }

    /// Whether this is an invalid-data error with the description that
    /// [`ConvertError::invalid_data`] gives it, whatever the decoder reported.
    pub open spec fn is_invalid_data(self) -> bool {
        &&& self.kind == ErrorKind::InvalidData
        &&& exists|detail: Seq<char>| self.message@ == spec_invalid_data_message(detail)
    }

    /// The kind of the failure.
    pub fn kind(&self) -> (r: ErrorKind)
        ensures
            r == self.kind,
    {
        self.kind
    }

    /// The description of the failure.
    pub fn to_string(&self) -> (r: String)
        ensures
            r@ == self.message@,
    {
        self.message.clone()
    }
}

/// Decodes a payload of bytes into text.
///
/// Succeeds exactly where the bytes are valid UTF-8.
pub fn text_from_bytes(bytes: Vec<u8>) -> (r: Result<String, ConvertError>)
    ensures
        match spec_decode(bytes@) {
            Some(text) => r is Ok && r->Ok_0@ == text,
            None => r is Err && r->Err_0.is_invalid_data(),
        },
{
    match String::from_utf8(bytes) {
        Ok(s) => Ok(s),
        Err(e) => {
            let detail = e.to_string();
            let error = ConvertError::invalid_data(detail.as_str());
            Err(error)
        },
    }
}

/// Encodes a payload of text into bytes.
pub fn bytes_from_text(text: String) -> (r: Vec<u8>)
    ensures
        r@ == spec_encode(text@),
{
    text.into_bytes()
}

/// Encoding a text and decoding the bytes gives the text back.
pub proof fn lemma_encode_then_decode(text: Seq<char>)
    ensures
        spec_decode(spec_encode(text)) == Some(text),
{
    broadcast use vstd::utf8::encode_utf8_valid_utf8;
    broadcast use vstd::utf8::encode_utf8_decode_utf8;

}

/// Decoding valid bytes and encoding the text gives the bytes back.
pub proof fn lemma_decode_then_encode(bytes: Seq<u8>)
    requires
        spec_decode(bytes) is Some,
    ensures
        spec_encode(spec_decode(bytes)->Some_0) == bytes,
{
    broadcast use vstd::utf8::decode_utf8_encode_utf8;

}

/// Bytes do not decode where the first of them begins no encoding: a
/// continuation byte, or a byte from `0xF8` on.
pub proof fn lemma_bad_first_byte(bytes: Seq<u8>)
    requires
        bytes.len() > 0,
        0x80 <= bytes[0] <= 0xBF || 0xF8 <= bytes[0],
    ensures
        spec_decode(bytes) is None,
{
    assert(!vstd::utf8::valid_first_scalar(bytes));
}

impl<M> vstd::std_specs::convert::TryFromSpecImpl<Marked<(Option<M>, Vec<u8>)>> for Marked<(Option<M>, String)> {
    /// The description in the error is the decoder's, so the result is stated
    /// by the contract of `try_from` and not as a function of the input.
    open spec fn obeys_try_from_spec() -> bool {
        false
    }

    open spec fn try_from_spec(marked: Marked<(Option<M>, Vec<u8>)>) -> Result<Self, Self::Error> {
        arbitrary()
    }
}

impl<M> TryFrom<Marked<(Option<M>, Vec<u8>)>> for Marked<(Option<M>, String)> {
    type Error = ConvertError;

    /// Decodes the payload of a normal value and keeps its metadata; a
    /// tombstone stays a tombstone.
    fn try_from(marked: Marked<(Option<M>, Vec<u8>)>) -> (r: Result<Self, Self::Error>)
        ensures
            match marked {
                Marked::TombStone => r is Ok && r->Ok_0 is TombStone,
                Marked::Normal(d) => match spec_decode(d.1@) {
                    Some(text) => {
                        &&& r is Ok
                        &&& r->Ok_0 is Normal
                        &&& r->Ok_0->Normal_0.0 == d.0
                        &&& r->Ok_0->Normal_0.1@ == text
                    },
                    None => r is Err && r->Err_0.is_invalid_data(),
                },
            },
    {
        match marked {
            Marked::TombStone => Ok(Marked::TombStone),
            Marked::Normal((meta, value)) => {
                match text_from_bytes(value) {
                    Ok(s) => Ok(Marked::Normal((meta, s))),
                    Err(e) => Err(e),
                }
            },
        }
    }
}

impl<M> vstd::std_specs::convert::FromSpecImpl<Marked<(Option<M>, String)>> for Marked<(Option<M>, Vec<u8>)> {
    /// The bytes are stated by their view, in the contract of `from`.
    open spec fn obeys_from_spec() -> bool {
        false
    }

    open spec fn from_spec(value: Marked<(Option<M>, String)>) -> Self {
        arbitrary()
    }
}

impl<M> From<Marked<(Option<M>, String)>> for Marked<(Option<M>, Vec<u8>)> {
    /// Encodes the payload of a normal value and keeps its metadata; a
    /// tombstone stays a tombstone.
    fn from(value: Marked<(Option<M>, String)>) -> (r: Self)
        ensures
            match value {
                Marked::TombStone => r is TombStone,
                Marked::Normal(d) => {
                    &&& r is Normal
                    &&& r->Normal_0.0 == d.0
                    &&& r->Normal_0.1@ == spec_encode(d.1@)
                },
            },
    {
        match value {
            Marked::TombStone => Marked::TombStone,
            Marked::Normal((meta, value)) => {
                let v = bytes_from_text(value);
                Marked::Normal((meta, v))
            },
        }
    }
}

impl<M> vstd::std_specs::convert::TryFromSpecImpl<SeqMarked<(Option<M>, Vec<u8>)>> for SeqMarked<(Option<M>, String)> {
    /// The description in the error is the decoder's, so the result is stated
    /// by the contract of `try_from` and not as a function of the input.
    open spec fn obeys_try_from_spec() -> bool {
        false
    }

    open spec fn try_from_spec(value: SeqMarked<(Option<M>, Vec<u8>)>) -> Result<Self, Self::Error> {
        arbitrary()
    }
}

impl<M> TryFrom<SeqMarked<(Option<M>, Vec<u8>)>> for SeqMarked<(Option<M>, String)> {
    type Error = ConvertError;

    /// Decodes the payload of a normal value and keeps its sequence number and
    /// metadata; a tombstone stays a tombstone at its sequence number.
    fn try_from(value: SeqMarked<(Option<M>, Vec<u8>)>) -> (r: Result<Self, Self::Error>)
        ensures
            match value.marked {
                Marked::TombStone => {
                    &&& r is Ok
                    &&& r->Ok_0.seq == value.seq
                    &&& r->Ok_0.marked is TombStone
                },
                Marked::Normal(d) => match spec_decode(d.1@) {
                    Some(text) => {
                        &&& r is Ok
                        &&& r->Ok_0.seq == value.seq
                        &&& r->Ok_0.marked is Normal
                        &&& r->Ok_0.marked->Normal_0.0 == d.0
                        &&& r->Ok_0.marked->Normal_0.1@ == text
                    },
                    None => r is Err && r->Err_0.is_invalid_data(),
                },
            },
    {
        let (seq, marked) = value.into_parts();
        match Marked::<(Option<M>, String)>::try_from(marked) {
            Ok(marked) => Ok(SeqMarked::new(seq, marked)),
            Err(e) => Err(e),
        }
    }
}

impl<M> vstd::std_specs::convert::FromSpecImpl<SeqMarked<(Option<M>, String)>> for SeqMarked<(Option<M>, Vec<u8>)> {
    /// The bytes are stated by their view, in the contract of `from`.
    open spec fn obeys_from_spec() -> bool {
        false
    }

    open spec fn from_spec(value: SeqMarked<(Option<M>, String)>) -> Self {
        arbitrary()
    }
}

impl<M> From<SeqMarked<(Option<M>, String)>> for SeqMarked<(Option<M>, Vec<u8>)> {
    /// Encodes the payload of a normal value and keeps its sequence number and
    /// metadata; a tombstone stays a tombstone at its sequence number.
    fn from(value: SeqMarked<(Option<M>, String)>) -> (r: Self)
        ensures
            r.seq == value.seq,
            match value.marked {
                Marked::TombStone => r.marked is TombStone,
                Marked::Normal(d) => {
                    &&& r.marked is Normal
                    &&& r.marked->Normal_0.0 == d.0
                    &&& r.marked->Normal_0.1@ == spec_encode(d.1@)
                },
            },
    {
        let (seq, marked) = value.into_parts();
        let marked = Marked::<(Option<M>, Vec<u8>)>::from(marked);
        SeqMarked::new(seq, marked)
    }
}

} // verus!
