//! The values as text.
//!
//! Each value has a method that returns its text as a `String`. The text of a
//! sequence number is its decimal numeral, and the text of a payload is what
//! its `Display` or `Debug` gives; how the pieces are put together is stated
//! by the spec functions here, and the `frame_` functions do it for pieces
//! that are already text.

use crate::internal_seq::InternalSeq;
use crate::marked::Marked;
use crate::seq_data::SeqData;
use crate::seq_marked::SeqMarked;
use crate::seqv::SeqV;
use std::fmt::Debug;
use std::fmt::Display;
use vstd::prelude::*;
use vstd::string::to_string_from_display_ensures;

verus! {

/// `format!` with `{:?}`: the text that the value's `Debug` gives. Nothing is
/// claimed of that text.
#[verifier::external_body]
fn debug_text<T: Debug>(value: &T) -> (r: String) {
    format!("{:?}", value)
}

/// The character of a decimal digit.
pub open spec fn spec_digit(d: nat) -> char
    recommends
        d < 10,
{
    if d == 0 {
        '0'
    } else if d == 1 {
        '1'
    } else if d == 2 {
        '2'
    } else if d == 3 {
        '3'
    } else if d == 4 {
        '4'
    } else if d == 5 {
        '5'
    } else if d == 6 {
        '6'
    } else if d == 7 {
        '7'
    } else if d == 8 {
        '8'
    } else {
        '9'
    }
}

/// The decimal numeral of a number: no sign, and no leading zero but for 0 itself.
pub open spec fn spec_decimal(n: nat) -> Seq<char>
    decreases n,
{
    if n < 10 {
        seq![spec_digit(n)]
    } else {
        spec_decimal(n / 10).push(spec_digit(n % 10))
    }
}

/// The text of a decimal digit.
fn digit_text(d: u64) -> (r: &'static str)
    requires
        d < 10,
    ensures
        r@ == seq![spec_digit(d as nat)],
{
    proof {
        reveal_strlit("0");
        reveal_strlit("1");
        reveal_strlit("2");
        reveal_strlit("3");
        reveal_strlit("4");
        reveal_strlit("5");
        reveal_strlit("6");
        reveal_strlit("7");
        reveal_strlit("8");
        reveal_strlit("9");
    }
    let r = if d == 0 {
        "0"
    } else if d == 1 {
        "1"
    } else if d == 2 {
        "2"
    } else if d == 3 {
        "3"
    } else if d == 4 {
        "4"
    } else if d == 5 {
        "5"
    } else if d == 6 {
        "6"
    } else if d == 7 {
        "7"
    } else if d == 8 {
        "8"
    } else {
        "9"
    };
    assert(r@ =~= seq![spec_digit(d as nat)]);
    r
}

/// The decimal numeral of a number as text.
pub fn decimal_text(n: u64) -> (r: String)
    ensures
        r@ == spec_decimal(n as nat),
    decreases n,
{
    if n < 10 {
        String::from_str(digit_text(n))
    } else {
        let head = decimal_text(n / 10);
        let r = head.concat(digit_text(n % 10));
        assert(r@ =~= spec_decimal((n / 10) as nat).push(spec_digit((n % 10) as nat)));
        r
    }
}

/// Whether `text` is a text that the value's `Display` may give.
pub open spec fn is_display_of<T: Display>(value: T, text: Seq<char>) -> bool {
    exists|s: String| #[trigger] to_string_from_display_ensures::<T>(&value, s) && s@ == text
}

/// The characters of the payload text, with the presence kept.
pub open spec fn spec_text_of(body: Marked<&str>) -> Marked<Seq<char>> {
    match body {
        Marked::Normal(s) => Marked::Normal(s@),
        Marked::TombStone => Marked::TombStone,
    }
}

/// A normal value is its payload in parentheses; a tombstone is `TOMBSTONE`.
pub open spec fn spec_marked_text(body: Marked<Seq<char>>) -> Seq<char> {
    match body {
        Marked::Normal(s) => "("@ + s + ")"@,
        Marked::TombStone => "TOMBSTONE"@,
    }
}

/// `{seq=<seq>, <marked>}`
pub open spec fn spec_seq_marked_text(seq: Seq<char>, body: Marked<Seq<char>>) -> Seq<char> {
    "{seq="@ + seq + ", "@ + spec_marked_text(body) + "}"@
}

/// `{seq: <seq>, <marked>}`
pub open spec fn spec_seq_marked_debug_text(seq: Seq<char>, body: Marked<Seq<char>>) -> Seq<char> {
    "{seq: "@ + seq + ", "@ + spec_marked_text(body) + "}"@
}

/// `ISeq(<seq>)`
pub open spec fn spec_internal_seq_text(seq: Seq<char>) -> Seq<char> {
    "ISeq("@ + seq + ")"@
}

/// `SeqV { seq: <seq>, meta: <meta>, data: "[binary]" }`: the data is not shown.
pub open spec fn spec_seqv_debug_text(seq: Seq<char>, meta: Seq<char>) -> Seq<char> {
    "SeqV { seq: "@ + seq + ", meta: "@ + meta + ", data: \"[binary]\" }"@
}

/// Puts the text of a marked value together from the text of its payload.
pub fn frame_marked(body: Marked<&str>) -> (r: String)
    ensures
        r@ == spec_marked_text(spec_text_of(body)),
{
    match body {
        Marked::Normal(s) => String::from_str("(").concat(s).concat(")"),
        Marked::TombStone => String::from_str("TOMBSTONE"),
    }
}

/// Puts the text of a sequence-numbered marked value together from the texts
/// of its sequence number and of its payload.
pub fn frame_seq_marked(seq: &str, body: Marked<&str>) -> (r: String)
    ensures
        r@ == spec_seq_marked_text(seq@, spec_text_of(body)),
{
    let marked = frame_marked(body);
    String::from_str("{seq=").concat(seq).concat(", ").concat(marked.as_str()).concat("}")
}

/// As [`frame_seq_marked`], in the form that goes with a payload's `Debug` text.
pub fn frame_seq_marked_debug(seq: &str, body: Marked<&str>) -> (r: String)
    ensures
        r@ == spec_seq_marked_debug_text(seq@, spec_text_of(body)),
{
    let marked = frame_marked(body);
    String::from_str("{seq: ").concat(seq).concat(", ").concat(marked.as_str()).concat("}")
}

/// Puts the text of an internal sequence number together from the text of the number.
pub fn frame_internal_seq(seq: &str) -> (r: String)
    ensures
        r@ == spec_internal_seq_text(seq@),
{
    String::from_str("ISeq(").concat(seq).concat(")")
}

/// Puts the debug text of a [`SeqV`] together from the texts of its sequence
/// number and of its metadata.
pub fn frame_seqv_debug(seq: &str, meta: &str) -> (r: String)
    ensures
        r@ == spec_seqv_debug_text(seq@, meta@),
{
    String::from_str("SeqV { seq: ").concat(seq).concat(", meta: ").concat(meta).concat(
        ", data: \"[binary]\" }",
    )
}

impl<D> Marked<D> {
    /// The value as text, with the payload as its `Display` gives it:
    /// `(<payload>)` or `TOMBSTONE`.
    pub fn to_string(&self) -> (r: String) where D: Display
        ensures
            match *self {
                Marked::Normal(d) => exists|body: Seq<char>| #[trigger]
                    is_display_of(d, body) && r@ == spec_marked_text(Marked::Normal(body)),
                Marked::TombStone => r@ == spec_marked_text(Marked::TombStone),
            },
    {
        match self {
            Marked::Normal(d) => {
                let body = d.to_string();
                assert(is_display_of(*d, body@));
                frame_marked(Marked::Normal(body.as_str()))
            },
            Marked::TombStone => frame_marked(Marked::TombStone),
        }
    }
}

impl<D> SeqMarked<D> {
    /// The value as text, with the payload as its `Display` gives it:
    /// `{seq=<seq>, (<payload>)}` or `{seq=<seq>, TOMBSTONE}`.
    pub fn to_string(&self) -> (r: String) where D: Display
        ensures
            exists|body: Marked<Seq<char>>|
                {
                    &&& body.presence() == self.marked.presence()
                    &&& self.marked is Normal ==> is_display_of(
                        self.marked->Normal_0,
                        body->Normal_0,
                    )
                    &&& r@ == #[trigger] spec_seq_marked_text(
                        spec_decimal(self.seq as nat),
                        body,
                    )
                },
    {
        let seq = decimal_text(self.seq);
        match &self.marked {
            Marked::Normal(d) => {
                let body = d.to_string();
                assert(is_display_of(*d, body@));
                frame_seq_marked(seq.as_str(), Marked::Normal(body.as_str()))
            },
            Marked::TombStone => {
                frame_seq_marked(seq.as_str(), Marked::TombStone)
            },
        }
    }

    /// The value as text, with the payload as its `Debug` gives it:
    /// `{seq: <seq>, (<payload>)}` or `{seq: <seq>, TOMBSTONE}`.
    pub fn display_with_debug(&self) -> (r: String) where D: Debug
        ensures
            exists|body: Marked<Seq<char>>|
                {
                    &&& body.presence() == self.marked.presence()
                    &&& r@ == #[trigger] spec_seq_marked_debug_text(
                        spec_decimal(self.seq as nat),
                        body,
                    )
                },
    {
        let seq = decimal_text(self.seq);
        match &self.marked {
            Marked::Normal(d) => {
                let body = debug_text(d);
                frame_seq_marked_debug(seq.as_str(), Marked::Normal(body.as_str()))
            },
            Marked::TombStone => {
                frame_seq_marked_debug(seq.as_str(), Marked::TombStone)
            },
        }
    }
}

impl<D> SeqData<D> {
    /// The value as text, with the payload as its `Debug` gives it:
    /// `{seq: <seq>, (<payload>)}`.
    pub fn display_with_debug(&self) -> (r: String) where D: Debug
        ensures
            exists|body: Seq<char>|
                r@ == #[trigger] spec_seq_marked_debug_text(
                    spec_decimal(self.seq as nat),
                    Marked::Normal(body),
                ),
    {
        let seq = decimal_text(self.seq);
        let body = debug_text(&self.data);
        frame_seq_marked_debug(seq.as_str(), Marked::Normal(body.as_str()))
    }
}

impl InternalSeq {
    /// The sequence number as text: `ISeq(<seq>)`.
    pub fn to_string(&self) -> (r: String)
        ensures
            r@ == spec_internal_seq_text(spec_decimal(self.seq as nat)),
    {
        let seq = decimal_text(self.seq);
        frame_internal_seq(seq.as_str())
    }
}

impl<M, T> SeqV<M, T> {
    /// The value as text for debugging, with the metadata as its `Debug`
    /// gives it and without the data:
    /// `SeqV { seq: <seq>, meta: <meta>, data: "[binary]" }`.
    pub fn debug_string(&self) -> (r: String) where M: Debug
        ensures
            exists|meta: Seq<char>|
                r@ == #[trigger] spec_seqv_debug_text(spec_decimal(self.seq as nat), meta),
    {
        let seq = decimal_text(self.seq);
        let meta = debug_text(&self.meta);
        frame_seqv_debug(seq.as_str(), meta.as_str())
    }
}

} // verus!
