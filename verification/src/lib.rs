//! Sequence-numbered values with tombstone support for LSM trees and versioned data.

pub mod convert;
pub mod display;
pub mod expirable;
pub mod internal_seq;
pub mod marked;
pub mod order;
pub mod seq_data;
pub mod seq_marked;
pub mod seq_value;
pub mod seqv;
pub mod text;

pub use expirable::Expirable;
pub use internal_seq::InternalSeq;
pub use marked::Marked;
pub use seq_data::SeqData;
pub use seq_marked::SeqMarked;
pub use seq_value::SeqValue;
pub use seqv::SeqV;
