//! Reading and writing drawing entities as streams of tagged code pairs.
//!
//! `entity` holds the read state machine and the writer; the per-kind
//! decoders and writers live in `simple`, `lw_polyline`, `m_text`,
//! `attribute` and `dimension`. Every decoder is specified as a fold of a
//! step function over the pairs of one entity, and every writer by the
//! sequence of pairs it appends.

pub mod code_pair;
pub mod stream;
pub mod enums;
pub mod handle;
pub mod float_bits;
pub mod points;
pub mod common;
pub mod simple;
pub mod lw_polyline;
pub mod m_text;
pub mod attribute;
pub mod dimension;
pub mod entity;
pub mod round_trip;
