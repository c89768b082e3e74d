//! Decoding of METAR and SPECI aviation weather reports.
//!
//! [`parse::metar`] reads one whole report into a [`tokens::MetarReport`],
//! or fails with a [`failure::ParseError`] holding the furthest offset
//! reached and what was expected there. The grammar is an ordered-choice,
//! backtracking one: [`fields`] and [`report`] state each rule as a spec
//! function over the report bytes, and the executable parser is proved to
//! agree with it. Physical quantities ([`units`]) are exact fractions of one
//! base unit per kind; closed vocabularies ([`vocabulary`], [`tokens`]) read
//! and write their short codes. [`laws`] proves properties that relate the
//! pieces: numeric fields read back exactly, placeholders read as absent,
//! and weather groups read back as they are written.
use vstd::prelude::*;

pub mod failure;
pub mod fields;
pub mod laws;
pub mod parse;
pub mod report;
pub mod text;
pub mod tokens;
pub mod units;
pub mod vocabulary;

verus! {

} // verus!
