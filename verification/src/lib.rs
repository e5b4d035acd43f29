//! Nepali orthography checking after the Nepal Academy's rules, with its
//! behaviour stated in contracts and proved.
//!
//! Word-level rules (`structural`, `hrasva_dirgha`, `chandrabindu`,
//! `halanta`, `sibilant`, `ba_va`, `ustai`, the `correction_table`) are
//! gathered by the `registry` and run by the `engine`; the `checker` runs
//! them over a text together with the text-level passes (`tiryak`,
//! `padayog`, `generalized`, `particles`, `context`, `style_variants`),
//! settles overlaps (`arbitration`) and orders the findings.
use vstd::prelude::*;

pub mod affix;
pub mod analysis;
pub mod arbitration;
pub mod ba_va;
pub mod chandrabindu;
pub mod checker;
pub mod common;
pub mod context;
pub mod correction_table;
pub mod diagnostic;
pub mod engine;
pub mod generalized;
pub mod halanta;
pub mod hrasva_dirgha;
pub mod lexicon;
pub mod padayog;
pub mod presentation;
pub mod padayog_rules;
pub mod particles;
pub mod registry;
pub mod rule;
pub mod sibilant;
pub mod style_variants;
pub mod structural;
pub mod text;
pub mod tiryak;
pub mod tokenizer;
pub mod ustai;
pub mod varna;
pub mod word_level;

verus! {

} // verus!
