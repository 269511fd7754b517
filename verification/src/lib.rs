//! A lexical-analysis core for a small configurable language: a character
//! scanner (`tokenizer`) that turns source text into a flat token sequence,
//! and a bracket-aware grouping pass (`composer`) that folds that sequence
//! into a tree of statements, lone tokens, and bracketed sub-regions.

pub mod composer;
pub mod fragments;
pub mod langdef;
pub mod tokenizer;
