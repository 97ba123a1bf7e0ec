//! A small collection of verified building blocks: a sequence container with
//! inline storage and the laws of its state machine, an arithmetic expression
//! evaluator, a toolkit of text widgets, the rules of a multiple-choice quiz,
//! and the cleaning of a text into its words.

pub mod borrowed_gui;
pub mod expression;
pub mod greetings;
pub mod gui;
pub mod input;
pub mod local_storage_vec;
pub mod pair;
pub mod quiz;
pub mod storage_laws;
pub mod storage_model;
pub mod text;
pub mod username;
pub mod word_laws;
pub mod words;
