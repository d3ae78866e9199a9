//! Rewriting a transcript with a language model: the instruction given to
//! the model, and the word list for Taiwanese usage.

pub mod engines;
pub mod prompt;
pub mod tw_dict;
