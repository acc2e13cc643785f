//! The instructions that open the conversations of a classification.

pub mod prompt;
