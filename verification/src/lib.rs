//! Password generation with a coarse strength label and a character-diversity
//! measure, together with the line-driven dialogue that drives them.

pub mod charset;
pub mod generate;
pub mod input;
pub mod randomness;
pub mod session;
pub mod strength;
pub mod text;
