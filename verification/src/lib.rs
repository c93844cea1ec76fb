//! Reading dictionary search pages: the senses of a word that was found, or
//! the spellings suggested for one that was not.

pub mod document;
pub mod laws;
pub mod link;
pub mod markup;
pub mod page;
pub mod sense;
pub mod text;

pub use document::ParseLinkResult;
