//! A single-document text editor core: the document state, the intents that change it,
//! and the file work that those intents hand out.
pub mod buffer;
pub mod editor;
pub mod laws;
