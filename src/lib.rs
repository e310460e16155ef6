//! An in-memory text model for an editor surface: the document text, a
//! dirty flag, and a journal of invertible edit operations.

pub mod buffer;
pub mod diff;
pub mod editor;
pub mod title;
