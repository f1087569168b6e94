//! Asset registry of a tactical battle game: which files are loaded, in which
//! order, and how the loaded textures are laid out once they have arrived.
//!
//! The library decides and assembles; reading files and uploading textures is
//! left to the caller, which performs each [`loader::Request`] and reports the
//! outcome back as an [`loader::Event`].

pub mod ability;
pub mod images;
pub mod loader;
pub mod sprites;
