//! The extension runtimes the addon runs under (Nexus or arcdps) and the
//! choice between them.
pub mod arcdps;
pub mod language;
pub mod nexus;
pub mod runtime;

use vstd::prelude::*;

verus! {

/// The folder, below the game's addon folder, that holds the addon's data.
pub const ADDON_DIR_NAME: &'static str = "Taimi";

/// The addon's signature; Nexus is given its negation.
pub const SIG: i32 = 0x7331BABDi32;

/// An error from an extension runtime.
pub type RuntimeError = &'static str;

/// A result from an extension runtime.
pub type RuntimeResult<T> = Result<T, RuntimeError>;

/// What a runtime is asked to do with a marker key binding: press `bind` for
/// `duration_ms` milliseconds.
#[derive(Clone, Copy, Debug, PartialEq, Eq, Structural)]
pub struct GameBindPress {
    pub bind: crate::marker::GameBind,
    pub duration_ms: i32,
}

/// A texture a runtime is asked to load under `key`, from a file or from bytes.
#[derive(Debug)]
pub enum TextureRequest {
    Path { key: String, path: String },
    Bytes { key: String, data: Vec<u8> },
}

} // verus!
