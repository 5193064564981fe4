//! Discovered stories: the descriptor used to load one playthrough.
//!
//! Scanning the library directory and decoding each story's manifest is
//! the caller's business; the core treats a handle purely as an opaque
//! lookup key supplied once at instance construction.

use vstd::prelude::*;

verus! {

/// A discovered story: its root directory plus its manifest metadata.
pub struct StoryHandle {
    /// The story's root directory.
    pub root: String,
    /// The story's decoded manifest.
    pub metadata: Metadata,
}

/// The metadata a story's manifest declares.
pub struct Metadata {
    /// The story's title.
    pub name: String,
    /// The story's author, if declared.
    pub author: Option<String>,
    /// The story's version string.
    pub version: String,
    /// Free-form notes, if declared.
    pub notes: Option<String>,
    /// The name of the story's entry script.
    pub main: String,
}

} // verus!
