//! Scripting-visible references: lightweight, copyable handles the scripting
//! environment holds in place of a real buffer.
//!
//! A reference is a capability token, not a copy: it carries only a name and
//! cached shape metadata. Resolution back to the real handle happens by name
//! lookup at the moment it is used, so a reference to a name that was never
//! created fails at use time instead of silently succeeding.

use vstd::prelude::*;

verus! {

/// Reference to a scalar buffer: its registry name and its element count as
/// cached at creation time.
#[derive(Debug, Clone, PartialEq, Eq)]
pub struct BufferRhaiRef {
    pub name: String,
    pub size: usize,
}

impl BufferRhaiRef {
    /// Element count of the referenced buffer, as cached at creation.
    pub fn len(&self) -> (r: usize)
        ensures
            r == self.size,
    {
        self.size
    }
}

/// Reference to an image buffer: its registry name and its dimensions as
/// cached at creation time.
#[derive(Debug, Clone, PartialEq, Eq)]
pub struct ImageRhaiRef {
    pub name: String,
    pub width: usize,
    pub height: usize,
}

impl ImageRhaiRef {
    /// Width of the referenced image, as cached at creation.
    pub fn width(&self) -> (r: usize)
        ensures
            r == self.width,
    {
        self.width
    }

    /// Height of the referenced image, as cached at creation.
    pub fn height(&self) -> (r: usize)
        ensures
            r == self.height,
    {
        self.height
    }
}

} // verus!
