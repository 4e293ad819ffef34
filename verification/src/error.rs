//! Why an avatar could not be set up.

use vstd::prelude::*;

verus! {

/// A failure that aborts the creation of an avatar. Nothing half-built is
/// handed out with it.
#[derive(Clone, Copy, Debug, PartialEq, Eq, Structural)]
pub enum SetupError {
    /// The artwork bytes are not an image that can be decoded.
    ArtworkUndecodable,
    /// The artwork decodes to an image without any pixel.
    ArtworkEmpty,
    /// Stretching the artwork to the frame size needs a buffer larger than
    /// the address space.
    ArtworkTooLarge,
}

} // verus!
