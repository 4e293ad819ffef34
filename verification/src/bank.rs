//! The image state bank: the two frames of an avatar, built once from the
//! artwork and never changed afterwards.
//!
//! The speaking frame is the artwork stretched to the frame size. The idle
//! frame is the speaking frame with its brightness reduced. Both have the
//! same size.

use vstd::prelude::*;
use crate::error::SetupError;
use crate::pixels::{brightened, decoded_artwork, packed_len, stretched, PixelBuffer};
use crate::presenter::BufferKind;

verus! {

/// What is added to every colour channel of the speaking frame to get the
/// idle frame, on the scale `0..=255` of a channel.
pub const IDLE_SHIFT: i16 = -50;

/// The speaking pixels of the bank that the given artwork bytes lead to at
/// the given frame size, or the reason why they lead to none.
pub open spec fn bank_source(bytes: Seq<u8>, width: u32, height: u32) -> Result<
    Seq<u8>,
    SetupError,
> {
    match decoded_artwork(bytes) {
        None => Err(SetupError::ArtworkUndecodable),
        Some(artwork) => stretched(artwork.0, artwork.1, artwork.2, width, height),
    }
}

/// The two frames of an avatar.
pub struct ImageBank {
    idle: PixelBuffer,
    speaking: PixelBuffer,
}

impl ImageBank {
    /// Both frames are whole images of one size, and the idle frame is the
    /// darkened speaking frame.
    #[verifier::type_invariant]
    pub closed spec fn wf(&self) -> bool {
        &&& self.idle.wf()
        &&& self.speaking.wf()
        &&& self.idle.width() == self.speaking.width()
        &&& self.idle.height() == self.speaking.height()
        &&& self.idle@ == brightened(self.speaking@, IDLE_SHIFT as int)
    }

    /// Width of both frames in pixels.
    pub closed spec fn spec_width(&self) -> u32 {
        self.speaking.width()
    }

    /// Height of both frames in pixels.
    pub closed spec fn spec_height(&self) -> u32 {
        self.speaking.height()
    }

    /// The frame of the given kind.
    pub closed spec fn frame_of(&self, kind: BufferKind) -> PixelBuffer {
        match kind {
            BufferKind::Idle => self.idle,
            BufferKind::Speaking => self.speaking,
        }
    }

    /// The packed pixel rows of the frame of the given kind.
    pub open spec fn pixels(&self, kind: BufferKind) -> Seq<u8> {
        self.frame_of(kind)@
    }

    /// Builds the bank around a speaking frame: the idle frame is derived
    /// from it by the fixed brightness reduction.
    pub fn derive(speaking: PixelBuffer) -> (bank: ImageBank)
        ensures
            bank.wf(),
            bank.width() == speaking.width(),
            bank.height() == speaking.height(),
            bank.pixels(BufferKind::Speaking) == speaking@,
            bank.pixels(BufferKind::Idle) == brightened(speaking@, IDLE_SHIFT as int),
    {
        proof {
            use_type_invariant(&speaking);
        }
        let idle = speaking.shifted(IDLE_SHIFT);
        ImageBank { idle, speaking }
    }

    /// Builds the bank from decoded artwork of any size and aspect ratio:
    /// the artwork is stretched to exactly `width` x `height`.
    pub fn from_artwork(artwork: &PixelBuffer, width: u32, height: u32) -> (r: Result<
        ImageBank,
        SetupError,
    >)
        ensures
            match r {
                Ok(bank) => bank.wf() && bank.width() == width && bank.height() == height
                    && stretched(artwork.width(), artwork.height(), artwork@, width, height) == Ok::<
                    Seq<u8>,
                    SetupError,
                >(bank.pixels(BufferKind::Speaking)) && bank.pixels(BufferKind::Idle)
                    == brightened(bank.pixels(BufferKind::Speaking), IDLE_SHIFT as int),
                Err(e) => stretched(artwork.width(), artwork.height(), artwork@, width, height)
                    == Err::<Seq<u8>, SetupError>(e),
            },
    {
        match artwork.resized(width, height) {
            Ok(speaking) => Ok(ImageBank::derive(speaking)),
            Err(e) => Err(e),
        }
    }

    /// Builds the bank from artwork bytes: decodes them, stretches the image
    /// to exactly `width` x `height` and derives the idle frame.
    pub fn load(bytes: &[u8], width: u32, height: u32) -> (r: Result<ImageBank, SetupError>)
        ensures
            match r {
                Ok(bank) => bank.wf() && bank.width() == width && bank.height() == height
                    && bank_source(bytes@, width, height) == Ok::<Seq<u8>, SetupError>(
                    bank.pixels(BufferKind::Speaking),
                ) && bank.pixels(BufferKind::Idle) == brightened(
                    bank.pixels(BufferKind::Speaking),
                    IDLE_SHIFT as int,
                ),
                Err(e) => bank_source(bytes@, width, height) == Err::<Seq<u8>, SetupError>(e),
            },
    {
        match PixelBuffer::decode(bytes) {
            Ok(artwork) => ImageBank::from_artwork(&artwork, width, height),
            Err(e) => Err(e),
        }
    }

    /// Width of both frames in pixels.
    #[verifier::when_used_as_spec(spec_width)]
    pub fn width(&self) -> (w: u32)
        ensures
            w == self.spec_width(),
    {
        self.speaking.width()
    }

    /// Height of both frames in pixels.
    #[verifier::when_used_as_spec(spec_height)]
    pub fn height(&self) -> (h: u32)
        ensures
            h == self.spec_height(),
    {
        self.speaking.height()
    }

    /// The frame of the given kind. Both kinds have the size of the bank.
    pub fn frame(&self, kind: BufferKind) -> (f: &PixelBuffer)
        ensures
            *f == self.frame_of(kind),
            f.wf(),
            f.width() == self.width(),
            f.height() == self.height(),
            f@ == self.pixels(kind),
    {
        proof {
            use_type_invariant(self);
        }
        match kind {
            BufferKind::Idle => &self.idle,
            BufferKind::Speaking => &self.speaking,
        }
    }
}

/// The two frames of a bank have the same pixel dimensions, those of the
/// bank, and so the same number of bytes; and the idle frame is the speaking
/// frame after the brightness reduction.
pub proof fn frames_agree(bank: ImageBank)
    requires
        bank.wf(),
    ensures
        bank.frame_of(BufferKind::Idle).width() == bank.width(),
        bank.frame_of(BufferKind::Speaking).width() == bank.width(),
        bank.frame_of(BufferKind::Idle).height() == bank.height(),
        bank.frame_of(BufferKind::Speaking).height() == bank.height(),
        bank.pixels(BufferKind::Idle).len() == packed_len(bank.width(), bank.height()),
        bank.pixels(BufferKind::Speaking).len() == packed_len(bank.width(), bank.height()),
        bank.pixels(BufferKind::Idle) == brightened(
            bank.pixels(BufferKind::Speaking),
            IDLE_SHIFT as int,
        ),
{
    bank.idle.lemma_len();
    bank.speaking.lemma_len();
}

} // verus!
