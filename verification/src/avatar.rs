//! The avatar instance: the image bank, the marker of the resident frame, and
//! the entry points that the host drives: create, tick, render, destroy.
//!
//! The instance never touches the texture or the audio stream itself. A tick
//! answers with the frame to upload, if any; a render answers with the draw
//! to issue; destroy releases the frames only once the audio stream is
//! reported stopped.

use vstd::prelude::*;
use crate::bank::{bank_source, frames_agree, ImageBank, IDLE_SHIFT};
use crate::error::SetupError;
use crate::flag::SpeakingFlag;
use crate::pixels::{brightened, packed_len, PixelBuffer};
use crate::presenter::{buffer_after_tick, step, upload_due, BufferKind, CurrentBuffer};

verus! {

/// Width of the texture and of both frames, in pixels.
pub const FRAME_WIDTH: u32 = 512;

/// Height of the texture and of both frames, in pixels.
pub const FRAME_HEIGHT: u32 = 512;

/// Where and how the texture is drawn. A width or height of zero stands for
/// the texture's own.
#[derive(Clone, Copy, Debug, PartialEq, Eq, Structural)]
pub struct Draw {
    pub x: i32,
    pub y: i32,
    pub width: u32,
    pub height: u32,
    pub flip: bool,
}

/// One avatar.
pub struct Avatar {
    bank: ImageBank,
    current: CurrentBuffer,
}

impl Avatar {
    /// The frames have the declared size of the texture.
    #[verifier::type_invariant]
    pub closed spec fn wf(&self) -> bool {
        &&& self.bank.wf()
        &&& self.bank.width() == FRAME_WIDTH
        &&& self.bank.height() == FRAME_HEIGHT
    }

    /// The two frames.
    pub closed spec fn frames(&self) -> ImageBank {
        self.bank
    }

    /// The marker of the resident frame.
    pub closed spec fn spec_current(&self) -> CurrentBuffer {
        self.current
    }

    /// Creates an avatar from its artwork. Nothing is resident yet. Fails,
    /// and hands out no avatar, exactly when the artwork does not lead to a
    /// bank of the frame size.
    pub fn create(artwork: &[u8]) -> (r: Result<Avatar, SetupError>)
        ensures
            match r {
                Ok(avatar) => avatar.wf() && avatar.current() == CurrentBuffer::Unset
                    && bank_source(artwork@, FRAME_WIDTH, FRAME_HEIGHT) == Ok::<Seq<u8>, SetupError>(
                    avatar.frames().pixels(BufferKind::Speaking),
                ) && avatar.frames().pixels(BufferKind::Idle) == brightened(
                    avatar.frames().pixels(BufferKind::Speaking),
                    IDLE_SHIFT as int,
                ),
                Err(e) => bank_source(artwork@, FRAME_WIDTH, FRAME_HEIGHT) == Err::<
                    Seq<u8>,
                    SetupError,
                >(e),
            },
    {
        match ImageBank::load(artwork, FRAME_WIDTH, FRAME_HEIGHT) {
            Ok(bank) => Ok(Avatar { bank, current: CurrentBuffer::Unset }),
            Err(e) => Err(e),
        }
    }

    /// Creates an avatar around a bank that was built beforehand. `None`
    /// exactly when the bank does not have the frame size.
    pub fn with_bank(bank: ImageBank) -> (r: Option<Avatar>)
        ensures
            r is Some <==> bank.width() == FRAME_WIDTH && bank.height() == FRAME_HEIGHT,
            r matches Some(avatar) ==> avatar.wf() && avatar.frames() == bank && avatar.current()
                == CurrentBuffer::Unset,
    {
        proof {
            use_type_invariant(&bank);
        }
        if bank.width() == FRAME_WIDTH && bank.height() == FRAME_HEIGHT {
            Some(Avatar { bank, current: CurrentBuffer::Unset })
        } else {
            None
        }
    }

    /// One tick under the given value of the speaking flag. Answers with the
    /// frame that the caller has to upload now, or `None` where the wanted
    /// frame is resident already. The frames themselves never change.
    pub fn tick(&mut self, speaking: bool) -> (upload: Option<BufferKind>)
        ensures
            upload == upload_due(old(self).current(), speaking),
            final(self).current() == buffer_after_tick(old(self).current(), speaking),
            final(self).frames() == old(self).frames(),
            final(self).wf(),
    {
        proof {
            use_type_invariant(&*self);
        }
        let (next, upload) = step(self.current, speaking);
        self.current = next;
        upload
    }

    /// One tick that reads the speaking flag itself. Whatever the flag
    /// held, the tick went as `tick` goes for one of the two values: a frame
    /// is resident afterwards, and an upload is due exactly when the
    /// resident frame changed.
    pub fn tick_observed(&mut self, flag: &SpeakingFlag) -> (upload: Option<BufferKind>)
        ensures
            exists|speaking: bool|
                upload == upload_due(old(self).current(), speaking) && final(self).current()
                    == #[trigger] buffer_after_tick(old(self).current(), speaking),
            final(self).current() != CurrentBuffer::Unset,
            upload is Some <==> final(self).current() != old(self).current(),
            final(self).frames() == old(self).frames(),
            final(self).wf(),
    {
        let speaking = flag.observe();
        let upload = self.tick(speaking);
        assert(self.current() == buffer_after_tick(old(self).current(), speaking));
        upload
    }

    /// The draw to issue on a render call: the texture at the origin, at its
    /// own size, not flipped. Rendering reads no flag and changes nothing.
    pub fn render(&self) -> (draw: Draw)
        ensures
            draw == (Draw { x: 0, y: 0, width: 0, height: 0, flip: false }),
    {
        Draw { x: 0, y: 0, width: 0, height: 0, flip: false }
    }

    /// Gives up the avatar. The frames are released only when the caller
    /// reports that the audio stream has stopped, so that no callback can
    /// fire after them; otherwise the avatar comes back untouched.
    pub fn destroy(self, stream_stopped: bool) -> (r: Result<(), Avatar>)
        ensures
            r is Ok <==> stream_stopped,
            r matches Err(kept) ==> kept == self,
    {
        if stream_stopped {
            Ok(())
        } else {
            Err(self)
        }
    }

    /// The declared width of the texture, which is that of both frames.
    pub fn width(&self) -> (w: u32)
        ensures
            w == FRAME_WIDTH,
            w == self.frames().width(),
    {
        proof {
            use_type_invariant(self);
        }
        FRAME_WIDTH
    }

    /// The declared height of the texture, which is that of both frames.
    pub fn height(&self) -> (h: u32)
        ensures
            h == FRAME_HEIGHT,
            h == self.frames().height(),
    {
        proof {
            use_type_invariant(self);
        }
        FRAME_HEIGHT
    }

    /// Bytes from the start of one texture row to the start of the next.
    pub fn row_stride(&self) -> (s: u32)
        ensures
            s == 4 * FRAME_WIDTH,
    {
        4 * FRAME_WIDTH
    }

    /// The marker of the resident frame.
    #[verifier::when_used_as_spec(spec_current)]
    pub fn current(&self) -> (c: CurrentBuffer)
        ensures
            c == self.spec_current(),
    {
        self.current
    }

    /// The two frames.
    pub fn bank(&self) -> (b: &ImageBank)
        ensures
            *b == self.frames(),
            b.wf(),
            b.width() == FRAME_WIDTH,
            b.height() == FRAME_HEIGHT,
    {
        proof {
            use_type_invariant(self);
        }
        &self.bank
    }

    /// The frame of the given kind, which has the declared size of the
    /// texture.
    pub fn frame(&self, kind: BufferKind) -> (f: &PixelBuffer)
        ensures
            f@ == self.frames().pixels(kind),
            f.wf(),
            f.width() == FRAME_WIDTH,
            f.height() == FRAME_HEIGHT,
    {
        proof {
            use_type_invariant(self);
        }
        self.bank.frame(kind)
    }
}

/// Whatever artwork an avatar was made from, its two frames have the same
/// pixel dimensions, and these are the declared width and height of the
/// texture.
pub proof fn frames_fill_the_texture(avatar: Avatar)
    requires
        avatar.wf(),
    ensures
        avatar.frames().frame_of(BufferKind::Idle).width() == FRAME_WIDTH,
        avatar.frames().frame_of(BufferKind::Idle).height() == FRAME_HEIGHT,
        avatar.frames().frame_of(BufferKind::Speaking).width() == FRAME_WIDTH,
        avatar.frames().frame_of(BufferKind::Speaking).height() == FRAME_HEIGHT,
        avatar.frames().pixels(BufferKind::Idle).len() == packed_len(FRAME_WIDTH, FRAME_HEIGHT),
        avatar.frames().pixels(BufferKind::Speaking).len() == packed_len(
            FRAME_WIDTH,
            FRAME_HEIGHT,
        ),
{
    frames_agree(avatar.bank);
}

} // verus!
