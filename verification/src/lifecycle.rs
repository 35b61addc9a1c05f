//! The one-time hand-over of the buffer: a screen starts empty, is
//! initialised exactly once, and serves its description and its writer from
//! then on.

use vstd::prelude::*;
use crate::framebuffer::FrameBufferWriter;
use crate::info::FrameBufferInfo;

verus! {

/// Why a hand-over was refused.
#[derive(Clone, Copy, Debug, PartialEq, Eq, Structural)]
pub enum InitError {
    /// The screen holds a buffer already.
    AlreadyInitialized,
    /// The description is not valid, or the buffer is too short for it.
    InvalidBuffer,
}

/// The holder of the writer: empty until the buffer is handed over, never
/// empty again afterwards.
pub struct Screen {
    slot: Option<FrameBufferWriter>,
}

impl Screen {
    /// Whether the buffer has been handed over.
    pub closed spec fn is_init(&self) -> bool {
        self.slot is Some
    }

    /// The writer that an initialised screen holds.
    pub closed spec fn writer_spec(&self) -> FrameBufferWriter
        recommends
            self.is_init(),
    {
        self.slot.unwrap()
    }

    /// A writer that is held is well formed.
    pub open spec fn wf(&self) -> bool {
        self.is_init() ==> self.writer_spec().wf()
    }

    /// Whether a description and a buffer can be handed over together.
    pub open spec fn fits(buffer: Seq<u8>, info: FrameBufferInfo) -> bool {
        info.wf() && info.byte_len() <= buffer.len()
    }

    /// What a hand-over answers: a screen that is initialised refuses
    /// whatever is offered, an empty one refuses what does not fit.
    pub open spec fn init_outcome(initialized: bool, buffer: Seq<u8>, info: FrameBufferInfo)
        -> Result<(), InitError> {
        if initialized {
            Err(InitError::AlreadyInitialized)
        } else if !Self::fits(buffer, info) {
            Err(InitError::InvalidBuffer)
        } else {
            Ok(())
        }
    }

    /// An empty screen.
    pub fn uninit() -> (screen: Self)
        ensures
            !screen.is_init(),
            screen.wf(),
    {
        Screen { slot: None }
    }

    /// Whether the buffer has been handed over.
    pub fn is_initialized(&self) -> (init: bool)
        ensures
            init == self.is_init(),
    {
        self.slot.is_some()
    }

    /// Hands the buffer over. A second hand-over is never accepted and never
    /// passed over in silence: it is refused with `AlreadyInitialized`
    /// whatever is offered. One that does not fit is refused with
    /// `InvalidBuffer`. A refusal leaves the screen as it was.
    pub fn init(&mut self, buffer: Vec<u8>, info: FrameBufferInfo) -> (done: Result<
        (),
        InitError,
    >)
        requires
            old(self).wf(),
        ensures
            final(self).wf(),
            done == Self::init_outcome(old(self).is_init(), buffer@, info),
            done is Err ==> *final(self) == *old(self),
            done is Ok ==> final(self).is_init() && final(self).writer_spec().info_spec() == info
                && final(self).writer_spec().bytes() == buffer@,
    {
        if self.slot.is_some() {
            return Err(InitError::AlreadyInitialized);
        }
        match FrameBufferWriter::new(buffer, info) {
            Some(writer) => {
                self.slot = Some(writer);
                Ok(())
            },
            None => Err(InitError::InvalidBuffer),
        }
    }

    /// The description of the buffer that was handed over.
    pub fn info(&self) -> (info: &FrameBufferInfo)
        requires
            self.is_init(),
        ensures
            *info == self.writer_spec().info_spec(),
    {
        match &self.slot {
            Some(writer) => writer.info(),
            None => vstd::pervasive::unreached(),
        }
    }

    /// Exclusive access to the writer; what is written through it is what the
    /// screen holds afterwards.
    pub fn writer(&mut self) -> (writer: &mut FrameBufferWriter)
        requires
            old(self).is_init(),
        ensures
            *writer == old(self).writer_spec(),
            final(self).is_init(),
            final(self).writer_spec() == *final(writer),
    {
        match &mut self.slot {
            Some(writer) => writer,
            None => vstd::pervasive::unreached(),
        }
    }
}

} // verus!
