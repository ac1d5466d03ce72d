//! The image that a frame is drawn into, and the order of its uses.

use crate::recording::{Recording, Step};
use vstd::prelude::*;

verus! {

/// The use that an image is ready for.
#[derive(Copy, Clone, Debug, PartialEq, Eq, Structural)]
pub enum ImageAccess {
    /// Fresh from the presentation mechanism; its contents do not matter.
    Undefined,
    /// Being drawn into.
    ColorAttachment,
    /// Ready to be shown.
    Present,
}

/// An image on its way through one frame. It is moved, never copied, and its
/// access only ever advances: from `Undefined` to `ColorAttachment` to
/// `Present`, and from there back to the presentation mechanism.
#[derive(Debug)]
pub struct RenderTarget {
    image: u32,
    access: ImageAccess,
}

impl ImageAccess {
    /// The access that follows this one, if any.
    pub open spec fn next(self) -> Option<ImageAccess> {
        match self {
            ImageAccess::Undefined => Some(ImageAccess::ColorAttachment),
            ImageAccess::ColorAttachment => Some(ImageAccess::Present),
            ImageAccess::Present => None,
        }
    }
}

impl RenderTarget {
    /// The number of the image among those of the presentation mechanism.
    pub closed spec fn image(&self) -> u32 {
        self.image
    }

    /// The use that the image is ready for.
    pub closed spec fn access(&self) -> ImageAccess {
        self.access
    }

    /// An image as the presentation mechanism hands it out.
    pub fn acquired(image: u32) -> (target: RenderTarget)
        ensures
            target.image() == image,
            target.access() == ImageAccess::Undefined,
    {
        RenderTarget { image, access: ImageAccess::Undefined }
    }

    pub fn image_index(&self) -> (image: u32)
        ensures
            image == self.image(),
    {
        self.image
    }

    pub fn state(&self) -> (access: ImageAccess)
        ensures
            access == self.access(),
    {
        self.access
    }

    /// Takes a fresh image into use as the target of drawing, whatever it
    /// held, and records the step.
    pub fn access_dont_care(self, recording: &mut Recording) -> (target: RenderTarget)
        requires
            !old(recording).rendering(),
            self.access() == ImageAccess::Undefined,
        ensures
            target.image() == self.image(),
            target.access() == ImageAccess::ColorAttachment,
            self.access().next() == Some(target.access()),
            !final(recording).rendering(),
            final(recording)@ == old(recording)@.push(
                Step::Transition {
                    image: self.image(),
                    from: ImageAccess::Undefined,
                    to: ImageAccess::ColorAttachment,
                },
            ),
    {
        recording.transition(self.image, ImageAccess::Undefined, ImageAccess::ColorAttachment);
        RenderTarget { image: self.image, access: ImageAccess::ColorAttachment }
    }

    /// Makes an image that was the target of drawing ready to be shown, and
    /// records the step. No render pass may be under way.
    pub fn transition_present(self, recording: &mut Recording) -> (target: RenderTarget)
        requires
            !old(recording).rendering(),
            self.access() == ImageAccess::ColorAttachment,
        ensures
            target.image() == self.image(),
            target.access() == ImageAccess::Present,
            self.access().next() == Some(target.access()),
            !final(recording).rendering(),
            final(recording)@ == old(recording)@.push(
                Step::Transition {
                    image: self.image(),
                    from: ImageAccess::ColorAttachment,
                    to: ImageAccess::Present,
                },
            ),
    {
        recording.transition(self.image, ImageAccess::ColorAttachment, ImageAccess::Present);
        RenderTarget { image: self.image, access: ImageAccess::Present }
    }

    /// Gives the image back to the presentation mechanism. The target is
    /// used up: nothing can draw into the image until it is acquired again.
    pub fn present(self) -> (image: u32)
        requires
            self.access() == ImageAccess::Present,
        ensures
            image == self.image(),
    {
        self.image
    }
}

} // verus!
