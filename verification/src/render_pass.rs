//! The formats of the images that a render pass draws into.

use smallvec::SmallVec;
use vstd::prelude::*;

verus! {

/// The format of an image, by its code.
#[derive(Copy, Clone, Debug, PartialEq, Eq, Structural)]
pub struct Format {
    pub code: u32,
}

/// A short list of formats, kept in a `SmallVec` with room for five before
/// it moves to the heap. Verus sees nothing of what is inside: the contracts
/// below speak of it through `attachment_formats`.
#[verifier::external_body]
pub struct AttachmentFormats {
    list: SmallVec<[Format; 5]>,
}

/// The formats that a list of attachments holds, in order.
pub uninterp spec fn attachment_formats(list: AttachmentFormats) -> Seq<Format>;

/// Calls `SmallVec::from_slice`, which copies the elements of the slice into
/// a new list, in the order of the slice.
#[verifier::external_body]
fn formats_from_slice(formats: &[Format]) -> (list: AttachmentFormats)
    ensures
        attachment_formats(list) == formats@,
{
    AttachmentFormats { list: SmallVec::from_slice(formats) }
}

/// Calls `SmallVec::as_slice` and copies the slice of the list's
/// elements, which copies them into a vector, in their order.
#[verifier::external_body]
fn formats_to_vec(list: &AttachmentFormats) -> (formats: Vec<Format>)
    ensures
        formats@ == attachment_formats(*list),
{
    list.list.as_slice().to_vec()
}

/// The formats of the attachments of a render pass.
pub struct RenderPassFormat {
    pub color_attachments: AttachmentFormats,
    pub depth_attachment: Option<Format>,
}

impl RenderPassFormat {
    /// The formats of the color attachments, in order.
    pub fn color_formats(&self) -> (formats: Vec<Format>)
        ensures
            formats@ == attachment_formats(self.color_attachments),
    {
        formats_to_vec(&self.color_attachments)
    }
}

/// The format of the one image that the triangle is drawn into.
#[derive(Debug, Copy, Clone)]
pub struct TriangleRendererRTFormat {
    rt_format: Format,
}

impl TriangleRendererRTFormat {
    /// The format of the image.
    pub closed spec fn rt_format(&self) -> Format {
        self.rt_format
    }

    pub fn new(rt_format: Format) -> (format: TriangleRendererRTFormat)
        ensures
            format.rt_format() == rt_format,
    {
        TriangleRendererRTFormat { rt_format }
    }

    /// A render pass with the image as its only color attachment and
    /// without a depth attachment.
    pub fn to_render_pass_format(&self) -> (format: RenderPassFormat)
        ensures
            attachment_formats(format.color_attachments) == seq![self.rt_format()],
            format.depth_attachment is None,
    {
        let formats: [Format; 1] = [self.rt_format];
        let list = formats_from_slice(formats.as_slice());
        RenderPassFormat { color_attachments: list, depth_attachment: None }
    }
}

} // verus!
