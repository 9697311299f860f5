use vstd::prelude::*;

use crate::commons::Size;

verus! {

/// A requested width or height that is present but not strictly positive.
///
/// The error keeps the whole offending size, so a caller can report which
/// field was wrong.
#[derive(Debug, Clone, Copy, PartialEq, Eq, Structural)]
pub struct InvalidSizeError {
    size: Size,
}

impl InvalidSizeError {
    pub fn new(size: &Size) -> (r: InvalidSizeError)
        ensures
            r.size() == *size,
    {
        InvalidSizeError { size: *size }
    }

    pub closed spec fn size(&self) -> Size {
        self.size
    }

    /// The rejected size.
    pub fn rejected_size(&self) -> (r: Size)
        ensures
            r == self.size(),
    {
        self.size
    }
}

/// A failure of the image library while compositing, with its message.
#[derive(Debug, Clone, PartialEq, Eq)]
pub struct MagickError {
    msg: String,
}

impl MagickError {
    pub fn new(msg: &str) -> (r: MagickError)
        ensures
            r.message_view() == msg@,
    {
        MagickError { msg: msg.to_owned() }
    }

    pub closed spec fn message_view(&self) -> Seq<char> {
        self.msg@
    }

    pub fn message(&self) -> (r: String)
        ensures
            r@ == self.message_view(),
    {
        self.msg.clone()
    }
}

/// The ways a transformation request can fail.
#[derive(Debug, Clone, Copy, PartialEq, Eq, Structural)]
pub enum PipelineError {
    /// A requested width or height is present and not strictly positive:
    /// `size` is the rejected size, of watermark number `layer`, or of the
    /// base image when `layer` is `None`.
    InvalidSize { layer: Option<usize>, size: Size },
    /// A key is missing from the store: fetch number `index`, where `0` is
    /// the base image and `i + 1` is watermark number `i`.
    NotFound { index: usize },
    /// Fetched bytes are not a decodable image.
    DecodeError,
    /// Resizing, rotating, compositing or encoding failed.
    ProcessingError,
    /// The store could not be reached.
    TransportError,
}

impl PipelineError {
    /// Whether the error is the caller's to correct (as opposed to an
    /// internal failure that is reported generically).
    pub fn is_request_error(&self) -> (r: bool)
        ensures
            r == (*self is InvalidSize || *self is NotFound),
    {
        match self {
            PipelineError::InvalidSize { .. } => true,
            PipelineError::NotFound { .. } => true,
            _ => false,
        }
    }
}

} // verus!
