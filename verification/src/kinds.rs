//! Kinds of files and streams.
use vstd::prelude::*;

verus! {

/// A type of file.
#[derive(Clone, Copy, Debug, PartialEq, Eq, Structural)]
#[non_exhaustive]
pub enum FileType {
    Font,
    Media,
}

/// A type of input file.
#[derive(Clone, Copy, Debug, PartialEq, Eq, Structural)]
#[non_exhaustive]
pub enum InputFileType {
    Font,
    Media,
}

/// The media type of a stream, as the demuxer reports it.
#[derive(Clone, Copy, Debug, PartialEq, Eq, Structural)]
pub enum MediaType {
    Unknown,
    Video,
    Audio,
    Data,
    Subtitle,
    Attachment,
}

/// A stream as the demuxer reports it: its media type and the number of
/// its codec.
#[derive(Clone, Copy, Debug)]
pub struct FfmpegStream {
    pub ty: MediaType,
    pub id: u32,
}

} // verus!
