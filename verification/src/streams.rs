//! The streams of a media file, as `ffprobe` describes them.
use vstd::prelude::*;

use crate::ffprobe::Language;

verus! {

#[derive(Debug)]
pub struct VideoStream {
    pub codec_name: String,
    pub width: u32,
    pub height: u32,
    /// Bits per second, when the file says.
    pub bit_rate: Option<size::Size>,
}

#[derive(Debug)]
pub struct AudioStream {
    pub codec_name: String,
    /// Bits per second, when the file says.
    pub bit_rate: Option<size::Size>,
    /// Samples per second, when the file says.
    pub sample_rate: Option<size::Size>,
    pub language: Option<Language>,
}

#[derive(Debug)]
pub struct SubtitleStream {
    pub codec_name: String,
    pub language: Option<Language>,
}

/// A data stream; nothing of it is read.
#[derive(Debug)]
pub struct DataStream {}

} // verus!
