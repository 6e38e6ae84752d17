//! What is known about a piece of media: its type, its size, its dimensions.
//!
//! Sizes and dimensions travel as JSON numbers, which hold whole numbers
//! exactly up to 2^53 - 1 only. A larger number is left out.

use crate::keys::{clone_option, option_view};
use vstd::prelude::*;

verus! {

/// The largest whole number that a JSON number holds exactly: 2^53 - 1.
pub const MAX_SAFE_UINT: u64 = 0x001f_ffff_ffff_ffff;

/// `value` where a JSON number holds it exactly, and nothing otherwise.
pub open spec fn safe_of(value: Option<u64>) -> Option<u64> {
    match value {
        Some(number) => if number <= MAX_SAFE_UINT {
            Some(number)
        } else {
            None
        },
        None => None,
    }
}

/// `value` where a JSON number holds it exactly, and nothing otherwise.
pub fn safe_uint(value: Option<u64>) -> (safe: Option<u64>)
    ensures
        safe == safe_of(value),
{
    match value {
        Some(number) => if number <= MAX_SAFE_UINT {
            Some(number)
        } else {
            None
        },
        None => None,
    }
}

/// What is known about an image.
#[derive(Debug, PartialEq, Eq)]
pub struct ImageInfo {
    /// The height of the image in pixels.
    pub height: Option<u64>,
    /// The width of the image in pixels.
    pub width: Option<u64>,
    /// The type of the image.
    pub mimetype: Option<String>,
    /// The size of the image in bytes.
    pub size: Option<u64>,
    /// A blurred rendition of the image.
    pub blurhash: Option<String>,
}

/// The contents of a [`ImageInfo`].
pub struct ImageInfoView {
    pub height: Option<u64>,
    pub width: Option<u64>,
    pub mimetype: Option<Seq<char>>,
    pub size: Option<u64>,
    pub blurhash: Option<Seq<char>>,
}

impl View for ImageInfo {
    type V = ImageInfoView;

    open spec fn view(&self) -> ImageInfoView {
        ImageInfoView {
            height: self.height,
            width: self.width,
            mimetype: option_view(self.mimetype),
            size: self.size,
            blurhash: option_view(self.blurhash),
        }
    }
}

impl Clone for ImageInfo {
    fn clone(&self) -> (copy: Self)
        ensures
            copy@ == self@,
    {
        ImageInfo {
            height: self.height,
            width: self.width,
            mimetype: clone_option(&self.mimetype),
            size: self.size,
            blurhash: clone_option(&self.blurhash),
        }
    }
}

impl ImageInfo {
    /// The info with the given fields. A size or a dimension that a JSON
    /// number does not hold exactly is left out.
    pub fn new(
        mimetype: Option<String>,
        size: Option<u64>,
        width: Option<u64>,
        height: Option<u64>,
        blurhash: Option<String>,
    ) -> (info: ImageInfo)
        ensures
            info@ == (ImageInfoView {
                height: safe_of(height),
                width: safe_of(width),
                mimetype: option_view(mimetype),
                size: safe_of(size),
                blurhash: option_view(blurhash),
            }),
    {
        ImageInfo {
            height: safe_uint(height),
            width: safe_uint(width),
            mimetype: mimetype,
            size: safe_uint(size),
            blurhash: blurhash,
        }
    }
}

/// The contents of an optional [`ImageInfo`].
pub open spec fn image_info_view(info: Option<ImageInfo>) -> Option<ImageInfoView> {
    match info {
        Some(i) => Some(i@),
        None => None,
    }
}

/// A copy of an optional [`ImageInfo`].
pub fn clone_image_info(info: &Option<ImageInfo>) -> (copy: Option<ImageInfo>)
    ensures
        image_info_view(copy) == image_info_view(*info),
{
    match info {
        Some(i) => Some(i.clone()),
        None => None,
    }
}

/// What is known about a sound recording.
#[derive(Debug, PartialEq, Eq)]
pub struct AudioInfo {
    /// The length of the recording in seconds.
    pub duration_secs: Option<u64>,
    /// The type of the recording.
    pub mimetype: Option<String>,
    /// The size of the recording in bytes.
    pub size: Option<u64>,
}

/// The contents of a [`AudioInfo`].
pub struct AudioInfoView {
    pub duration_secs: Option<u64>,
    pub mimetype: Option<Seq<char>>,
    pub size: Option<u64>,
}

impl View for AudioInfo {
    type V = AudioInfoView;

    open spec fn view(&self) -> AudioInfoView {
        AudioInfoView {
            duration_secs: self.duration_secs,
            mimetype: option_view(self.mimetype),
            size: self.size,
        }
    }
}

impl Clone for AudioInfo {
    fn clone(&self) -> (copy: Self)
        ensures
            copy@ == self@,
    {
        AudioInfo {
            duration_secs: self.duration_secs,
            mimetype: clone_option(&self.mimetype),
            size: self.size,
        }
    }
}

impl AudioInfo {
    /// The info with the given fields. A size or a dimension that a JSON
    /// number does not hold exactly is left out.
    pub fn new(
        secs: Option<u64>,
        mimetype: Option<String>,
        size: Option<u64>,
    ) -> (info: AudioInfo)
        ensures
            info@ == (AudioInfoView {
                duration_secs: secs,
                mimetype: option_view(mimetype),
                size: safe_of(size),
            }),
    {
        AudioInfo {
            duration_secs: secs,
            mimetype: mimetype,
            size: safe_uint(size),
        }
    }
}

/// The contents of an optional [`AudioInfo`].
pub open spec fn audio_info_view(info: Option<AudioInfo>) -> Option<AudioInfoView> {
    match info {
        Some(i) => Some(i@),
        None => None,
    }
}

/// A copy of an optional [`AudioInfo`].
pub fn clone_audio_info(info: &Option<AudioInfo>) -> (copy: Option<AudioInfo>)
    ensures
        audio_info_view(copy) == audio_info_view(*info),
{
    match info {
        Some(i) => Some(i.clone()),
        None => None,
    }
}

/// What is known about a video.
#[derive(Debug, PartialEq, Eq)]
pub struct VideoInfo {
    /// The length of the video in seconds.
    pub duration_secs: Option<u64>,
    /// The height of the video in pixels.
    pub height: Option<u64>,
    /// The width of the video in pixels.
    pub width: Option<u64>,
    /// The type of the video.
    pub mimetype: Option<String>,
    /// The size of the video in bytes.
    pub size: Option<u64>,
    /// A blurred rendition of the video.
    pub blurhash: Option<String>,
}

/// The contents of a [`VideoInfo`].
pub struct VideoInfoView {
    pub duration_secs: Option<u64>,
    pub height: Option<u64>,
    pub width: Option<u64>,
    pub mimetype: Option<Seq<char>>,
    pub size: Option<u64>,
    pub blurhash: Option<Seq<char>>,
}

impl View for VideoInfo {
    type V = VideoInfoView;

    open spec fn view(&self) -> VideoInfoView {
        VideoInfoView {
            duration_secs: self.duration_secs,
            height: self.height,
            width: self.width,
            mimetype: option_view(self.mimetype),
            size: self.size,
            blurhash: option_view(self.blurhash),
        }
    }
}

impl Clone for VideoInfo {
    fn clone(&self) -> (copy: Self)
        ensures
            copy@ == self@,
    {
        VideoInfo {
            duration_secs: self.duration_secs,
            height: self.height,
            width: self.width,
            mimetype: clone_option(&self.mimetype),
            size: self.size,
            blurhash: clone_option(&self.blurhash),
        }
    }
}

impl VideoInfo {
    /// The info with the given fields. A size or a dimension that a JSON
    /// number does not hold exactly is left out.
    pub fn new(
        secs: Option<u64>,
        height: Option<u64>,
        width: Option<u64>,
        mimetype: Option<String>,
        size: Option<u64>,
        blurhash: Option<String>,
    ) -> (info: VideoInfo)
        ensures
            info@ == (VideoInfoView {
                duration_secs: secs,
                height: safe_of(height),
                width: safe_of(width),
                mimetype: option_view(mimetype),
                size: safe_of(size),
                blurhash: option_view(blurhash),
            }),
    {
        VideoInfo {
            duration_secs: secs,
            height: safe_uint(height),
            width: safe_uint(width),
            mimetype: mimetype,
            size: safe_uint(size),
            blurhash: blurhash,
        }
    }
}

/// The contents of an optional [`VideoInfo`].
pub open spec fn video_info_view(info: Option<VideoInfo>) -> Option<VideoInfoView> {
    match info {
        Some(i) => Some(i@),
        None => None,
    }
}

/// A copy of an optional [`VideoInfo`].
pub fn clone_video_info(info: &Option<VideoInfo>) -> (copy: Option<VideoInfo>)
    ensures
        video_info_view(copy) == video_info_view(*info),
{
    match info {
        Some(i) => Some(i.clone()),
        None => None,
    }
}

/// What is known about a file.
#[derive(Debug, PartialEq, Eq)]
pub struct FileInfo {
    /// The type of the file.
    pub mimetype: Option<String>,
    /// The size of the file in bytes.
    pub size: Option<u64>,
}

/// The contents of a [`FileInfo`].
pub struct FileInfoView {
    pub mimetype: Option<Seq<char>>,
    pub size: Option<u64>,
}

impl View for FileInfo {
    type V = FileInfoView;

    open spec fn view(&self) -> FileInfoView {
        FileInfoView {
            mimetype: option_view(self.mimetype),
            size: self.size,
        }
    }
}

impl Clone for FileInfo {
    fn clone(&self) -> (copy: Self)
        ensures
            copy@ == self@,
    {
        FileInfo {
            mimetype: clone_option(&self.mimetype),
            size: self.size,
        }
    }
}

impl FileInfo {
    /// The info with the given fields. A size or a dimension that a JSON
    /// number does not hold exactly is left out.
    pub fn new(
        mimetype: Option<String>,
        size: Option<u64>,
    ) -> (info: FileInfo)
        ensures
            info@ == (FileInfoView {
                mimetype: option_view(mimetype),
                size: safe_of(size),
            }),
    {
        FileInfo {
            mimetype: mimetype,
            size: safe_uint(size),
        }
    }
}

/// The contents of an optional [`FileInfo`].
pub open spec fn file_info_view(info: Option<FileInfo>) -> Option<FileInfoView> {
    match info {
        Some(i) => Some(i@),
        None => None,
    }
}

/// A copy of an optional [`FileInfo`].
pub fn clone_file_info(info: &Option<FileInfo>) -> (copy: Option<FileInfo>)
    ensures
        file_info_view(copy) == file_info_view(*info),
{
    match info {
        Some(i) => Some(i.clone()),
        None => None,
    }
}

} // verus!
