//! The errors of sorting photos.

use vstd::prelude::*;

verus! {

/// rexif's decode error, carried through unchanged.
#[verifier::external_type_specification]
#[verifier::external_body]
pub struct ExExifError(rexif::ExifError);

/// std's I/O error, carried through unchanged.
#[verifier::external_type_specification]
#[verifier::external_body]
pub struct ExIoError(std::io::Error);

/// Whether `r` starts with `prefix`.
pub open spec fn starts_with(r: Seq<char>, prefix: Seq<char>) -> bool {
    prefix.len() <= r.len() && r.subrange(0, prefix.len() as int) == prefix
}

/// Why a file or a run could not be handled.
#[derive(Debug)]
pub enum PhotoSortError {
    /// A file or directory could not be read, created or copied.
    IoError(std::io::Error),
    /// The image's metadata could not be decoded.
    ExifError(rexif::ExifError),
    /// No usable date could be found for a file; holds the reason.
    DateParseError(String),
    /// The file's extension is not a supported photo format; holds the path.
    UnsupportedFormat(String),
    /// A path could not be placed under the output root; holds the reason.
    ProcessError(String),
}

impl PhotoSortError {
    /// A one-line description of the error: its kind, then its detail.
    pub fn message(&self) -> (r: String)
        ensures
            self is IoError ==> starts_with(r@, "IO错误: "@),
            self is ExifError ==> starts_with(r@, "EXIF解析错误: "@),
            self matches PhotoSortError::DateParseError(d) ==> r@ == "日期解析错误: "@ + d@,
            self matches PhotoSortError::UnsupportedFormat(d) ==> r@ == "不支持的格式: "@ + d@,
            self matches PhotoSortError::ProcessError(d) ==> r@ == "处理错误: "@ + d@,
    {
        match self {
            PhotoSortError::IoError(e) => {
                let r = String::from_str("IO错误: ").concat(e.to_string().as_str());
                assert(r@.subrange(0, "IO错误: "@.len() as int) =~= "IO错误: "@);
                r
            },
            PhotoSortError::ExifError(e) => {
                let r = String::from_str("EXIF解析错误: ").concat(e.to_string().as_str());
                assert(r@.subrange(0, "EXIF解析错误: "@.len() as int) =~= "EXIF解析错误: "@);
                r
            },
            PhotoSortError::DateParseError(d) => String::from_str("日期解析错误: ").concat(d.as_str()),
            PhotoSortError::UnsupportedFormat(d) => String::from_str("不支持的格式: ").concat(d.as_str()),
            PhotoSortError::ProcessError(d) => String::from_str("处理错误: ").concat(d.as_str()),
        }
    }
}

impl From<std::io::Error> for PhotoSortError {
    fn from(e: std::io::Error) -> (r: PhotoSortError) {
        PhotoSortError::IoError(e)
    }
}

impl vstd::std_specs::convert::FromSpecImpl<std::io::Error> for PhotoSortError {
    open spec fn obeys_from_spec() -> bool {
        true
    }

    open spec fn from_spec(e: std::io::Error) -> PhotoSortError {
        PhotoSortError::IoError(e)
    }
}

impl From<rexif::ExifError> for PhotoSortError {
    fn from(e: rexif::ExifError) -> (r: PhotoSortError) {
        PhotoSortError::ExifError(e)
    }
}

impl vstd::std_specs::convert::FromSpecImpl<rexif::ExifError> for PhotoSortError {
    open spec fn obeys_from_spec() -> bool {
        true
    }

    open spec fn from_spec(e: rexif::ExifError) -> PhotoSortError {
        PhotoSortError::ExifError(e)
    }
}

} // verus!
