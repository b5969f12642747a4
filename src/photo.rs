//! Photos: which files are photos, and the date each one is filed under.

use crate::datetime::{
    flat_form, instant_in_range, local_date_time, nested_form, stamp_fields, valid_parts, well_formed_stamp,
};
use crate::error::PhotoSortError;
use crate::exif::{
    capture_time, decoded_fields_of, first_capture, first_stamp, stamp_well_formed,
};
use crate::paths::{extension, extension_of};
use vstd::prelude::*;

verus! {

/// An instant as the file system records it: seconds and nanoseconds since the Unix epoch.
#[derive(Clone, Copy, Debug, PartialEq, Eq, Structural)]
pub struct Timestamp {
    pub secs: i64,
    pub nanos: u32,
}

/// A photo to be filed: its path and the date string it is filed under.
#[derive(Debug)]
pub struct Photo {
    pub path: String,
    pub date: String,
}

/// Whether `a` is `b`, or `b` is a lower-case ASCII letter and `a` its upper-case form.
pub open spec fn same_letter(a: char, b: char) -> bool {
    a == b || ('a' <= b <= 'z' && a as u32 + 32 == b as u32)
}

/// Whether `s` spells the lower-case word `w`, ignoring ASCII case.
pub open spec fn spells(s: Seq<char>, w: Seq<char>) -> bool {
    s.len() == w.len() && forall|i: int| 0 <= i < s.len() ==> same_letter(#[trigger] s[i], w[i])
}

/// The extensions of the supported raster and RAW formats.
pub open spec fn supported_extension(e: Seq<char>) -> bool {
    ||| spells(e, "jpg"@)
    ||| spells(e, "jpeg"@)
    ||| spells(e, "png"@)
    ||| spells(e, "gif"@)
    ||| spells(e, "tiff"@)
    ||| spells(e, "arw"@)
    ||| spells(e, "cr2"@)
    ||| spells(e, "cr3"@)
    ||| spells(e, "nef"@)
    ||| spells(e, "orf"@)
    ||| spells(e, "rw2"@)
    ||| spells(e, "pef"@)
    ||| spells(e, "raf"@)
    ||| spells(e, "raw"@)
    ||| spells(e, "dng"@)
}

/// Whether the file at `p` has the extension of a supported format.
pub open spec fn is_supported_path(p: Seq<char>) -> bool {
    extension_of(p) matches Some(e) && supported_extension(e)
}

pub open spec fn bytes_of(contents: Option<&[u8]>) -> Option<Seq<u8>> {
    match contents {
        Some(c) => Some(c@),
        None => None,
    }
}

/// The date string of the capture time in an image's metadata, where it has one.
pub open spec fn exif_date_of(contents: Seq<u8>) -> Option<Seq<char>> {
    match decoded_fields_of(contents) {
        Some(fs) => match first_capture(fs) {
            Some(t) => Some(nested_form(t)),
            None => None,
        },
        None => None,
    }
}

pub open spec fn exif_date_in(contents: Option<Seq<u8>>) -> Option<Seq<char>> {
    match contents {
        Some(c) => exif_date_of(c),
        None => None,
    }
}

/// The first capture timestamp text in the metadata decoded from `contents`.
pub open spec fn stamp_in(contents: Option<Seq<u8>>) -> Option<Seq<char>> {
    match contents {
        Some(c) => match decoded_fields_of(c) {
            Some(fs) => first_stamp(fs),
            None => None,
        },
        None => None,
    }
}

/// Whether there is a creation time and chrono places it on its calendar.
pub open spec fn created_in_range(created: Option<Timestamp>) -> bool {
    created matches Some(ts) && instant_in_range(ts.secs as int, ts.nanos as int)
}

/// Whether the first capture timestamp in the metadata decoded from `contents` is
/// written exactly as camera firmware writes it.
pub open spec fn firmware_stamp_in(contents: Option<Seq<u8>>) -> bool {
    stamp_in(contents) matches Some(s) && well_formed_stamp(s)
}

/// Whether `date` is an outcome of resolving the date of a file whose bytes are
/// `contents` and whose creation time is `created`: the metadata's capture date where it
/// gives one; otherwise the creation time in flat form (always, for an instant in range),
/// or no date where there is no creation time.
pub open spec fn date_resolved(
    contents: Option<Seq<u8>>,
    created: Option<Timestamp>,
    date: Option<Seq<char>>,
) -> bool {
    match exif_date_in(contents) {
        Some(d) => date == Some(d),
        None => {
            &&& created is None ==> date is None
            &&& created_in_range(created) ==> date is Some
            &&& date matches Some(s) ==> exists|t: (int, int, int, int, int, int)|
                valid_parts(t) && s == flat_form(t)
        },
    }
}

pub open spec fn ok_text(r: Result<String, PhotoSortError>) -> Option<Seq<char>> {
    match r {
        Ok(s) => Some(s@),
        Err(_) => None,
    }
}

pub open spec fn photo_date(r: Result<Photo, PhotoSortError>) -> Option<Seq<char>> {
    match r {
        Ok(p) => Some(p.date@),
        Err(_) => None,
    }
}

/// Whether `s` spells the lower-case word `w`, ignoring ASCII case.
fn spells_word(s: &str, w: &str) -> (r: bool)
    ensures
        r == spells(s@, w@),
{
    let n = s.unicode_len();
    if n != w.unicode_len() {
        return false;
    }
    let mut i: usize = 0;
    while i < n
        invariant
            n == s@.len(),
            n == w@.len(),
            i <= n,
            forall|j: int| 0 <= j < i ==> same_letter(#[trigger] s@[j], w@[j]),
        decreases n - i,
    {
        let a = s.get_char(i);
        let b = w.get_char(i);
        if !(a == b || ('a' <= b && b <= 'z' && (a as u32) + 32 == (b as u32))) {
            return false;
        }
        i = i + 1;
    }
    true
}

impl Photo {
    /// Reads a photo from its path, its bytes (`None` where they could not be read) and
    /// its creation time (`None` where the platform does not report one). A file whose
    /// extension is not a supported format is refused; a file with no resolvable date
    /// gives a date error.
    pub fn new(path: &str, contents: Option<&[u8]>, created: Option<Timestamp>) -> (r: Result<Photo, PhotoSortError>)
        ensures
            !is_supported_path(path@) ==> (r matches Err(PhotoSortError::UnsupportedFormat(p)) && p@ == path@),
            is_supported_path(path@) ==> date_resolved(bytes_of(contents), created, photo_date(r)),
            is_supported_path(path@) && r is Err ==> r matches Err(PhotoSortError::DateParseError(_)),
            is_supported_path(path@) && firmware_stamp_in(bytes_of(contents)) ==> photo_date(r) == Some(nested_form(stamp_fields(stamp_in(bytes_of(contents))->Some_0))),
            r matches Ok(p) ==> p.path@ == path@,
    {
        if !Self::is_supported_image(path) {
            return Err(PhotoSortError::UnsupportedFormat(String::from_str(path)));
        }
        match Self::extract_date(contents, created) {
            Ok(date) => Ok(Photo { path: String::from_str(path), date }),
            Err(e) => Err(e),
        }
    }

    /// Whether the file at `path` has the extension, in any ASCII case, of a supported
    /// raster or RAW format.
    pub fn is_supported_image(path: &str) -> (r: bool)
        ensures
            r == is_supported_path(path@),
    {
        match extension(path) {
            Some(e) => {
                let e = e.as_str();
                spells_word(e, "jpg") || spells_word(e, "jpeg") || spells_word(e, "png")
                    || spells_word(e, "gif") || spells_word(e, "tiff") || spells_word(e, "arw")
                    || spells_word(e, "cr2") || spells_word(e, "cr3") || spells_word(e, "nef")
                    || spells_word(e, "orf") || spells_word(e, "rw2") || spells_word(e, "pef")
                    || spells_word(e, "raf") || spells_word(e, "raw") || spells_word(e, "dng")
            },
            None => false,
        }
    }

    /// The date a file is filed under: the capture date of its metadata where there is
    /// one, otherwise its creation time.
    pub fn extract_date(contents: Option<&[u8]>, created: Option<Timestamp>) -> (r: Result<String, PhotoSortError>)
        ensures
            date_resolved(bytes_of(contents), created, ok_text(r)),
            r is Err ==> r matches Err(PhotoSortError::DateParseError(_)),
            firmware_stamp_in(bytes_of(contents)) ==> ok_text(r) == Some(nested_form(stamp_fields(stamp_in(bytes_of(contents))->Some_0))),
    {
        if let Some(c) = contents {
            if let Ok(date) = Self::get_exif_date(c) {
                return Ok(date);
            }
        }
        Self::get_file_date(created)
    }

    /// The capture date in an image's metadata, in the form `year/year-month-day`.
    pub fn get_exif_date(contents: &[u8]) -> (r: Result<String, PhotoSortError>)
        ensures
            ok_text(r) == exif_date_of(contents@),
            decoded_fields_of(contents@) is None ==> r matches Err(PhotoSortError::ExifError(_)),
            decoded_fields_of(contents@) is Some && r is Err ==> r matches Err(PhotoSortError::DateParseError(_)),
            decoded_fields_of(contents@) is Some && stamp_well_formed(decoded_fields_of(contents@)->Some_0) ==> ok_text(r) == Some(nested_form(stamp_fields(first_stamp(decoded_fields_of(contents@)->Some_0)->Some_0))),
    {
        match capture_time(contents) {
            Ok(Some(t)) => Ok(t.nested_date()),
            Ok(None) => Err(PhotoSortError::DateParseError(String::from_str("no capture date in metadata"))),
            Err(e) => Err(PhotoSortError::ExifError(e)),
        }
    }

    /// The creation time of a file, in the machine's time zone, in the form
    /// `year-month-day_hour-minute-second`.
    pub fn get_file_date(created: Option<Timestamp>) -> (r: Result<String, PhotoSortError>)
        ensures
            created is None ==> r is Err,
            created_in_range(created) ==> r is Ok,
            r is Err ==> r matches Err(PhotoSortError::DateParseError(_)),
            r matches Ok(s) ==> exists|t: (int, int, int, int, int, int)| valid_parts(t) && s@ == flat_form(t),
    {
        match created {
            Some(ts) => match local_date_time(ts.secs, ts.nanos) {
                Some(t) => Ok(t.flat_date()),
                None => Err(PhotoSortError::DateParseError(String::from_str("creation time out of range"))),
            },
            None => Err(PhotoSortError::DateParseError(String::from_str("creation time unavailable"))),
        }
    }
}

} // verus!
