//! The capture time recorded in an image's metadata.

use crate::datetime::{
    parse_capture_stamp, parsed_date_time_of, parts_of, stamp_fields, stamp_format, well_formed_stamp,
    CalendarTime,
};
use vstd::prelude::*;

verus! {

/// The tag number of the original capture time (`DateTimeOriginal`).
pub const DATE_TIME_ORIGINAL: u32 = 0x9003;

/// One decoded metadata entry: its tag number and, where its value is text, the text.
pub struct ExifField {
    pub tag: u32,
    pub text: Option<String>,
}

pub open spec fn text_view(t: Option<String>) -> Option<Seq<char>> {
    match t {
        Some(s) => Some(s@),
        None => None,
    }
}

impl View for ExifField {
    type V = (u32, Option<Seq<char>>);

    open spec fn view(&self) -> (u32, Option<Seq<char>>) {
        (self.tag, text_view(self.text))
    }
}

pub open spec fn fields_view(v: Seq<ExifField>) -> Seq<(u32, Option<Seq<char>>)> {
    v.map_values(|f: ExifField| f@)
}

/// The entries that rexif decodes from the bytes of an image, as tag numbers and texts,
/// or `None` where it cannot decode them.
pub uninterp spec fn decoded_fields_of(contents: Seq<u8>) -> Option<Seq<(u32, Option<Seq<char>>)>>;

/// Relies on rexif's `parse_buffer_quiet`: decodes the TIFF or JPEG metadata held in
/// `contents`, and hands back each entry's `ExifTag` as its number (`0xffff` for a tag rexif
/// does not know) and, for a text value, its text.
#[verifier::external_body]
fn decode_fields(contents: &[u8]) -> (r: Result<Vec<ExifField>, rexif::ExifError>)
    ensures
        r is Ok <==> decoded_fields_of(contents@) is Some,
        r matches Ok(v) ==> decoded_fields_of(contents@) == Some(fields_view(v@)),
{
    match rexif::parse_buffer_quiet(contents).0 {
        Ok(data) => Ok(data.entries.into_iter().map(|e| ExifField {
            tag: e.tag as u32,
            text: match e.value {
                rexif::TagValue::Ascii(s) => Some(s),
                _ => None,
            },
        }).collect()),
        Err(e) => Err(e),
    }
}

/// Whether an entry is a capture time given as text.
pub open spec fn is_stamp_field(f: (u32, Option<Seq<char>>)) -> bool {
    f.0 == DATE_TIME_ORIGINAL && f.1 is Some
}

/// The text of the first capture-time entry.
pub open spec fn first_stamp(fields: Seq<(u32, Option<Seq<char>>)>) -> Option<Seq<char>>
    decreases fields.len(),
{
    if fields.len() == 0 {
        None
    } else if is_stamp_field(fields[0]) {
        fields[0].1
    } else {
        first_stamp(fields.drop_first())
    }
}

/// Whether the first capture-time entry holds a timestamp exactly as camera firmware writes it.
pub open spec fn stamp_well_formed(fields: Seq<(u32, Option<Seq<char>>)>) -> bool {
    first_stamp(fields) matches Some(s) && well_formed_stamp(s)
}

/// The date and time that the first capture-time entry reads as; the entries after it
/// are not consulted.
pub open spec fn first_capture(fields: Seq<(u32, Option<Seq<char>>)>) -> Option<
    (int, int, int, int, int, int),
> {
    match first_stamp(fields) {
        Some(s) => parsed_date_time_of(s, stamp_format()),
        None => None,
    }
}

/// The capture time of the metadata decoded from `contents`, read from its first
/// capture-time text entry: `Ok(None)` where there is no such entry or its text does not
/// read as a timestamp, the decode error where the metadata cannot be decoded.
pub fn capture_time(contents: &[u8]) -> (r: Result<Option<CalendarTime>, rexif::ExifError>)
    ensures
        r is Err <==> decoded_fields_of(contents@) is None,
        r matches Ok(c) ==> parts_of(c) == first_capture(decoded_fields_of(contents@)->Some_0),
        r matches Ok(Some(t)) ==> t.wf(),
        r is Ok && stamp_well_formed(decoded_fields_of(contents@)->Some_0) ==> parts_of(r->Ok_0) == Some(stamp_fields(first_stamp(decoded_fields_of(contents@)->Some_0)->Some_0)),
{
    let fields = match decode_fields(contents) {
        Ok(v) => v,
        Err(e) => return Err(e),
    };
    let ghost fs = fields_view(fields@);
    let mut i: usize = 0;
    assert(fs.skip(0) =~= fs);
    while i < fields.len()
        invariant
            0 <= i <= fields.len(),
            fs == fields_view(fields@),
            decoded_fields_of(contents@) == Some(fs),
            first_stamp(fs) == first_stamp(fs.skip(i as int)),
        decreases fields.len() - i,
    {
        let ghost rest = fs.skip(i as int);
        assert(rest.drop_first() =~= fs.skip(i + 1));
        assert(rest[0] == fields@[i as int]@);
        let f = &fields[i];
        if f.tag == DATE_TIME_ORIGINAL {
            if let Some(text) = &f.text {
                return Ok(parse_capture_stamp(text.as_str()));
            }
        }
        i = i + 1;
    }
    assert(fs.skip(i as int) =~= Seq::<(u32, Option<Seq<char>>)>::empty());
    Ok(None)
}

} // verus!
