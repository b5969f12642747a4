use chrono::{Datelike, TimeZone, Timelike};
use photo_sorter::datetime::{parse_capture_stamp, CalendarTime};
use photo_sorter::error::PhotoSortError;
use photo_sorter::exif::capture_time;
use photo_sorter::paths::{extension, file_name, join, parent, relative_dir, strip_root};
use photo_sorter::photo::{Photo, Timestamp};
use photo_sorter::placement::{
    destination_path, first_failure, plan_placement, target_dir, PlacementMode,
};

/// A little-endian TIFF whose Exif directory holds one `DateTimeOriginal` text entry
/// for each of `stamps`, in order.
fn tiff_with_capture_times(stamps: &[&str]) -> Vec<u8> {
    let exif_dir: u32 = 26;
    let n = stamps.len() as u32;
    let mut data_at = exif_dir + 2 + 12 * n;
    let mut b: Vec<u8> = Vec::new();
    b.extend_from_slice(b"II");
    b.extend_from_slice(&42u16.to_le_bytes());
    b.extend_from_slice(&8u32.to_le_bytes());
    // IFD0: a pointer to the Exif directory.
    b.extend_from_slice(&1u16.to_le_bytes());
    b.extend_from_slice(&0x8769u16.to_le_bytes());
    b.extend_from_slice(&4u16.to_le_bytes());
    b.extend_from_slice(&1u32.to_le_bytes());
    b.extend_from_slice(&exif_dir.to_le_bytes());
    b.extend_from_slice(&0u32.to_le_bytes());
    // Exif directory: the capture times, their texts stored after the directory.
    b.extend_from_slice(&(n as u16).to_le_bytes());
    let mut texts: Vec<u8> = Vec::new();
    for stamp in stamps {
        let mut text = stamp.as_bytes().to_vec();
        text.push(0);
        b.extend_from_slice(&0x9003u16.to_le_bytes());
        b.extend_from_slice(&2u16.to_le_bytes());
        b.extend_from_slice(&(text.len() as u32).to_le_bytes());
        b.extend_from_slice(&data_at.to_le_bytes());
        data_at += text.len() as u32;
        texts.extend_from_slice(&text);
    }
    b.extend_from_slice(&texts);
    b
}

fn tiff_with_capture_time(stamp: &str) -> Vec<u8> {
    tiff_with_capture_times(&[stamp])
}

fn local_flat(secs: i64) -> String {
    chrono::Local
        .timestamp_opt(secs, 0)
        .unwrap()
        .format("%Y-%m-%d_%H-%M-%S")
        .to_string()
}

fn photo(path: &str, date: &str) -> Photo {
    Photo { path: path.to_string(), date: date.to_string() }
}

#[test]
fn supported_extensions_any_case() {
    for p in [
        "a.jpg", "a.JPG", "a.jpeg", "a.png", "a.gif", "a.tiff", "IMG_0001.ARW", "b.cr2", "b.CR3",
        "b.nef", "b.orf", "b.rw2", "b.pef", "b.raf", "b.raw", "dir/b.DnG",
    ] {
        assert!(Photo::is_supported_image(p), "{}", p);
    }
}

#[test]
fn unsupported_extensions_refused() {
    for p in ["notes.txt", "clip.mov", "noext", ".jpg", "dir.jpg/file", "a.jpg.bak", "a.", "a.tif"] {
        assert!(!Photo::is_supported_image(p), "{}", p);
    }
}

#[test]
fn unsupported_file_gives_no_photo() {
    let r = Photo::new("src/notes.txt", Some(&[1u8, 2, 3][..]), Some(Timestamp { secs: 0, nanos: 0 }));
    match r {
        Err(PhotoSortError::UnsupportedFormat(p)) => assert_eq!(p, "src/notes.txt"),
        other => panic!("unexpected {:?}", other),
    }
}

#[test]
fn nested_and_flat_forms() {
    let t = CalendarTime { year: 2023, month: 5, day: 1, hour: 10, minute: 20, second: 30 };
    assert_eq!(t.nested_date(), "2023/2023-05-01");
    assert_eq!(t.flat_date(), "2023-05-01_10-20-30");
    let early = CalendarTime { year: 7, month: 12, day: 31, hour: 0, minute: 0, second: 9 };
    assert_eq!(early.nested_date(), "0007/0007-12-31");
    assert_eq!(early.flat_date(), "0007-12-31_00-00-09");
}

#[test]
fn years_outside_four_digits_carry_a_sign() {
    let far = CalendarTime { year: 12345, month: 1, day: 2, hour: 3, minute: 4, second: 5 };
    assert_eq!(far.nested_date(), "+12345/+12345-01-02");
    let before = CalendarTime { year: -1, month: 1, day: 2, hour: 3, minute: 4, second: 5 };
    assert_eq!(before.flat_date(), "-0001-01-02_03-04-05");
    let long_ago = CalendarTime { year: -12345, month: 1, day: 2, hour: 3, minute: 4, second: 5 };
    assert_eq!(long_ago.flat_date(), "-12345-01-02_03-04-05");
}

#[test]
fn capture_stamp_parses_firmware_text() {
    let t = parse_capture_stamp("2023:05:01 10:20:30").unwrap();
    assert_eq!(t, CalendarTime { year: 2023, month: 5, day: 1, hour: 10, minute: 20, second: 30 });
    let leap = parse_capture_stamp("2024:02:29 23:59:59").unwrap();
    assert_eq!((leap.month, leap.day), (2, 29));
}

#[test]
fn malformed_capture_stamps_refused() {
    for s in ["", "garbage", "2023-05-01 10:20:30", "2023:13:01 10:20:30", "2023:02:30 10:20:30", "2023:05:01"] {
        assert!(parse_capture_stamp(s).is_none(), "{}", s);
    }
}

#[test]
fn capture_time_from_metadata() {
    let b = tiff_with_capture_time("2023:05:01 10:20:30");
    let t = capture_time(&b).unwrap().unwrap();
    assert_eq!(t.flat_date(), "2023-05-01_10-20-30");
}

#[test]
fn exif_date_in_nested_form() {
    let b = tiff_with_capture_time("2023:05:01 10:20:30");
    assert_eq!(Photo::get_exif_date(&b).unwrap(), "2023/2023-05-01");
}

#[test]
fn undecodable_metadata_is_an_exif_error() {
    let r = Photo::get_exif_date(b"plain text, no image");
    assert!(matches!(r, Err(PhotoSortError::ExifError(_))));
    let e = r.unwrap_err();
    assert!(e.message().starts_with("EXIF解析错误: "));
}

#[test]
fn malformed_tag_is_a_date_parse_error() {
    let b = tiff_with_capture_time("2023:05:01");
    assert!(matches!(Photo::get_exif_date(&b), Err(PhotoSortError::DateParseError(_))));
}

#[test]
fn malformed_tag_falls_back_to_creation_time() {
    let b = tiff_with_capture_time("not a date");
    let secs = 1_600_000_000;
    let d = Photo::extract_date(Some(&b[..]), Some(Timestamp { secs, nanos: 0 })).unwrap();
    assert_eq!(d, local_flat(secs));
}

#[test]
fn no_date_at_all_is_a_date_parse_error() {
    let r = Photo::extract_date(None, None);
    assert!(matches!(r, Err(PhotoSortError::DateParseError(_))));
    let r = Photo::new("a.jpg", Some(&b"xx"[..]), None);
    assert!(matches!(r, Err(PhotoSortError::DateParseError(_))));
}

#[test]
fn creation_time_out_of_range_is_a_date_parse_error() {
    let r = Photo::get_file_date(Some(Timestamp { secs: i64::MAX, nanos: 0 }));
    assert!(matches!(r, Err(PhotoSortError::DateParseError(_))));
}

#[test]
fn scenario_capture_date_from_raw_file() {
    let b = tiff_with_capture_time("2023:05:01 10:20:30");
    let p = Photo::new("src/IMG_0001.ARW", Some(&b[..]), Some(Timestamp { secs: 0, nanos: 0 })).unwrap();
    assert_eq!(p.date, "2023/2023-05-01");
    let plan = plan_placement("src", "out", &p, PlacementMode::FlatByDate).unwrap();
    assert_eq!(plan.dir, "out/2023/2023-05-01");
    assert_eq!(plan.file, "out/2023/2023-05-01/IMG_0001.ARW");
}

#[test]
fn scenario_png_without_metadata_uses_creation_time() {
    let created = chrono::Local.with_ymd_and_hms(2022, 1, 2, 3, 4, 5).unwrap();
    let ts = Timestamp { secs: created.timestamp(), nanos: 0 };
    let p = Photo::new("src/photo.png", Some(&b"\x89PNG\r\n\x1a\n no exif here"[..]), Some(ts)).unwrap();
    assert_eq!(p.date, "2022-01-02_03-04-05");
    assert_eq!(created.year(), 2022);
    assert_eq!(created.second(), 5);
    let plan = plan_placement("src", "out", &p, PlacementMode::FlatByDate).unwrap();
    assert_eq!(plan.file, "out/2022-01-02_03-04-05/photo.png");
}

#[test]
fn scenario_text_file_is_skipped() {
    let r = Photo::new("src/notes.txt", None, Some(Timestamp { secs: 0, nanos: 0 }));
    assert!(matches!(r, Err(PhotoSortError::UnsupportedFormat(_))));
    assert!(first_failure(vec![]).is_ok());
}

#[test]
fn scenario_tree_preserving_placement() {
    let p = photo("src/trip/day1/IMG_0002.CR2", "2021-07-04_08-00-00");
    let plan = plan_placement("src", "out", &p, PlacementMode::TreePreserving).unwrap();
    assert_eq!(plan.dir, "out/trip/day1/2021-07-04_08-00-00");
    assert_eq!(plan.file, "out/trip/day1/2021-07-04_08-00-00/IMG_0002.CR2");
    let flat = plan_placement("src", "out", &p, PlacementMode::FlatByDate).unwrap();
    assert_eq!(flat.file, "out/2021-07-04_08-00-00/IMG_0002.CR2");
}

#[test]
fn tree_preserving_at_the_root() {
    let p = photo("/photos/a.jpg", "2020/2020-01-01");
    assert_eq!(target_dir("/photos/", "/out/", &p, PlacementMode::TreePreserving).unwrap(), "/out/2020/2020-01-01");
}

#[test]
fn path_outside_root_is_a_process_error() {
    let p = photo("/other/a.jpg", "d");
    let r = target_dir("/photos", "/out", &p, PlacementMode::TreePreserving);
    assert!(matches!(r, Err(PhotoSortError::ProcessError(_))));
    let q = photo("/photosx/a.jpg", "d");
    assert!(target_dir("/photos", "/out", &q, PlacementMode::TreePreserving).is_err());
}

#[test]
fn empty_file_name_is_a_process_error() {
    let p = photo("src/..", "d");
    assert!(matches!(destination_path("out", &p), Err(PhotoSortError::ProcessError(_))));
    let root = photo("/", "d");
    assert!(destination_path("out", &root).is_err());
}

#[test]
fn trailing_separators_and_dot_components_are_ignored() {
    assert!(Photo::is_supported_image("a.jpg/"));
    assert!(Photo::is_supported_image("dir/a.JPG/./"));
    assert_eq!(file_name("src/dir/"), "dir");
    assert_eq!(file_name("src/a.png/."), "a.png");
    assert_eq!(file_name("."), "");
    assert_eq!(extension("a/.."), None);
    let p = photo("src/IMG.CR2/", "d");
    assert_eq!(destination_path("out", &p).unwrap(), "out/IMG.CR2");
}

#[test]
fn relative_dir_of_the_root_itself_is_none() {
    assert_eq!(relative_dir("/src", "/src"), None);
    assert_eq!(relative_dir("/src", "/src/"), None);
    assert_eq!(relative_dir("/src", "/other/x.jpg"), None);
    assert_eq!(relative_dir("/src", "/src/x.jpg"), Some("".to_string()));
    let p = photo("/src", "d");
    assert_eq!(target_dir("/src", "/out", &p, PlacementMode::TreePreserving).unwrap(), "/out/d");
}

#[test]
fn creation_time_in_range_always_dates() {
    for secs in [0i64, -1, 1_600_000_000, -8_000_000_000_000, 8_000_000_000_000] {
        let d = Photo::get_file_date(Some(Timestamp { secs, nanos: 999_999_999 })).unwrap();
        assert_eq!(d, local_flat(secs));
    }
}

#[test]
fn path_helpers() {
    assert_eq!(file_name("a/b/c.jpg"), "c.jpg");
    assert_eq!(file_name("c.jpg"), "c.jpg");
    assert_eq!(extension("a/b.tar.GZ"), Some("GZ".to_string()));
    assert_eq!(extension("a.b/c"), None);
    assert_eq!(parent("x/y/z.jpg"), Some("x/y".to_string()));
    assert_eq!(parent("z.jpg"), Some("".to_string()));
    assert_eq!(parent("x/y/"), Some("x".to_string()));
    assert_eq!(parent(""), None);
    assert_eq!(strip_root("/a/b", "/a/b/c/d.jpg"), Some("c/d.jpg".to_string()));
    assert_eq!(strip_root("/a/b/", "/a/b/c/d.jpg"), Some("c/d.jpg".to_string()));
    assert_eq!(strip_root("/a/b", "/a/bc/d.jpg"), None);
    assert_eq!(relative_dir("", "x/y.jpg"), Some("x".to_string()));
    assert_eq!(join("out", "d"), "out/d");
    assert_eq!(join("out/", "d"), "out/d");
    assert_eq!(join("", "d"), "d");
}

#[test]
fn first_failure_reports_the_first_error() {
    assert!(first_failure(vec![Ok(()), Ok(())]).is_ok());
    let r = first_failure(vec![
        Ok(()),
        Err(PhotoSortError::IoError(std::io::Error::new(std::io::ErrorKind::Other, "first"))),
        Err(PhotoSortError::IoError(std::io::Error::new(std::io::ErrorKind::Other, "second"))),
    ]);
    match r {
        Err(PhotoSortError::IoError(e)) => assert_eq!(e.to_string(), "first"),
        other => panic!("unexpected {:?}", other),
    }
}

#[test]
fn error_messages() {
    let io = std::io::Error::new(std::io::ErrorKind::Other, "x");
    assert_eq!(PhotoSortError::IoError(io).message(), "IO错误: x");
    assert_eq!(PhotoSortError::DateParseError("y".to_string()).message(), "日期解析错误: y");
    assert_eq!(PhotoSortError::UnsupportedFormat("x".to_string()).message(), "不支持的格式: x");
    assert_eq!(PhotoSortError::ProcessError("z".to_string()).message(), "处理错误: z");
    let from_io: PhotoSortError = std::io::Error::new(std::io::ErrorKind::NotFound, "gone").into();
    assert!(matches!(from_io, PhotoSortError::IoError(_)));
}

#[test]
fn same_inputs_same_destination() {
    let b = tiff_with_capture_time("2023:05:01 10:20:30");
    let first = Photo::new("src/a/IMG.JPG", Some(&b[..]), None).unwrap();
    let second = Photo::new("src/a/IMG.JPG", Some(&b[..]), None).unwrap();
    let p1 = plan_placement("src", "out", &first, PlacementMode::TreePreserving).unwrap();
    let p2 = plan_placement("src", "out", &second, PlacementMode::TreePreserving).unwrap();
    assert_eq!(p1.file, p2.file);
    assert_eq!(p1.file, "out/a/2023/2023-05-01/IMG.JPG");
}

#[test]
fn only_the_first_capture_tag_is_consulted() {
    let b = tiff_with_capture_times(&["2020:01:01 00:00:00", "2021:02:02 00:00:00"]);
    assert_eq!(Photo::get_exif_date(&b).unwrap(), "2020/2020-01-01");
    let bad_first = tiff_with_capture_times(&["bad", "2021:02:02 00:00:00"]);
    assert!(matches!(Photo::get_exif_date(&bad_first), Err(PhotoSortError::DateParseError(_))));
    let secs = 86_400 * 365;
    let d = Photo::extract_date(Some(&bad_first[..]), Some(Timestamp { secs, nanos: 0 })).unwrap();
    assert_eq!(d, local_flat(secs));
}
