//! Organizes photos into `root/year/MM - Month Name` directories.
//!
//! The capture date comes from the embedded camera metadata first; when
//! that fails for any reason, from the WhatsApp-style filename pattern
//! `IMG-YYYYMMDD-WAnnnn.<anything>`.  Digits here are the ASCII digits.

use vstd::prelude::*;

use crate::date::{month_label, year_chars, Date};
use crate::errors::{ErrorKind, OrgError};
use crate::paths::{extension, extension_of, file_name, file_name_of, has_extension, join_path,
    path_join, str_eq};
use crate::patterns::{bytes_val, digit_at, digit_value, digits_val, is_ascii_digit, is_digit_byte,
    lemma_bytes_val2, lemma_bytes_val4, lemma_digits_val2, lemma_digits_val4};

verus! {

/// The tail of a matching WhatsApp-style name: one or more digits from
/// index 15 up to the dot at index `j`, with no newline after the dot.
pub open spec fn photo_digit_run_end(f: Seq<char>, j: int) -> bool {
    &&& 16 <= j < f.len()
    &&& f[j] == '.'
    &&& forall|k: int| 15 <= k < j ==> is_ascii_digit(f[k])
    &&& forall|k: int| j < k < f.len() ==> f[k] != '\n'
}

/// Whether a file name has the WhatsApp shape `IMG-YYYYMMDD-WAn...n.<rest>`:
/// the literal `IMG-`, eight date digits, `-WA`, at least one digit, a
/// dot, and a rest free of newlines.
pub open spec fn photo_name_matches(f: Seq<char>) -> bool {
    &&& f.len() >= 17
    &&& f[0] == 'I' && f[1] == 'M' && f[2] == 'G' && f[3] == '-'
    &&& forall|k: int| 4 <= k < 12 ==> is_ascii_digit(f[k])
    &&& f[12] == '-' && f[13] == 'W' && f[14] == 'A'
    &&& exists|j: int| photo_digit_run_end(f, j)
}

/// The year the name carries: its digits 4 through 7.
pub open spec fn photo_year(f: Seq<char>) -> int {
    digits_val(f.subrange(4, 8))
}

/// The month the name carries: its digits 8 and 9.
pub open spec fn photo_month(f: Seq<char>) -> int {
    digits_val(f.subrange(8, 10))
}

/// Reads the year and month out of a WhatsApp-style file name, or
/// `None` when the name does not have that shape.
pub fn photo_filename_date(name: &str) -> (r: Option<(u16, u8)>)
    ensures
        r is Some <==> photo_name_matches(name@),
        r matches Some((y, m)) ==> y as int == photo_year(name@) && m as int == photo_month(name@),
{
    let n = name.unicode_len();
    if n < 17 {
        return None;
    }
    if !(name.get_char(0) == 'I' && name.get_char(1) == 'M' && name.get_char(2) == 'G'
        && name.get_char(3) == '-') {
        return None;
    }
    if !(name.get_char(12) == '-' && name.get_char(13) == 'W' && name.get_char(14) == 'A') {
        return None;
    }
    let mut i: usize = 4;
    while i < 12
        invariant
            4 <= i <= 12,
            n == name@.len(),
            n >= 17,
            forall|k: int| 4 <= k < i ==> is_ascii_digit(name@[k]),
        decreases 12 - i,
    {
        if digit_value(name.get_char(i)).is_none() {
            return None;
        }
        i = i + 1;
    }
    let y0 = digit_at(name, 4);
    let y1 = digit_at(name, 5);
    let y2 = digit_at(name, 6);
    let y3 = digit_at(name, 7);
    let m0 = digit_at(name, 8);
    let m1 = digit_at(name, 9);
    let y: u16 = (y0 as u16) * 1000 + (y1 as u16) * 100 + (y2 as u16) * 10 + (y3 as u16);
    let m: u8 = m0 * 10 + m1;
    let mut j: usize = 15;
    while j < n && digit_value(name.get_char(j)).is_some()
        invariant
            15 <= j <= n,
            n == name@.len(),
            forall|k: int| 15 <= k < j ==> is_ascii_digit(name@[k]),
        decreases n - j,
    {
        j = j + 1;
    }
    if j == 15 {
        proof {
            assert forall|jj: int| !photo_digit_run_end(name@, jj) by {
                if photo_digit_run_end(name@, jj) {
                    assert(is_ascii_digit(name@[15]));
                }
            }
        }
        return None;
    }
    if j == n {
        proof {
            assert forall|jj: int| !photo_digit_run_end(name@, jj) by {
                if photo_digit_run_end(name@, jj) {
                    assert(is_ascii_digit(name@[jj]));
                }
            }
        }
        return None;
    }
    if name.get_char(j) != '.' {
        proof {
            assert forall|jj: int| !photo_digit_run_end(name@, jj) by {
                if photo_digit_run_end(name@, jj) {
                    if jj < j {
                        assert(is_ascii_digit(name@[jj]));
                    } else if jj > j {
                        assert(is_ascii_digit(name@[j as int]));
                    }
                }
            }
        }
        return None;
    }
    let mut k: usize = j + 1;
    while k < n
        invariant
            j + 1 <= k <= n,
            n == name@.len(),
            15 < j < n,
            name@[j as int] == '.',
            forall|t: int| 15 <= t < j ==> is_ascii_digit(name@[t]),
            forall|t: int| j < t < k ==> name@[t] != '\n',
        decreases n - k,
    {
        if name.get_char(k) == '\n' {
            proof {
                assert forall|jj: int| !photo_digit_run_end(name@, jj) by {
                    if photo_digit_run_end(name@, jj) {
                        if jj < j {
                            assert(is_ascii_digit(name@[jj]));
                        } else if jj > j {
                            assert(is_ascii_digit(name@[j as int]));
                        } else {
                            assert(name@[k as int] != '\n');
                        }
                    }
                }
            }
            return None;
        }
        k = k + 1;
    }
    proof {
        assert(photo_digit_run_end(name@, j as int));
        assert(photo_name_matches(name@));
        let yq = name@.subrange(4, 8);
        let mq = name@.subrange(8, 10);
        lemma_digits_val4(yq);
        lemma_digits_val2(mq);
        assert(yq[0] == name@[4] && yq[1] == name@[5] && yq[2] == name@[6] && yq[3] == name@[7]);
        assert(mq[0] == name@[8] && mq[1] == name@[9]);
    }
    Some((y, m))
}

/// What the embedded metadata holds: the first ASCII value of the
/// primary image's DateTimeOriginal field, when the container parses
/// and the field is present.  Pure parsing, so a function of the bytes
/// alone; the metadata library computes it.
pub uninterp spec fn exif_datetime_of(content: Seq<u8>) -> Option<Seq<u8>>;

/// Relies on exif::Reader::read_from_container, Exif::get_field and the
/// Value::Ascii shape: they parse the given bytes and nothing else, so
/// the DateTimeOriginal text they yield is a function of the bytes alone.
#[verifier::external_body]
fn exif_datetime_field(content: &[u8]) -> (r: Option<Vec<u8>>)
    ensures
        r matches Some(v) ==> exif_datetime_of(content@) == Some(v@),
        r is None ==> exif_datetime_of(content@) is None,
{
    let mut reader = std::io::Cursor::new(content);
    let exif = exif::Reader::new().read_from_container(&mut reader).ok()?;
    let field = exif.get_field(exif::Tag::DateTimeOriginal, exif::In::PRIMARY)?;
    match &field.value {
        exif::Value::Ascii(v) if !v.is_empty() => Some(v[0].clone()),
        _ => None,
    }
}

/// Whether DateTimeOriginal text parses: at least 19 bytes shaped
/// `YYYY:MM:DD HH:MM:SS` — separators `:`, `:`, space, `:`, `:` at the
/// fixed positions, ASCII digits everywhere else in the first 19.
pub open spec fn exif_datetime_parses(d: Seq<u8>) -> bool {
    &&& d.len() >= 19
    &&& d[4] == 58 && d[7] == 58 && d[10] == 32 && d[13] == 58 && d[16] == 58
    &&& forall|i: int|
        0 <= i < 19 && i != 4 && i != 7 && i != 10 && i != 13 && i != 16 ==> is_digit_byte(d[i])
}

/// The year in DateTimeOriginal text: its first four digits.
pub open spec fn exif_year(d: Seq<u8>) -> int {
    bytes_val(d.subrange(0, 4))
}

/// The month in DateTimeOriginal text: its digits 5 and 6.
pub open spec fn exif_month(d: Seq<u8>) -> int {
    bytes_val(d.subrange(5, 7))
}

/// Reads year and month out of DateTimeOriginal text, mirroring how the
/// metadata library parses such a field: fixed separators and six digit
/// runs, anything else malformed.
pub fn parse_exif_datetime(d: &[u8]) -> (r: Option<(u16, u8)>)
    ensures
        r is Some <==> exif_datetime_parses(d@),
        r matches Some((y, m)) ==> y as int == exif_year(d@) && m as int == exif_month(d@),
{
    if d.len() < 19 {
        return None;
    }
    if !(d[4] == 58 && d[7] == 58 && d[10] == 32 && d[13] == 58 && d[16] == 58) {
        return None;
    }
    let mut i: usize = 0;
    while i < 19
        invariant
            i <= 19,
            d@.len() >= 19,
            forall|k: int|
                0 <= k < i && k != 4 && k != 7 && k != 10 && k != 13 && k != 16 ==> is_digit_byte(
                    d@[k],
                ),
        decreases 19 - i,
    {
        if i != 4 && i != 7 && i != 10 && i != 13 && i != 16 {
            let b = d[i];
            if b < 48 || b > 57 {
                return None;
            }
        }
        i = i + 1;
    }
    let y: u16 = (d[0] - 48) as u16 * 1000 + (d[1] - 48) as u16 * 100 + (d[2] - 48) as u16 * 10 + (
    d[3] - 48) as u16;
    let m: u8 = (d[5] - 48) * 10 + (d[6] - 48);
    proof {
        let yq = d@.subrange(0, 4);
        let mq = d@.subrange(5, 7);
        lemma_bytes_val4(yq);
        lemma_bytes_val2(mq);
        assert(yq[0] == d@[0] && yq[1] == d@[1] && yq[2] == d@[2] && yq[3] == d@[3]);
        assert(mq[0] == d@[5] && mq[1] == d@[6]);
    }
    Some((y, m))
}

/// The range-valid year/month taken from the embedded metadata, if any:
/// the field must be present, parse, and fall inside the date ranges.
pub open spec fn exif_capture_ym(content: Seq<u8>) -> Option<(u16, u8)> {
    match exif_datetime_of(content) {
        Some(d) => if exif_datetime_parses(d) && 1839 <= exif_year(d) <= 3000 && 1 <= exif_month(d)
            <= 12 {
            Some((exif_year(d) as u16, exif_month(d) as u8))
        } else {
            None
        },
        None => None,
    }
}

/// Which error the embedded-metadata path reports when it yields nothing.
pub open spec fn exif_err_kind(content: Seq<u8>) -> ErrorKind {
    match exif_datetime_of(content) {
        None => ErrorKind::ExifDateMissing,
        Some(d) => if !exif_datetime_parses(d) {
            ErrorKind::ExifDateMalformed
        } else if !(1 <= exif_month(d) <= 12) {
            ErrorKind::InvalidMonth
        } else {
            ErrorKind::InvalidYear
        },
    }
}

/// The photo extensions the organizer takes, case-sensitively: the
/// asymmetric casing is the source policy, kept as it stands.
pub open spec fn photo_ext_supported(e: Seq<char>) -> bool {
    e == seq!['j', 'p', 'e', 'g'] || e == seq!['j', 'p', 'g'] || e == seq!['J', 'P', 'G']
}

/// Whether a path names a photo the organizer should take.
pub open spec fn photo_should_organize(item: Seq<char>) -> bool {
    has_extension(item) && photo_ext_supported(extension_of(item))
}

/// The filename fallback: a range-valid year/month from the WhatsApp
/// pattern on the path's file name, if it fits.
pub open spec fn photo_filename_ym(item: Seq<char>) -> Option<(u16, u8)> {
    let f = file_name_of(item);
    if photo_name_matches(f) && 1839 <= photo_year(f) <= 3000 && 1 <= photo_month(f) <= 12 {
        Some((photo_year(f) as u16, photo_month(f) as u8))
    } else {
        None
    }
}

/// Which error the filename path reports when it yields nothing.
pub open spec fn photo_filename_err_kind(item: Seq<char>) -> ErrorKind {
    let f = file_name_of(item);
    if f.len() == 0 {
        ErrorKind::MissingFileName
    } else if !photo_name_matches(f) {
        ErrorKind::FilenameWithoutDate
    } else if !(1 <= photo_month(f) <= 12) {
        ErrorKind::InvalidMonth
    } else {
        ErrorKind::InvalidYear
    }
}

/// The photo's resolved year/month: embedded metadata first, filename
/// pattern second.
pub open spec fn photo_ym(item: Seq<char>, content: Seq<u8>) -> Option<(u16, u8)> {
    if exif_capture_ym(content) is Some {
        exif_capture_ym(content)
    } else {
        photo_filename_ym(item)
    }
}

/// Where a photo goes: `root/year/MM - Month Name`, when a date resolves.
pub open spec fn photo_dest(root: Seq<char>, item: Seq<char>, content: Seq<u8>) -> Option<
    Seq<char>,
> {
    match photo_ym(item, content) {
        Some(ym) => Some(path_join(path_join(root, year_chars(ym.0)), month_label(ym.1))),
        None => None,
    }
}

/// Moves photos under a destination root, into one directory per year
/// and month of capture.
pub struct PhotoOrganizer {
    dst_dir: String,
}

impl PhotoOrganizer {
    /// The destination root this organizer files photos under.
    pub closed spec fn spec_dst_dir(&self) -> Seq<char> {
        self.dst_dir@
    }

    /// An organizer filing photos under the given destination root.
    pub fn new(dst_dir: String) -> (r: PhotoOrganizer)
        ensures
            r.spec_dst_dir() == dst_dir@,
    {
        PhotoOrganizer { dst_dir }
    }

    /// Whether an extension is one of the photo extensions, exactly:
    /// `jpeg`, `jpg` or `JPG`.
    pub fn is_supported(ext: &str) -> (r: bool)
        ensures
            r == photo_ext_supported(ext@),
    {
        proof {
            reveal_strlit("jpeg");
            reveal_strlit("jpg");
            reveal_strlit("JPG");
            assert("jpeg"@ =~= seq!['j', 'p', 'e', 'g']);
            assert("jpg"@ =~= seq!['j', 'p', 'g']);
            assert("JPG"@ =~= seq!['J', 'P', 'G']);
        }
        str_eq(ext, "jpeg") || str_eq(ext, "jpg") || str_eq(ext, "JPG")
    }

    /// Whether the path's extension marks it as a photo to organize.
    pub fn should_organize(&self, item: &str) -> (r: bool)
        ensures
            r == photo_should_organize(item@),
    {
        match extension(item) {
            Some(e) => PhotoOrganizer::is_supported(e),
            None => false,
        }
    }

    /// The capture date from the embedded metadata in `content`, or the
    /// error saying why there is none.
    pub fn date_from_exif(content: &[u8]) -> (r: Result<Date, OrgError>)
        ensures
            r is Ok <==> exif_capture_ym(content@) is Some,
            r matches Ok(d) ==> exif_capture_ym(content@) == Some((d.spec_year(), d.spec_month())),
            r matches Err(e) ==> e.kind == exif_err_kind(content@) && e.cause is None,
    {
        match exif_datetime_field(content) {
            None => Err(OrgError::new(ErrorKind::ExifDateMissing)),
            Some(text) => match parse_exif_datetime(text.as_slice()) {
                None => Err(OrgError::new(ErrorKind::ExifDateMalformed)),
                Some((y, m)) => Date::new(y, m),
            },
        }
    }

    /// The capture date from the WhatsApp-style file name, or the error
    /// saying why there is none.
    pub fn date_from_filename(&self, photo: &str) -> (r: Result<Date, OrgError>)
        ensures
            r is Ok <==> photo_filename_ym(photo@) is Some,
            r matches Ok(d) ==> photo_filename_ym(photo@) == Some((d.spec_year(), d.spec_month())),
            r matches Err(e) ==> e.kind == photo_filename_err_kind(photo@) && e.cause is None,
    {
        let f = file_name(photo);
        if f.unicode_len() == 0 {
            return Err(OrgError::new(ErrorKind::MissingFileName));
        }
        match photo_filename_date(f) {
            None => Err(OrgError::new(ErrorKind::FilenameWithoutDate)),
            Some((y, m)) => Date::new(y, m),
        }
    }

    /// The capture date: embedded metadata first, filename second; when
    /// both fail, an error chaining the two failures in that order.
    pub fn get_date(&self, photo: &str, content: &[u8]) -> (r: Result<Date, OrgError>)
        ensures
            r is Ok <==> photo_ym(photo@, content@) is Some,
            r matches Ok(d) ==> photo_ym(photo@, content@) == Some((d.spec_year(), d.spec_month())),
            r matches Err(e) ==> e.kind == ErrorKind::DateResolution && (e.cause matches Some(c1)
                && c1.kind == exif_err_kind(content@) && (c1.cause matches Some(c2) && c2.kind
                == photo_filename_err_kind(photo@) && c2.cause is None)),
    {
        match PhotoOrganizer::date_from_exif(content) {
            Ok(d) => Ok(d),
            Err(exif_err) => match self.date_from_filename(photo) {
                Ok(d) => Ok(d),
                Err(name_err) => Err(
                    OrgError::with_cause(
                        ErrorKind::DateResolution,
                        OrgError::with_cause(exif_err.kind, name_err),
                    ),
                ),
            },
        }
    }

    /// Where the photo goes: `root/year/MM - Month Name` for its
    /// resolved capture date, or the date-resolution error.
    pub fn destination_dir(&self, item: &str, content: &[u8]) -> (r: Result<String, OrgError>)
        ensures
            r is Ok <==> photo_dest(self.spec_dst_dir(), item@, content@) is Some,
            r matches Ok(p) ==> photo_dest(self.spec_dst_dir(), item@, content@) == Some(p@),
            r matches Err(e) ==> e.kind == ErrorKind::DateResolution && (e.cause matches Some(c1)
                && c1.kind == exif_err_kind(content@) && (c1.cause matches Some(c2) && c2.kind
                == photo_filename_err_kind(item@) && c2.cause is None)),
    {
        let date = match self.get_date(item, content) {
            Ok(d) => d,
            Err(e) => {
                return Err(e);
            },
        };
        let year = date.get_year();
        let month = date.get_month();
        let d1 = join_path(self.dst_dir.as_str(), year.as_str());
        Ok(join_path(d1.as_str(), month.as_str()))
    }
}

} // verus!
