//! Organizes videos into one directory per year.
//!
//! The year is taken from the file name, shaped `VID-YYYYMMDD-whatever.mp4`
//! where the `VID-` prefix is optional and `-` may be `_`.  Digits here
//! are the ASCII digits.  Video containers are never inspected: filename
//! only, by design.

use vstd::prelude::*;

use crate::date::{year_chars, Date};
use crate::errors::{ErrorKind, OrgError};
use crate::paths::{extension, extension_of, file_name, file_name_of, has_extension, join_path,
    path_join, str_eq};
use crate::patterns::{digit_at, digit_value, digits_val, is_ascii_digit, lemma_digits_val2,
    lemma_digits_val4};

verus! {

/// Whether the name starts with the optional `VID-` or `VID_` prefix.
pub open spec fn vid_prefixed(f: Seq<char>) -> bool {
    f.len() >= 4 && f[0] == 'V' && f[1] == 'I' && f[2] == 'D' && (f[3] == '-' || f[3] == '_')
}

/// The name with its `VID-`/`VID_` prefix stripped, when it has one.
pub open spec fn video_tail(f: Seq<char>) -> Seq<char> {
    if vid_prefixed(f) {
        f.subrange(4, f.len() as int)
    } else {
        f
    }
}

/// Whether a (prefix-stripped) name has the date shape: eight date
/// digits, a `-` or `_`, at least one further character free of
/// newlines, and the literal `.mp4` at the end.
pub open spec fn video_tail_matches(t: Seq<char>) -> bool {
    &&& t.len() >= 14
    &&& forall|k: int| 0 <= k < 8 ==> is_ascii_digit(t[k])
    &&& t[8] == '_' || t[8] == '-'
    &&& t[t.len() - 4] == '.' && t[t.len() - 3] == 'm' && t[t.len() - 2] == 'p' && t[t.len() - 1]
        == '4'
    &&& forall|k: int| 9 <= k < t.len() - 4 ==> t[k] != '\n'
}

/// Whether a file name carries a video date.
pub open spec fn video_name_matches(f: Seq<char>) -> bool {
    video_tail_matches(video_tail(f))
}

/// The year the name carries: the first four digits of its tail.
pub open spec fn video_year(f: Seq<char>) -> int {
    digits_val(video_tail(f).subrange(0, 4))
}

/// The month the name carries: digits four and five of its tail.
pub open spec fn video_month(f: Seq<char>) -> int {
    digits_val(video_tail(f).subrange(4, 6))
}

/// Reads the year and month out of a dated video file name, or `None`
/// when the name does not have that shape.
pub fn video_filename_date(name: &str) -> (r: Option<(u16, u8)>)
    ensures
        r is Some <==> video_name_matches(name@),
        r matches Some((y, m)) ==> y as int == video_year(name@) && m as int == video_month(name@),
{
    let n = name.unicode_len();
    let has_prefix = n >= 4 && name.get_char(0) == 'V' && name.get_char(1) == 'I' && name.get_char(
        2,
    ) == 'D' && (name.get_char(3) == '-' || name.get_char(3) == '_');
    let off: usize = if has_prefix {
        4
    } else {
        0
    };
    let ghost t = video_tail(name@);
    proof {
        assert(has_prefix == vid_prefixed(name@));
        assert(t.len() == n - off);
        assert(forall|k: int| 0 <= k < t.len() ==> t[k] == name@[off + k]);
    }
    if n - off < 14 {
        return None;
    }
    let mut i: usize = 0;
    while i < 8
        invariant
            i <= 8,
            n == name@.len(),
            off + 14 <= n,
            off == 0 || off == 4,
            t == video_tail(name@),
            t.len() == n - off,
            forall|k: int| 0 <= k < t.len() ==> t[k] == name@[off + k],
            forall|k: int| 0 <= k < i ==> is_ascii_digit(t[k]),
        decreases 8 - i,
    {
        if digit_value(name.get_char(off + i)).is_none() {
            proof {
                assert(t[i as int] == name@[off + i]);
                assert(!video_tail_matches(t));
            }
            return None;
        }
        i = i + 1;
    }
    proof {
        assert forall|k: int| off <= k < off + 8 implies #[trigger] is_ascii_digit(name@[k]) by {
            assert(t[k - off] == name@[k]);
        }
    }
    let y0 = digit_at(name, off);
    let y1 = digit_at(name, off + 1);
    let y2 = digit_at(name, off + 2);
    let y3 = digit_at(name, off + 3);
    let m0 = digit_at(name, off + 4);
    let m1 = digit_at(name, off + 5);
    let y: u16 = (y0 as u16) * 1000 + (y1 as u16) * 100 + (y2 as u16) * 10 + (y3 as u16);
    let m: u8 = m0 * 10 + m1;
    let sep = name.get_char(off + 8);
    if !(sep == '_' || sep == '-') {
        proof {
            assert(t[8] == name@[off + 8]);
            assert(!video_tail_matches(t));
        }
        return None;
    }
    if !(name.get_char(n - 4) == '.' && name.get_char(n - 3) == 'm' && name.get_char(n - 2) == 'p'
        && name.get_char(n - 1) == '4') {
        proof {
            assert(t[t.len() - 4] == name@[n - 4] && t[t.len() - 3] == name@[n - 3] && t[t.len()
                - 2] == name@[n - 2] && t[t.len() - 1] == name@[n - 1]);
            assert(!video_tail_matches(t));
        }
        return None;
    }
    let mut k: usize = off + 9;
    while k < n - 4
        invariant
            off + 9 <= k <= n - 4,
            n == name@.len(),
            off + 14 <= n,
            off == 0 || off == 4,
            t == video_tail(name@),
            t.len() == n - off,
            forall|j: int| 0 <= j < t.len() ==> t[j] == name@[off + j],
            forall|j: int| off + 9 <= j < k ==> name@[j] != '\n',
        decreases n - k,
    {
        if name.get_char(k) == '\n' {
            proof {
                assert(t[k - off] == name@[k as int]);
                assert(!video_tail_matches(t));
            }
            return None;
        }
        k = k + 1;
    }
    proof {
        assert forall|j: int| 9 <= j < t.len() - 4 implies t[j] != '\n' by {
            assert(t[j] == name@[off + j]);
        }
        assert(t[t.len() - 4] == name@[n - 4] && t[t.len() - 3] == name@[n - 3] && t[t.len() - 2]
            == name@[n - 2] && t[t.len() - 1] == name@[n - 1]);
        assert(video_tail_matches(t));
        let yq = t.subrange(0, 4);
        let mq = t.subrange(4, 6);
        lemma_digits_val4(yq);
        lemma_digits_val2(mq);
        assert(yq[0] == t[0] && yq[1] == t[1] && yq[2] == t[2] && yq[3] == t[3]);
        assert(mq[0] == t[4] && mq[1] == t[5]);
        assert(t[0] == name@[off as int] && t[1] == name@[off + 1] && t[2] == name@[off + 2] && t[3]
            == name@[off + 3] && t[4] == name@[off + 4] && t[5] == name@[off + 5]);
    }
    Some((y, m))
}

/// The one video extension the organizer takes.
pub open spec fn video_ext_supported(e: Seq<char>) -> bool {
    e == seq!['m', 'p', '4']
}

/// Whether a path names a video the organizer should take.
pub open spec fn video_should_organize(item: Seq<char>) -> bool {
    has_extension(item) && video_ext_supported(extension_of(item))
}

/// The range-valid year/month from the video file name, if it fits.
pub open spec fn video_filename_ym(item: Seq<char>) -> Option<(u16, u8)> {
    let f = file_name_of(item);
    if video_name_matches(f) && 1839 <= video_year(f) <= 3000 && 1 <= video_month(f) <= 12 {
        Some((video_year(f) as u16, video_month(f) as u8))
    } else {
        None
    }
}

/// Which error the video date derivation reports when it yields nothing.
pub open spec fn video_err_kind(item: Seq<char>) -> ErrorKind {
    let f = file_name_of(item);
    if f.len() == 0 {
        ErrorKind::MissingFileName
    } else if !video_name_matches(f) {
        ErrorKind::FilenameWithoutDate
    } else if !(1 <= video_month(f) <= 12) {
        ErrorKind::InvalidMonth
    } else {
        ErrorKind::InvalidYear
    }
}

/// Where a video goes: `root/year` — no month subdirectory.
pub open spec fn video_dest(root: Seq<char>, item: Seq<char>) -> Option<Seq<char>> {
    match video_filename_ym(item) {
        Some(ym) => Some(path_join(root, year_chars(ym.0))),
        None => None,
    }
}

/// Moves videos under a destination root, into one directory per year
/// of capture.
pub struct VideoOrganizer {
    dst_dir: String,
}

impl VideoOrganizer {
    /// The destination root this organizer files videos under.
    pub closed spec fn spec_dst_dir(&self) -> Seq<char> {
        self.dst_dir@
    }

    /// An organizer filing videos under the given destination root.
    pub fn new(dst_dir: String) -> (r: VideoOrganizer)
        ensures
            r.spec_dst_dir() == dst_dir@,
    {
        VideoOrganizer { dst_dir }
    }

    /// Whether an extension is the video extension, exactly `mp4`.
    pub fn is_supported(ext: &str) -> (r: bool)
        ensures
            r == video_ext_supported(ext@),
    {
        proof {
            reveal_strlit("mp4");
            assert("mp4"@ =~= seq!['m', 'p', '4']);
        }
        str_eq(ext, "mp4")
    }

    /// Whether the path's extension marks it as a video to organize.
    pub fn should_organize(&self, item: &str) -> (r: bool)
        ensures
            r == video_should_organize(item@),
    {
        match extension(item) {
            Some(e) => VideoOrganizer::is_supported(e),
            None => false,
        }
    }

    /// The capture date from the video's file name, or the error saying
    /// why there is none.
    pub fn get_date(&self, video: &str) -> (r: Result<Date, OrgError>)
        ensures
            r is Ok <==> video_filename_ym(video@) is Some,
            r matches Ok(d) ==> video_filename_ym(video@) == Some((d.spec_year(), d.spec_month())),
            r matches Err(e) ==> e.kind == video_err_kind(video@) && e.cause is None,
    {
        let f = file_name(video);
        if f.unicode_len() == 0 {
            return Err(OrgError::new(ErrorKind::MissingFileName));
        }
        match video_filename_date(f) {
            None => Err(OrgError::new(ErrorKind::FilenameWithoutDate)),
            Some((y, m)) => Date::new(y, m),
        }
    }

    /// Where the video goes: `root/year` for its filename date, or the
    /// error saying why no date resolved.
    pub fn destination_dir(&self, item: &str) -> (r: Result<String, OrgError>)
        ensures
            r is Ok <==> video_dest(self.spec_dst_dir(), item@) is Some,
            r matches Ok(p) ==> video_dest(self.spec_dst_dir(), item@) == Some(p@),
            r matches Err(e) ==> e.kind == video_err_kind(item@),
    {
        let date = match self.get_date(item) {
            Ok(d) => d,
            Err(e) => {
                return Err(e);
            },
        };
        let year = date.get_year();
        Ok(join_path(self.dst_dir.as_str(), year.as_str()))
    }
}

} // verus!
