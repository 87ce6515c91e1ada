//! A validated capture date: a year/month pair inside fixed ranges.
//!
//! A `Date` can only be built through the validating factory, so every
//! value in existence is range-valid.  The components come back as
//! strings: the year in plain decimal, the month as `MM - Month Name`.

use vstd::prelude::*;

use crate::errors::{ErrorKind, OrgError};

verus! {

/// Years a camera could plausibly have stamped: photography starts in 1839.
pub open spec fn valid_year(year: u16) -> bool {
    1839 <= year <= 3000
}

/// Calendar months.
pub open spec fn valid_month(month: u8) -> bool {
    1 <= month <= 12
}

/// The character for a single decimal digit.
pub open spec fn digit_char(d: int) -> char {
    if d == 0 {
        '0'
    } else if d == 1 {
        '1'
    } else if d == 2 {
        '2'
    } else if d == 3 {
        '3'
    } else if d == 4 {
        '4'
    } else if d == 5 {
        '5'
    } else if d == 6 {
        '6'
    } else if d == 7 {
        '7'
    } else if d == 8 {
        '8'
    } else {
        '9'
    }
}

/// The four decimal digits of a year below 10000, most significant first.
pub open spec fn year_chars(year: u16) -> Seq<char> {
    seq![
        digit_char(year as int / 1000),
        digit_char((year as int / 100) % 10),
        digit_char((year as int / 10) % 10),
        digit_char(year as int % 10),
    ]
}

/// The fixed label for each month, `MM - Month Name`; anything outside
/// 1..=12 maps to the empty label.
pub open spec fn month_label(month: u8) -> Seq<char> {
    match month {
        1u8 => "01 - January"@,
        2u8 => "02 - February"@,
        3u8 => "03 - March"@,
        4u8 => "04 - April"@,
        5u8 => "05 - May"@,
        6u8 => "06 - June"@,
        7u8 => "07 - July"@,
        8u8 => "08 - August"@,
        9u8 => "09 - September"@,
        10u8 => "10 - October"@,
        11u8 => "11 - November"@,
        12u8 => "12 - December"@,
        _ => ""@,
    }
}

/// A simple date that only contains the year and month, both range-valid.
#[derive(Debug)]
pub struct Date {
    year: u16,
    month: u8,
}

impl Date {
    /// Every `Date` in existence satisfies this: the factory refuses
    /// anything outside the ranges.
    #[verifier::type_invariant]
    pub closed spec fn wf(&self) -> bool {
        valid_year(self.year) && valid_month(self.month)
    }

    /// The stored year.
    pub closed spec fn spec_year(&self) -> u16 {
        self.year
    }

    /// The stored month.
    pub closed spec fn spec_month(&self) -> u8 {
        self.month
    }

    /// Validating factory: succeeds exactly on a year in 1839..=3000 and
    /// a month in 1..=12; the month is checked first.
    pub fn new(year: u16, month: u8) -> (r: Result<Date, OrgError>)
        ensures
            r is Ok <==> valid_year(year) && valid_month(month),
            r matches Ok(d) ==> d.spec_year() == year && d.spec_month() == month,
            r matches Err(e) ==> e.cause is None && e.kind == (if !valid_month(month) {
                ErrorKind::InvalidMonth
            } else {
                ErrorKind::InvalidYear
            }),
    {
        if month < 1 || month > 12 {
            return Err(OrgError::new(ErrorKind::InvalidMonth));
        }
        if year < 1839 || year > 3000 {
            return Err(OrgError::new(ErrorKind::InvalidYear));
        }
        Ok(Date { year, month })
    }

    /// The month's fixed `MM - Month Name` label.
    pub fn get_month(&self) -> (r: String)
        ensures
            r@ == month_label(self.spec_month()),
    {
        match self.month {
            1u8 => String::from_str("01 - January"),
            2u8 => String::from_str("02 - February"),
            3u8 => String::from_str("03 - March"),
            4u8 => String::from_str("04 - April"),
            5u8 => String::from_str("05 - May"),
            6u8 => String::from_str("06 - June"),
            7u8 => String::from_str("07 - July"),
            8u8 => String::from_str("08 - August"),
            9u8 => String::from_str("09 - September"),
            10u8 => String::from_str("10 - October"),
            11u8 => String::from_str("11 - November"),
            12u8 => String::from_str("12 - December"),
            _ => String::from_str(""),
        }
    }

    /// The year as a plain four-digit decimal string.
    pub fn get_year(&self) -> (r: String)
        ensures
            r@ == year_chars(self.spec_year()),
    {
        proof {
            use_type_invariant(self);
        }
        let y = self.year;
        let mut s = String::new();
        s.append(digit_str((y / 1000) as u8));
        s.append(digit_str(((y / 100) % 10) as u8));
        s.append(digit_str(((y / 10) % 10) as u8));
        s.append(digit_str((y % 10) as u8));
        proof {
            assert(s@ =~= year_chars(self.spec_year()));
        }
        s
    }
}

/// The one-character string for a single decimal digit.
fn digit_str(d: u8) -> (s: &'static str)
    requires
        d < 10,
    ensures
        s@ =~= seq![digit_char(d as int)],
{
    proof {
        reveal_strlit("0");
        reveal_strlit("1");
        reveal_strlit("2");
        reveal_strlit("3");
        reveal_strlit("4");
        reveal_strlit("5");
        reveal_strlit("6");
        reveal_strlit("7");
        reveal_strlit("8");
        reveal_strlit("9");
    }
    match d {
        0u8 => "0",
        1u8 => "1",
        2u8 => "2",
        3u8 => "3",
        4u8 => "4",
        5u8 => "5",
        6u8 => "6",
        7u8 => "7",
        8u8 => "8",
        _ => "9",
    }
}

/// The month labels form a fixed bijection on 1..=12: valid months get
/// pairwise distinct non-empty labels, and every other input gets the
/// empty label.
pub proof fn lemma_month_label_bijective(a: u8, b: u8)
    ensures
        valid_month(a) ==> month_label(a).len() > 0,
        !valid_month(a) ==> month_label(a) =~= Seq::<char>::empty(),
        valid_month(a) && valid_month(b) && month_label(a) == month_label(b) ==> a == b,
{
    reveal_strlit("01 - January");
    reveal_strlit("02 - February");
    reveal_strlit("03 - March");
    reveal_strlit("04 - April");
    reveal_strlit("05 - May");
    reveal_strlit("06 - June");
    reveal_strlit("07 - July");
    reveal_strlit("08 - August");
    reveal_strlit("09 - September");
    reveal_strlit("10 - October");
    reveal_strlit("11 - November");
    reveal_strlit("12 - December");
    reveal_strlit("");
    if valid_month(a) && valid_month(b) && month_label(a) == month_label(b) {
        assert(month_label(a)[0] == month_label(b)[0]);
        assert(month_label(a)[1] == month_label(b)[1]);
        assert(a == b);
    }
}

} // verus!
