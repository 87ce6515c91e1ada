use the_media_organizer::date::Date;
use the_media_organizer::errors::ErrorKind;

#[test]
fn date_new_accepts_whole_ranges() {
    let mut year: u16 = 1839;
    while year <= 3000 {
        assert!(Date::new(year, 1).is_ok());
        assert!(Date::new(year, 12).is_ok());
        year += 1;
    }
    let mut month: u8 = 1;
    while month <= 12 {
        assert!(Date::new(1839, month).is_ok());
        assert!(Date::new(3000, month).is_ok());
        month += 1;
    }
}

#[test]
fn date_new_rejects_out_of_range() {
    assert!(matches!(Date::new(1838, 5), Err(e) if e.kind == ErrorKind::InvalidYear));
    assert!(matches!(Date::new(3001, 5), Err(e) if e.kind == ErrorKind::InvalidYear));
    assert!(matches!(Date::new(0, 5), Err(e) if e.kind == ErrorKind::InvalidYear));
    assert!(matches!(Date::new(2020, 0), Err(e) if e.kind == ErrorKind::InvalidMonth));
    assert!(matches!(Date::new(2020, 13), Err(e) if e.kind == ErrorKind::InvalidMonth));
    // the month is checked first
    assert!(matches!(Date::new(1838, 0), Err(e) if e.kind == ErrorKind::InvalidMonth));
}

#[test]
fn month_labels_are_the_fixed_table() {
    let labels = [
        "01 - January",
        "02 - February",
        "03 - March",
        "04 - April",
        "05 - May",
        "06 - June",
        "07 - July",
        "08 - August",
        "09 - September",
        "10 - October",
        "11 - November",
        "12 - December",
    ];
    let mut month: u8 = 1;
    while month <= 12 {
        let date = Date::new(2000, month).unwrap();
        assert_eq!(date.get_month(), labels[(month - 1) as usize]);
        month += 1;
    }
}

#[test]
fn month_labels_are_pairwise_distinct() {
    let mut a: u8 = 1;
    while a <= 12 {
        let mut b: u8 = 1;
        while b <= 12 {
            let la = Date::new(2000, a).unwrap().get_month();
            let lb = Date::new(2000, b).unwrap().get_month();
            assert_eq!(a == b, la == lb);
            b += 1;
        }
        a += 1;
    }
}

#[test]
fn year_comes_back_as_plain_decimal() {
    assert_eq!(Date::new(1839, 1).unwrap().get_year(), "1839");
    assert_eq!(Date::new(2020, 6).unwrap().get_year(), "2020");
    assert_eq!(Date::new(3000, 12).unwrap().get_year(), "3000");
}
