use the_media_organizer::errors::ErrorKind;
use the_media_organizer::organizer::videos::{video_filename_date, VideoOrganizer};

#[test]
fn videos_should_organize() {
    let organizer = VideoOrganizer::new(String::new());
    for extension in ["mp4"].iter() {
        assert!(organizer.should_organize(&format!("file.{}", extension)));
    }
}

#[test]
fn videos_should_not_organize() {
    let organizer = VideoOrganizer::new(String::new());
    let extensions = vec!["jpg", "doc", ""];
    for extension in extensions.iter() {
        assert!(!organizer.should_organize(&format!("file.{}", extension)));
    }
}

#[test]
fn dated_video_names_parse() {
    assert_eq!(video_filename_date("20200829_205420.mp4"), Some((2020, 8)));
    assert_eq!(video_filename_date("20200829-abc.mp4"), Some((2020, 8)));
    assert_eq!(video_filename_date("VID-20200829_205420.mp4"), Some((2020, 8)));
    assert_eq!(video_filename_date("VID_20200829-a.mp4"), Some((2020, 8)));
}

#[test]
fn undated_video_names_do_not_parse() {
    assert_eq!(video_filename_date("20200829.mp4"), None);
    assert_eq!(video_filename_date("20200829_.mp4"), None);
    assert_eq!(video_filename_date("2020082_9.mp4"), None);
    assert_eq!(video_filename_date("20200829_205420.mp3"), None);
    assert_eq!(video_filename_date("VID-20200829_a\nb.mp4"), None);
    assert_eq!(video_filename_date("movie.mp4"), None);
    assert_eq!(video_filename_date(""), None);
}

#[test]
fn video_pattern_agrees_with_the_regex() {
    let re = regex::Regex::new(r"^(?:VID[-_])?(\d{4})(\d{2})\d{2}[_-].+\.mp4$").unwrap();
    let samples = [
        "20200829_205420.mp4",
        "VID-20200829_205420.mp4",
        "VID_20200829-a.mp4",
        "VID20200829-a.mp4",
        "20200829.mp4",
        "20200829_.mp4",
        "20200829_a.mp3",
        "20200829_a.mp4x",
        "20200829_a\n.mp4",
        "VIDEO-20200829_a.mp4",
        "x20200829_a.mp4",
        "",
    ];
    for name in samples.iter() {
        let mine = video_filename_date(name);
        match re.captures(name) {
            Some(c) => {
                let year: u16 = c.get(1).unwrap().as_str().parse().unwrap();
                let month: u8 = c.get(2).unwrap().as_str().parse().unwrap();
                assert_eq!(mine, Some((year, month)), "on {:?}", name);
            }
            None => assert_eq!(mine, None, "on {:?}", name),
        }
    }
}

#[test]
fn video_destination_is_the_year_directory() {
    let organizer = VideoOrganizer::new(String::from("videos"));
    let dest = organizer.destination_dir("src/sub_dir/20200829_205420.mp4").unwrap();
    assert_eq!(dest, "videos/2020");
}

#[test]
fn video_out_of_range_month_is_rejected() {
    let organizer = VideoOrganizer::new(String::from("videos"));
    let err = organizer.destination_dir("src/20201329_1x.mp4").unwrap_err();
    assert_eq!(err.kind, ErrorKind::InvalidMonth);
}

#[test]
fn video_without_date_reports_the_filename_error() {
    let organizer = VideoOrganizer::new(String::from("videos"));
    let err = organizer.destination_dir("src/movie.mp4").unwrap_err();
    assert_eq!(err.kind, ErrorKind::FilenameWithoutDate);
}
