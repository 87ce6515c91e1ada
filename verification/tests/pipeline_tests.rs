use std::collections::HashMap;

use the_media_organizer::directory::{EntryKind, FilesIter};
use the_media_organizer::errors::ErrorKind;
use the_media_organizer::organizer::photos::PhotoOrganizer;
use the_media_organizer::organizer::videos::VideoOrganizer;
use the_media_organizer::organizer::{MediaTypeOrganizer, Organizer};

/// A minimal little-endian TIFF whose Exif IFD holds one
/// DateTimeOriginal field with the given 19-byte text.
fn tiff_datetime(text: &[u8]) -> Vec<u8> {
    assert_eq!(text.len(), 19);
    let mut buf: Vec<u8> = Vec::new();
    buf.extend_from_slice(&[0x49, 0x49, 0x2A, 0x00, 8, 0, 0, 0]);
    buf.extend_from_slice(&[1, 0]);
    buf.extend_from_slice(&[0x69, 0x87, 4, 0, 1, 0, 0, 0, 26, 0, 0, 0]);
    buf.extend_from_slice(&[0, 0, 0, 0]);
    buf.extend_from_slice(&[1, 0]);
    buf.extend_from_slice(&[0x03, 0x90, 2, 0, 20, 0, 0, 0, 44, 0, 0, 0]);
    buf.extend_from_slice(&[0, 0, 0, 0]);
    buf.extend_from_slice(text);
    buf.push(0);
    buf
}

/// An in-memory tree: directories list their entries, files carry bytes.
struct FakeTree {
    dirs: HashMap<String, Vec<(String, EntryKind)>>,
    files: HashMap<String, Vec<u8>>,
}

impl FakeTree {
    fn new() -> FakeTree {
        FakeTree { dirs: HashMap::new(), files: HashMap::new() }
    }

    fn add_dir(&mut self, path: &str) {
        self.dirs.entry(path.to_string()).or_insert_with(Vec::new);
    }

    fn add_entry(&mut self, dir: &str, path: &str, kind: EntryKind) {
        self.dirs.entry(dir.to_string()).or_insert_with(Vec::new).push((path.to_string(), kind));
    }

    fn add_file(&mut self, dir: &str, path: &str, content: Vec<u8>) {
        self.add_entry(dir, path, EntryKind::File);
        self.files.insert(path.to_string(), content);
    }
}

/// Runs the organizer over the fake tree the way the surrounding
/// program would: enumerate, dispatch, move without overwriting.
fn organize(tree: &mut FakeTree, organizer: &Organizer, root: &str) {
    let mut iter = FilesIter::new(root.to_string());
    loop {
        if let Some(file) = iter.pop_file() {
            let content = tree.files.get(&file).cloned().unwrap_or_default();
            let mut from = 0;
            loop {
                let (hit, _errors) = organizer.next_destination(from, &file, &content);
                match hit {
                    None => break,
                    Some((i, dst_dir)) => {
                        match Organizer::move_destination(&file, &dst_dir) {
                            Err(_) => {
                                from = i + 1;
                                continue;
                            }
                            Ok(dst_path) => {
                                let exists = tree.files.contains_key(&dst_path);
                                match Organizer::check_destination(exists) {
                                    Err(_) => {
                                        from = i + 1;
                                        continue;
                                    }
                                    Ok(()) => {
                                        let bytes = tree.files.remove(&file).unwrap_or_default();
                                        tree.files.insert(dst_path, bytes);
                                        break;
                                    }
                                }
                            }
                        }
                    }
                }
            }
            continue;
        }
        if let Some(dir) = iter.pop_dir() {
            if let Some(entries) = tree.dirs.get(&dir).cloned() {
                for (path, kind) in entries {
                    iter.record_entry(path, kind);
                }
            }
            continue;
        }
        break;
    }
}

fn two_organizers(photos_dst: &str, videos_dst: &str) -> Organizer {
    Organizer::new(vec![
        MediaTypeOrganizer::Photo(PhotoOrganizer::new(photos_dst.to_string())),
        MediaTypeOrganizer::Video(VideoOrganizer::new(videos_dst.to_string())),
    ])
}

#[test]
fn organize_moves_all_three_media_files() {
    let mut tree = FakeTree::new();
    tree.add_dir("src");
    tree.add_file("src", "src/camera.jpg", tiff_datetime(b"2019:01:04 13:21:55"));
    tree.add_entry("src", "src/sub_dir", EntryKind::Directory);
    tree.add_file("src/sub_dir", "src/sub_dir/IMG-20200407-WA0004.jpg", Vec::new());
    tree.add_entry("src/sub_dir", "src/sub_dir/sub_dir", EntryKind::Directory);
    tree.add_file("src/sub_dir/sub_dir", "src/sub_dir/sub_dir/20200829_205420.mp4", Vec::new());

    let organizer = two_organizers("dst", "dst");
    organize(&mut tree, &organizer, "src");

    assert!(tree.files.contains_key("dst/2019/01 - January/camera.jpg"));
    assert!(tree.files.contains_key("dst/2020/04 - April/IMG-20200407-WA0004.jpg"));
    assert!(tree.files.contains_key("dst/2020/20200829_205420.mp4"));
    assert!(!tree.files.contains_key("src/camera.jpg"));
    assert!(!tree.files.contains_key("src/sub_dir/IMG-20200407-WA0004.jpg"));
    assert!(!tree.files.contains_key("src/sub_dir/sub_dir/20200829_205420.mp4"));
}

#[test]
fn existing_destination_file_is_never_overwritten() {
    let mut tree = FakeTree::new();
    tree.add_dir("src");
    tree.add_file("src", "src/20200829_205420.mp4", vec![1, 2, 3]);
    tree.files.insert("videos/2020/20200829_205420.mp4".to_string(), vec![9]);

    let organizer = Organizer::new(vec![MediaTypeOrganizer::Video(VideoOrganizer::new(
        "videos".to_string(),
    ))]);
    organize(&mut tree, &organizer, "src");

    // the source file stays, the destination file keeps its bytes
    assert_eq!(tree.files.get("src/20200829_205420.mp4"), Some(&vec![1, 2, 3]));
    assert_eq!(tree.files.get("videos/2020/20200829_205420.mp4"), Some(&vec![9]));
}

#[test]
fn conflict_check_refuses_existing_destinations() {
    assert!(Organizer::check_destination(false).is_ok());
    let err = Organizer::check_destination(true).unwrap_err();
    assert_eq!(err.kind, ErrorKind::DestinationConflict);
}

#[test]
fn move_destination_appends_the_file_name() {
    assert_eq!(Organizer::move_destination("src/a/b.jpg", "dst/2020").unwrap(), "dst/2020/b.jpg");
    let err = Organizer::move_destination("src/a/", "dst").unwrap_err();
    assert_eq!(err.kind, ErrorKind::MissingFileName);
}

#[test]
fn symlinked_entries_are_never_yielded() {
    let mut iter = FilesIter::new("src".to_string());
    assert_eq!(iter.pop_dir(), Some("src".to_string()));
    iter.record_entry("src/link.jpg".to_string(), EntryKind::Symlink);
    iter.record_entry("src/linked_dir".to_string(), EntryKind::Symlink);
    iter.record_entry("src/real.jpg".to_string(), EntryKind::File);
    iter.record_entry("src/socket".to_string(), EntryKind::Other);
    assert_eq!(iter.pop_file(), Some("src/real.jpg".to_string()));
    assert_eq!(iter.pop_file(), None);
    assert_eq!(iter.pop_dir(), None);
    assert!(iter.is_done());
}

#[test]
fn traversal_reaches_nested_directories() {
    let mut tree = FakeTree::new();
    tree.add_dir("src");
    tree.add_entry("src", "src/dir", EntryKind::Directory);
    tree.add_file("src", "src/file1.png", Vec::new());
    tree.add_file("src/dir", "src/dir/file2.png", Vec::new());

    let mut iter = FilesIter::new("src".to_string());
    let mut seen: Vec<String> = Vec::new();
    loop {
        if let Some(f) = iter.pop_file() {
            seen.push(f);
            continue;
        }
        if let Some(d) = iter.pop_dir() {
            if let Some(entries) = tree.dirs.get(&d).cloned() {
                for (path, kind) in entries {
                    iter.record_entry(path, kind);
                }
            }
            continue;
        }
        break;
    }
    seen.sort();
    assert_eq!(seen, vec!["src/dir/file2.png".to_string(), "src/file1.png".to_string()]);
}

#[test]
fn first_applicable_organizer_wins() {
    let organizer = Organizer::new(vec![
        MediaTypeOrganizer::Photo(PhotoOrganizer::new("first".to_string())),
        MediaTypeOrganizer::Photo(PhotoOrganizer::new("second".to_string())),
    ]);
    let (hit, errors) = organizer.next_destination(0, "src/IMG-20200407-WA0004.jpg", &[]);
    let (i, dest) = hit.unwrap();
    assert_eq!(i, 0);
    assert_eq!(dest, "first/2020/04 - April");
    assert!(errors.is_empty());

    // after the first, the second one applies
    let (hit, errors) = organizer.next_destination(1, "src/IMG-20200407-WA0004.jpg", &[]);
    assert_eq!(hit.unwrap(), (1, "second/2020/04 - April".to_string()));
    assert!(errors.is_empty());
}

#[test]
fn failing_organizers_are_passed_over_with_their_errors() {
    let organizer = two_organizers("photos", "videos");
    // a photo without any date: the photo organizer takes it and fails,
    // the video organizer never takes it
    let (hit, errors) = organizer.next_destination(0, "src/plain.jpg", &[]);
    assert!(hit.is_none());
    assert_eq!(errors.len(), 1);
    assert_eq!(errors[0].kind, ErrorKind::DateResolution);

    // a file neither takes
    let (hit, errors) = organizer.next_destination(0, "src/notes.doc", &[]);
    assert!(hit.is_none());
    assert!(errors.is_empty());
}
