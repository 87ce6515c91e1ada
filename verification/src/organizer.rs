//! The dispatch pipeline: for every enumerated file the registered
//! media-type organizers are tried in order; the first that takes the
//! file and derives a destination wins.  Per-file failures never abort
//! a run — they are handed back for logging and the next organizer is
//! tried.

pub mod photos;
pub mod videos;

use vstd::prelude::*;

use crate::errors::{ErrorKind, OrgError};
use crate::paths::{file_name, file_name_of, join_path, path_join};
use photos::{photo_dest, photo_should_organize, PhotoOrganizer};
use videos::{video_dest, video_err_kind, video_should_organize, VideoOrganizer};

verus! {

/// A media-type organizer: it decides whether a file is its kind of
/// media and where the file belongs.  The known variants as a tagged
/// set, tried by the dispatcher in registration order.
pub enum MediaTypeOrganizer {
    Photo(PhotoOrganizer),
    Video(VideoOrganizer),
}

impl MediaTypeOrganizer {
    /// Whether this organizer takes the file.
    pub open spec fn spec_should_organize(&self, item: Seq<char>) -> bool {
        match self {
            MediaTypeOrganizer::Photo(p) => photo_should_organize(item),
            MediaTypeOrganizer::Video(v) => video_should_organize(item),
        }
    }

    /// The destination this organizer derives for the file, or `None`
    /// when its date derivation fails.
    pub open spec fn spec_destination(&self, item: Seq<char>, content: Seq<u8>) -> Option<
        Seq<char>,
    > {
        match self {
            MediaTypeOrganizer::Photo(p) => photo_dest(p.spec_dst_dir(), item, content),
            MediaTypeOrganizer::Video(v) => video_dest(v.spec_dst_dir(), item),
        }
    }

    /// The error kind this organizer reports when its date derivation
    /// fails.
    pub open spec fn spec_error_kind(&self, item: Seq<char>, content: Seq<u8>) -> ErrorKind {
        match self {
            MediaTypeOrganizer::Photo(p) => ErrorKind::DateResolution,
            MediaTypeOrganizer::Video(v) => video_err_kind(item),
        }
    }

    /// If the media file should be organized.
    pub fn should_organize(&self, item: &str) -> (r: bool)
        ensures
            r == self.spec_should_organize(item@),
    {
        match self {
            MediaTypeOrganizer::Photo(p) => p.should_organize(item),
            MediaTypeOrganizer::Video(v) => v.should_organize(item),
        }
    }

    /// Destination directory where the media file should be moved to.
    /// `content` holds the file's bytes for embedded-metadata reads; a
    /// video destination never looks at it.
    pub fn destination_dir(&self, item: &str, content: &[u8]) -> (r: Result<String, OrgError>)
        ensures
            r is Ok <==> self.spec_destination(item@, content@) is Some,
            r matches Ok(p) ==> self.spec_destination(item@, content@) == Some(p@),
            r matches Err(e) ==> e.kind == self.spec_error_kind(item@, content@),
    {
        match self {
            MediaTypeOrganizer::Photo(p) => p.destination_dir(item, content),
            MediaTypeOrganizer::Video(v) => v.destination_dir(item),
        }
    }
}

/// Organizes files by applying the contained media-type organizers.
pub struct Organizer {
    media_type_organizers: Vec<MediaTypeOrganizer>,
}

impl Organizer {
    /// The registered organizers, in registration order.
    pub closed spec fn spec_organizers(&self) -> Seq<MediaTypeOrganizer> {
        self.media_type_organizers@
    }

    /// A dispatcher applying the given organizers, in this order.
    pub fn new(media_type_organizers: Vec<MediaTypeOrganizer>) -> (r: Organizer)
        ensures
            r.spec_organizers() == media_type_organizers@,
    {
        Organizer { media_type_organizers }
    }

    /// Whether organizer `i` both takes the file and derives a
    /// destination for it.
    pub open spec fn spec_applies(&self, i: int, item: Seq<char>, content: Seq<u8>) -> bool {
        &&& self.spec_organizers()[i].spec_should_organize(item)
        &&& self.spec_organizers()[i].spec_destination(item, content) is Some
    }

    /// The first organizer at index `from` or later that takes the file
    /// and derives a destination, with that destination; `None` when no
    /// remaining organizer applies.  The returned errors are those of
    /// the organizers tried before it that took the file but failed to
    /// derive a destination — the caller logs them and the run goes on.
    pub fn next_destination(&self, from: usize, item: &str, content: &[u8]) -> (r: (
        Option<(usize, String)>,
        Vec<OrgError>,
    ))
        ensures
            r.0 matches Some((i, d)) ==> from <= i < self.spec_organizers().len()
                && self.spec_applies(i as int, item@, content@)
                && self.spec_organizers()[i as int].spec_destination(item@, content@) == Some(d@)
                && forall|k: int| from <= k < i ==> !self.spec_applies(k, item@, content@),
            r.0 is None ==> forall|k: int|
                from <= k < self.spec_organizers().len() ==> !self.spec_applies(
                    k,
                    item@,
                    content@,
                ),
            r.0 matches Some((i, d)) ==> r.1@.map_values(|e: OrgError| e.kind)
                == self.spec_failed_kinds(from as int, i as int, item@, content@),
            r.0 is None ==> r.1@.map_values(|e: OrgError| e.kind) == self.spec_failed_kinds(
                from as int,
                self.spec_organizers().len() as int,
                item@,
                content@,
            ),
    {
        let n = self.media_type_organizers.len();
        let mut errors: Vec<OrgError> = Vec::new();
        if from >= n {
            proof {
                assert(errors@.map_values(|e: OrgError| e.kind) =~= self.spec_failed_kinds(
                    from as int,
                    n as int,
                    item@,
                    content@,
                ));
            }
            return (None, errors);
        }
        let mut i = from;
        proof {
            assert(errors@.map_values(|e: OrgError| e.kind) =~= self.spec_failed_kinds(
                from as int,
                from as int,
                item@,
                content@,
            ));
        }
        while i < n
            invariant
                from <= i <= n,
                n == self.spec_organizers().len(),
                forall|k: int| from <= k < i ==> !self.spec_applies(k, item@, content@),
                errors@.map_values(|e: OrgError| e.kind) == self.spec_failed_kinds(
                    from as int,
                    i as int,
                    item@,
                    content@,
                ),
            decreases n - i,
        {
            let o = &self.media_type_organizers[i];
            let took = o.should_organize(item);
            if took {
                match o.destination_dir(item, content) {
                    Ok(d) => {
                        return (Some((i, d)), errors);
                    },
                    Err(e) => {
                        proof {
                            self.lemma_failed_kinds_extend(from as int, i as int, item@, content@);
                            assert(errors@.push(e).map_values(|x: OrgError| x.kind)
                                =~= errors@.map_values(|x: OrgError| x.kind).push(e.kind));
                        }
                        errors.push(e);
                    },
                }
            } else {
                proof {
                    self.lemma_failed_kinds_extend(from as int, i as int, item@, content@);
                }
            }
            i = i + 1;
        }
        (None, errors)
    }

    /// The error kinds of the organizers in `[from, to)` that take the
    /// file but derive no destination, in order.
    pub open spec fn spec_failed_kinds(
        &self,
        from: int,
        to: int,
        item: Seq<char>,
        content: Seq<u8>,
    ) -> Seq<ErrorKind>
        decreases to - from,
    {
        if from >= to {
            Seq::empty()
        } else {
            let rest = self.spec_failed_kinds(from + 1, to, item, content);
            if self.spec_organizers()[from].spec_should_organize(item) && self.spec_organizers()[
                from
            ].spec_destination(item, content) is None {
                seq![self.spec_organizers()[from].spec_error_kind(item, content)] + rest
            } else {
                rest
            }
        }
    }

    /// Extending the range of `spec_failed_kinds` by one organizer
    /// appends its error kind exactly when it takes the file and fails.
    pub proof fn lemma_failed_kinds_extend(
        &self,
        from: int,
        to: int,
        item: Seq<char>,
        content: Seq<u8>,
    )
        requires
            from <= to < self.spec_organizers().len(),
        ensures
            self.spec_failed_kinds(from, to + 1, item, content) == self.spec_failed_kinds(
                from,
                to,
                item,
                content,
            ) + (if self.spec_organizers()[to].spec_should_organize(item)
                && self.spec_organizers()[to].spec_destination(item, content) is None {
                seq![self.spec_organizers()[to].spec_error_kind(item, content)]
            } else {
                Seq::empty()
            }),
        decreases to - from,
    {
        let tail = (if self.spec_organizers()[to].spec_should_organize(item)
            && self.spec_organizers()[to].spec_destination(item, content) is None {
            seq![self.spec_organizers()[to].spec_error_kind(item, content)]
        } else {
            Seq::<ErrorKind>::empty()
        });
        if from == to {
            assert(self.spec_failed_kinds(from, to, item, content) =~= Seq::<ErrorKind>::empty());
            assert(self.spec_failed_kinds(from + 1, to + 1, item, content) =~= Seq::<
                ErrorKind,
            >::empty());
            assert(self.spec_failed_kinds(from, to + 1, item, content) =~= tail);
        } else {
            self.lemma_failed_kinds_extend(from + 1, to, item, content);
            assert(self.spec_failed_kinds(from, to + 1, item, content) =~= self.spec_failed_kinds(
                from,
                to,
                item,
                content,
            ) + tail);
        }
    }

    /// The full destination path of a move: the destination directory
    /// plus the file's own name, or the error when the path has none.
    pub fn move_destination(file: &str, dst_dir: &str) -> (r: Result<String, OrgError>)
        ensures
            r is Ok <==> file_name_of(file@).len() > 0,
            r matches Ok(p) ==> p@ == path_join(dst_dir@, file_name_of(file@)),
            r matches Err(e) ==> e.kind == ErrorKind::MissingFileName,
    {
        let name = file_name(file);
        if name.unicode_len() == 0 {
            return Err(OrgError::new(ErrorKind::MissingFileName));
        }
        Ok(join_path(dst_dir, name))
    }

    /// The no-overwrite decision: told whether a same-named file
    /// already sits at the destination, either clear the move or refuse
    /// it with a conflict — never both.
    pub fn check_destination(dst_exists: bool) -> (r: Result<(), OrgError>)
        ensures
            r is Ok <==> !dst_exists,
            r matches Err(e) ==> e.kind == ErrorKind::DestinationConflict && e.cause is None,
    {
        if dst_exists {
            Err(OrgError::new(ErrorKind::DestinationConflict))
        } else {
            Ok(())
        }
    }
}

} // verus!
