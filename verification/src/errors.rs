//! Structured errors: a kind plus an optional wrapped cause.
//!
//! Errors below the dispatcher boundary never abort a run; they are
//! inspected by kind and reported, so the kind carries the meaning and
//! the cause chain preserves how a failure came about.

use vstd::prelude::*;

verus! {

/// What went wrong, inspectable by kind.
#[derive(Clone, Copy, PartialEq, Eq, Structural, Debug)]
pub enum ErrorKind {
    /// Every destination directory was disabled at configuration time.
    Configuration,
    /// The month handed to the date factory is outside 1..=12.
    InvalidMonth,
    /// The year handed to the date factory is outside 1839..=3000.
    InvalidYear,
    /// The path has no final file-name component.
    MissingFileName,
    /// The file name does not carry a date in the expected pattern.
    FilenameWithoutDate,
    /// No usable capture-date field was found in the embedded metadata.
    ExifDateMissing,
    /// The embedded capture-date field is present but malformed.
    ExifDateMalformed,
    /// Neither embedded metadata nor the filename yielded a valid date.
    DateResolution,
    /// A same-named file already exists at the destination.
    DestinationConflict,
    /// The destination directory tree could not be created.
    DirectoryCreateFailed,
    /// The relocation operation itself failed.
    RenameFailed,
}

/// A structured error carrying a kind plus an optional wrapped cause.
#[derive(Debug)]
pub struct OrgError {
    pub kind: ErrorKind,
    pub cause: Option<Box<OrgError>>,
}

/// The fixed description attached to each error kind.
pub open spec fn kind_message(kind: ErrorKind) -> Seq<char> {
    match kind {
        ErrorKind::Configuration => "at least one of photos_dst or videos_dst shouldn't be empty"@,
        ErrorKind::InvalidMonth => "invalid month, should be between 1 and 12"@,
        ErrorKind::InvalidYear => "invalid year, should be between 1839 and 3000"@,
        ErrorKind::MissingFileName => "failed to get file name"@,
        ErrorKind::FilenameWithoutDate => "file name doesn't have date format"@,
        ErrorKind::ExifDateMissing => "exif DateTimeOriginal tag is missing"@,
        ErrorKind::ExifDateMalformed => "exif date value is broken"@,
        ErrorKind::DateResolution => "failed to resolve a capture date"@,
        ErrorKind::DestinationConflict => "a file with the same name already exists in the destination path"@,
        ErrorKind::DirectoryCreateFailed => "failed to create destination dir"@,
        ErrorKind::RenameFailed => "failed to move file to destination dir"@,
    }
}

impl OrgError {
    /// An error of the given kind with no wrapped cause.
    pub fn new(kind: ErrorKind) -> (r: OrgError)
        ensures
            r.kind == kind,
            r.cause is None,
    {
        OrgError { kind, cause: None }
    }

    /// An error of the given kind wrapping the failure that led to it.
    pub fn with_cause(kind: ErrorKind, cause: OrgError) -> (r: OrgError)
        ensures
            r.kind == kind,
            r.cause matches Some(c) && *c == cause,
    {
        OrgError { kind, cause: Some(Box::new(cause)) }
    }

    /// The fixed description of this error's kind.
    pub fn describe(&self) -> (r: String)
        ensures
            r@ == kind_message(self.kind),
    {
        match self.kind {
            ErrorKind::Configuration => String::from_str(
                "at least one of photos_dst or videos_dst shouldn't be empty",
            ),
            ErrorKind::InvalidMonth => String::from_str("invalid month, should be between 1 and 12"),
            ErrorKind::InvalidYear => String::from_str("invalid year, should be between 1839 and 3000"),
            ErrorKind::MissingFileName => String::from_str("failed to get file name"),
            ErrorKind::FilenameWithoutDate => String::from_str("file name doesn't have date format"),
            ErrorKind::ExifDateMissing => String::from_str("exif DateTimeOriginal tag is missing"),
            ErrorKind::ExifDateMalformed => String::from_str("exif date value is broken"),
            ErrorKind::DateResolution => String::from_str("failed to resolve a capture date"),
            ErrorKind::DestinationConflict => String::from_str(
                "a file with the same name already exists in the destination path",
            ),
            ErrorKind::DirectoryCreateFailed => String::from_str("failed to create destination dir"),
            ErrorKind::RenameFailed => String::from_str("failed to move file to destination dir"),
        }
    }
}

} // verus!
