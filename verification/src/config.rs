//! Consolidated configuration: where media comes from and where each
//! media type goes.
//!
//! An empty destination disables that media type's organizer; at least
//! one destination must be enabled.  Reading command-line arguments or
//! a configuration file, and checking that each path names an existing
//! directory, is the surrounding program's part — this type carries the
//! consolidated values and enforces the one rule that is pure policy.

use vstd::prelude::*;

use crate::errors::{ErrorKind, OrgError};

verus! {

/// Consolidated configuration of the run.
#[derive(Debug)]
pub struct Config {
    pub media_src: String,
    pub photos_dst: String,
    pub videos_dst: String,
}

impl Config {
    /// Succeeds unless both destinations are empty — with no
    /// destination enabled there would be nothing to do.
    pub fn new(media_src_str: String, photos_dst_str: String, videos_dst_str: String) -> (r:
        Result<Config, OrgError>)
        ensures
            r is Ok <==> photos_dst_str@.len() > 0 || videos_dst_str@.len() > 0,
            r matches Ok(c) ==> c.media_src@ == media_src_str@ && c.photos_dst@ == photos_dst_str@
                && c.videos_dst@ == videos_dst_str@,
            r matches Err(e) ==> e.kind == ErrorKind::Configuration && e.cause is None,
    {
        if photos_dst_str.as_str().is_empty() && videos_dst_str.as_str().is_empty() {
            return Err(OrgError::new(ErrorKind::Configuration));
        }
        Ok(
            Config {
                media_src: media_src_str,
                photos_dst: photos_dst_str,
                videos_dst: videos_dst_str,
            },
        )
    }
}

/// Builds a `Config` from a media source and whatever destinations are
/// set, leaving the others empty (disabled).
pub struct ConfigBuilder {
    media_src_str: String,
    photos_dst_str: String,
    videos_dst_str: String,
}

impl ConfigBuilder {
    /// The media source collected so far.
    pub closed spec fn spec_media_src(&self) -> Seq<char> {
        self.media_src_str@
    }

    /// The photo destination collected so far.
    pub closed spec fn spec_photos_dst(&self) -> Seq<char> {
        self.photos_dst_str@
    }

    /// The video destination collected so far.
    pub closed spec fn spec_videos_dst(&self) -> Seq<char> {
        self.videos_dst_str@
    }

    /// A builder with the given media source and both destinations
    /// disabled.
    pub fn new(media_src_str: String) -> (r: ConfigBuilder)
        ensures
            r.spec_media_src() == media_src_str@,
            r.spec_photos_dst() =~= Seq::<char>::empty(),
            r.spec_videos_dst() =~= Seq::<char>::empty(),
    {
        ConfigBuilder {
            media_src_str,
            photos_dst_str: String::new(),
            videos_dst_str: String::new(),
        }
    }

    /// The same builder with the photo destination set.
    pub fn with_photos_dst(self, photos_dst_str: String) -> (r: ConfigBuilder)
        ensures
            r.spec_media_src() == self.spec_media_src(),
            r.spec_photos_dst() == photos_dst_str@,
            r.spec_videos_dst() == self.spec_videos_dst(),
    {
        ConfigBuilder { photos_dst_str, ..self }
    }

    /// The same builder with the video destination set.
    pub fn with_videos_dst(self, videos_dst_str: String) -> (r: ConfigBuilder)
        ensures
            r.spec_media_src() == self.spec_media_src(),
            r.spec_photos_dst() == self.spec_photos_dst(),
            r.spec_videos_dst() == videos_dst_str@,
    {
        ConfigBuilder { videos_dst_str, ..self }
    }

    /// The consolidated configuration, or the configuration error when
    /// every destination is still disabled.
    pub fn build(self) -> (r: Result<Config, OrgError>)
        ensures
            r is Ok <==> self.spec_photos_dst().len() > 0 || self.spec_videos_dst().len() > 0,
            r matches Ok(c) ==> c.media_src@ == self.spec_media_src() && c.photos_dst@
                == self.spec_photos_dst() && c.videos_dst@ == self.spec_videos_dst(),
            r matches Err(e) ==> e.kind == ErrorKind::Configuration && e.cause is None,
    {
        Config::new(self.media_src_str, self.photos_dst_str, self.videos_dst_str)
    }
}

} // verus!
