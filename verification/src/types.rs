//! Names for the strings and numbers that the parts of a run exchange.

use vstd::prelude::*;
use std::borrow::Cow;
use std::path::{Path, PathBuf};

verus! {

/// The identifier of a video.
#[derive(Debug, Clone, PartialEq, Eq, Hash)]
pub struct VideoId(String);

/// An owned path of the file system, carried through as it is.
#[verifier::external_type_specification]
#[verifier::external_body]
pub struct ExPathBuf(std::path::PathBuf);

/// A borrowed path of the file system, carried through as it is.
#[verifier::external_type_specification]
#[verifier::external_body]
pub struct ExPath(std::path::Path);

/// What an owned path holds, as text: its characters, with U+FFFD in place
/// of whatever in it is no Unicode.
pub uninterp spec fn path_text(path: PathBuf) -> Seq<char>;

/// What a borrowed path holds, as text, in the same way.
pub uninterp spec fn slice_text(path: &Path) -> Seq<char>;

/// `PathBuf::as_path` borrows the path as it is: the borrowed path holds
/// what the owned one holds.
pub assume_specification[ PathBuf::as_path ](path: &PathBuf) -> (out: &Path)
    ensures
        slice_text(out) == path_text(*path),
;

/// `Path::to_string_lossy` gives what the path holds as text, with U+FFFD in
/// place of whatever in it is no Unicode.
pub assume_specification<'a>[ Path::to_string_lossy ](path: &'a Path) -> (out: Cow<'a, str>)
    ensures
        out@ == slice_text(path),
;

/// `PathBuf::clone`: the clone of an owned path is the same path.
pub assume_specification[ <PathBuf as Clone>::clone ](path: &PathBuf) -> (out: PathBuf)
    ensures
        out == *path,
;

/// The path of an audio file.
#[derive(Debug, Clone)]
pub struct AudioPath(PathBuf);

/// The path of a video file.
#[derive(Debug, Clone)]
pub struct VideoPath(PathBuf);

/// A length of time in seconds.
#[derive(Debug, Clone, Copy, PartialEq, Eq, PartialOrd, Ord, Structural)]
pub struct Seconds(u32);

/// One upload, as the history keeps it.
#[derive(Debug)]
pub struct UploadRecord {
    pub id: i64,
    pub video_id: String,
    pub uploaded_at: String,
}

impl View for VideoId {
    type V = Seq<char>;

    closed spec fn view(&self) -> Seq<char> {
        self.0@
    }
}

impl View for AudioPath {
    type V = Seq<char>;

    /// The text that the path reads as.
    closed spec fn view(&self) -> Seq<char> {
        path_text(self.0)
    }
}

impl View for VideoPath {
    type V = Seq<char>;

    /// The text that the path reads as.
    closed spec fn view(&self) -> Seq<char> {
        path_text(self.0)
    }
}

impl View for Seconds {
    type V = u32;

    closed spec fn view(&self) -> u32 {
        self.0
    }
}

impl VideoId {
    /// The identifier with the given text.
    pub fn new(id: String) -> (out: VideoId)
        ensures
            out@ == id@,
    {
        VideoId(id)
    }

    /// The text of the identifier.
    pub fn as_str(&self) -> (out: &str)
        ensures
            out@ == self@,
    {
        self.0.as_str()
    }

    /// The text of the identifier, as an owned string.
    pub fn to_text(&self) -> (out: String)
        ensures
            out@ == self@,
    {
        self.0.clone()
    }
}

impl AudioPath {
    /// Wraps the given path.
    pub fn new(path: PathBuf) -> (out: AudioPath)
        ensures
            out@ == path_text(path),
    {
        AudioPath(path)
    }

    /// The path, borrowed.
    pub fn as_path(&self) -> (out: &Path)
        ensures
            slice_text(out) == self@,
    {
        self.0.as_path()
    }

    /// The path as text, with U+FFFD in place of whatever in it is no
    /// Unicode.
    pub fn to_string_lossy(&self) -> (out: Cow<'_, str>)
        ensures
            out@ == self@,
    {
        self.0.as_path().to_string_lossy()
    }
}

impl VideoPath {
    /// Wraps the given path.
    pub fn new(path: PathBuf) -> (out: VideoPath)
        ensures
            out@ == path_text(path),
    {
        VideoPath(path)
    }

    /// The path, borrowed.
    pub fn as_path(&self) -> (out: &Path)
        ensures
            slice_text(out) == self@,
    {
        self.0.as_path()
    }

    /// The path as text, with U+FFFD in place of whatever in it is no
    /// Unicode.
    pub fn to_string_lossy(&self) -> (out: Cow<'_, str>)
        ensures
            out@ == self@,
    {
        self.0.as_path().to_string_lossy()
    }
}

impl From<String> for VideoId {
    fn from(id: String) -> (out: VideoId)
        ensures
            out@ == id@,
    {
        VideoId(id)
    }
}

impl vstd::std_specs::convert::FromSpecImpl<String> for VideoId {
    open spec fn obeys_from_spec() -> bool {
        true
    }

    closed spec fn from_spec(id: String) -> VideoId {
        VideoId(id)
    }
}

impl<'a> From<&'a str> for VideoId {
    fn from(id: &'a str) -> (out: VideoId)
        ensures
            out@ == id@,
    {
        VideoId(id.to_owned())
    }
}

impl<'a> vstd::std_specs::convert::FromSpecImpl<&'a str> for VideoId {
    open spec fn obeys_from_spec() -> bool {
        false
    }

    closed spec fn from_spec(id: &'a str) -> VideoId {
        choose|v: VideoId| v@ == id@
    }
}

impl From<u32> for Seconds {
    fn from(secs: u32) -> (out: Seconds)
        ensures
            out@ == secs,
    {
        Seconds(secs)
    }
}

impl vstd::std_specs::convert::FromSpecImpl<u32> for Seconds {
    open spec fn obeys_from_spec() -> bool {
        true
    }

    closed spec fn from_spec(secs: u32) -> Seconds {
        Seconds(secs)
    }
}

impl Seconds {
    /// The length of `secs` seconds.
    pub fn new(secs: u32) -> (out: Seconds)
        ensures
            out@ == secs,
    {
        Seconds(secs)
    }

    /// The number of seconds.
    pub fn as_u32(&self) -> (out: u32)
        ensures
            out == self@,
    {
        self.0
    }
}

} // verus!
