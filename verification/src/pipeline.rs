//! The decisions of one run: from the description of a video to the seconds
//! that are cut out of it.

use vstd::prelude::*;
use crate::automation::Stage;
use crate::chapters::chapters_of;
use crate::metadata::{DownloadError, VideoMetadata};
use crate::segment::{extract_sermon_chapter, segment_of};
use crate::trim::{EncodeError, trim_audio};

verus! {

/// The seconds of a video that hold the sermon.
#[derive(Clone, Copy, Debug, PartialEq, Eq, Structural)]
pub struct SermonSegment {
    pub start_seconds: u32,
    pub end_seconds: u32,
}

/// Why a run failed.
#[derive(Clone, Copy, Debug, PartialEq, Eq, Structural)]
pub enum PipelineError {
    /// The video could not be downloaded.
    Download(DownloadError),
    /// The description has chapters, but none of them is the sermon.
    NoSermonFound,
    /// The sermon is the last chapter and starts after the end of the video,
    /// so that the segment would end before it starts.
    SegmentOutOfRange,
    /// The transcoder failed.
    Encode(EncodeError),
    /// The upload failed in the given stage.
    Automation(Stage),
}

impl SermonSegment {
    /// A segment lies within a video of `duration` seconds and is not empty.
    pub open spec fn fits(&self, duration: u32) -> bool {
        self.start_seconds < self.end_seconds <= duration
    }

    /// The segment from `start` to `end`, if it is not empty and lies within
    /// a video of `duration` seconds.
    pub fn new(start: u32, end: u32, duration: u32) -> (out: Option<SermonSegment>)
        ensures
            start < end <= duration ==> out == Some(
                SermonSegment { start_seconds: start, end_seconds: end },
            ),
            !(start < end <= duration) ==> out is None,
    {
        if start < end && end <= duration {
            Some(SermonSegment { start_seconds: start, end_seconds: end })
        } else {
            None
        }
    }

    /// The length of the segment in seconds.
    pub fn length(&self) -> (out: u32)
        requires
            self.start_seconds <= self.end_seconds,
        ensures
            out == self.end_seconds - self.start_seconds,
    {
        self.end_seconds - self.start_seconds
    }
}

/// What is cut out of a video with the given description and length:
/// whatever segment the chapters give, as long as it has a length, that is,
/// as long as it does not end before it starts. An empty segment and one
/// that runs past the reported length are cut as they are.
pub open spec fn trim_plan(description: Seq<char>, duration: u32) -> Result<
    SermonSegment,
    PipelineError,
> {
    match segment_of(chapters_of(description), duration) {
        None => Err(PipelineError::NoSermonFound),
        Some((start, end)) => if start <= end {
            Ok(SermonSegment { start_seconds: start, end_seconds: end })
        } else {
            Err(PipelineError::SegmentOutOfRange)
        },
    }
}

/// A segment that the chapters give is cut as it is whenever it does not end
/// before it starts, whatever the length of the video; and only then.
pub proof fn lemma_found_segment_is_cut(description: Seq<char>, duration: u32)
    ensures
        forall|start: u32, end: u32|
            segment_of(chapters_of(description), duration) == Some((start, end)) && start <= end
                ==> trim_plan(description, duration) == Ok::<SermonSegment, PipelineError>(
                SermonSegment { start_seconds: start, end_seconds: end },
            ),
        trim_plan(description, duration) is Ok <==> (segment_of(
            chapters_of(description),
            duration,
        ) matches Some(found) && found.0 <= found.1),
{
}

/// Decides what is cut out of a video. Chapters without a sermon among them
/// fail the run; the whole video is never used in their place. A segment
/// that is found is cut whenever it has a length.
pub fn plan_trim(description: &str, duration: u32) -> (out: Result<SermonSegment, PipelineError>)
    ensures
        out == trim_plan(description@, duration),
        out is Ok ==> out->Ok_0.start_seconds <= out->Ok_0.end_seconds,
{
    match extract_sermon_chapter(description, duration) {
        None => Err(PipelineError::NoSermonFound),
        Some((start, end)) => {
            if start <= end {
                Ok(SermonSegment { start_seconds: start, end_seconds: end })
            } else {
                Err(PipelineError::SegmentOutOfRange)
            }
        },
    }
}

/// The run after the download: it goes on with the metadata, or has failed
/// with the error of the download.
pub fn after_download(fetched: Result<VideoMetadata, DownloadError>) -> (out: Result<
    VideoMetadata,
    PipelineError,
>)
    ensures
        match fetched {
            Ok(video) => out == Ok::<VideoMetadata, PipelineError>(video),
            Err(e) => out == Err::<VideoMetadata, PipelineError>(PipelineError::Download(e)),
        },
{
    match fetched {
        Ok(video) => Ok(video),
        Err(e) => Err(PipelineError::Download(e)),
    }
}

/// The run after the transcoder has ended: it goes on after the exit code
/// 0, and has failed with the status of the transcoder after any other end.
pub fn after_trim(exit_code: Option<i32>) -> (out: Result<(), PipelineError>)
    ensures
        exit_code == Some(0i32) ==> out is Ok,
        exit_code != Some(0i32) ==> out == Err::<(), PipelineError>(
            PipelineError::Encode(EncodeError { status: exit_code }),
        ),
{
    match trim_audio(exit_code) {
        Ok(()) => Ok(()),
        Err(e) => Err(PipelineError::Encode(e)),
    }
}

/// The run after the upload has stopped: done when the draft was confirmed,
/// and failed otherwise, in the stage that the upload had reached.
pub fn after_upload(confirmed: bool, reached: Stage) -> (out: Result<(), PipelineError>)
    ensures
        confirmed ==> out is Ok,
        !confirmed ==> out == Err::<(), PipelineError>(PipelineError::Automation(reached)),
{
    if confirmed {
        Ok(())
    } else {
        Err(PipelineError::Automation(reached))
    }
}

/// Whether the newest video of the playlist still has to be processed: it
/// differs from the one that was processed last.
pub fn is_new_video(latest: &String, last_seen: &String) -> (out: bool)
    ensures
        out == (latest@ != last_seen@),
{
    !(*latest == *last_seen)
}

} // verus!
