//! A track queued for playing, the errors met while fetching one, and the
//! decisions taken at each step of fetching a video.
use std::path::PathBuf;
use vstd::prelude::*;

verus! {

/// Declares std's `std::path::PathBuf` so that a track can hold the path of its
/// file. Nothing is assumed of it: its contents are never read, only carried.
#[verifier::external_type_specification]
#[verifier::external_body]
pub struct ExPathBuf(PathBuf);

/// A track: its title, the URL it came from and the file that holds it.
pub struct Track {
    pub title: String,
    source_url: String,
    file_path: PathBuf,
}

impl Track {
    /// The track's title.
    pub closed spec fn spec_title(&self) -> Seq<char> {
        self.title@
    }

    /// The URL the track came from.
    pub closed spec fn spec_source_url(&self) -> Seq<char> {
        self.source_url@
    }

    /// The file that holds the track.
    pub closed spec fn spec_file_path(&self) -> PathBuf {
        self.file_path
    }

    /// A track with the given title, source URL and file.
    pub fn new(title: &str, source_url: &str, file_path: PathBuf) -> (r: Track)
        ensures
            r.spec_title() == title@,
            r.spec_source_url() == source_url@,
            r.spec_file_path() == file_path,
    {
        Track {
            title: String::from_str(title),
            source_url: String::from_str(source_url),
            file_path: file_path,
        }
    }

    /// The URL the track came from.
    pub fn source_url(&self) -> (r: &str)
        ensures
            r@ == self.spec_source_url(),
    {
        self.source_url.as_str()
    }

    /// The file that holds the track.
    pub fn file_path(&self) -> (r: &PathBuf)
        ensures
            *r == self.spec_file_path(),
    {
        &self.file_path
    }
}

/// Why a video could not be made into a track.
#[derive(Debug, Clone, Copy, PartialEq, Eq, Structural)]
pub enum TrackError {
    /// No video was found at the URL.
    NotFound,
    /// The video's file could not be downloaded.
    FailedToDownload,
    /// The video's details could not be retrieved.
    FailedToRetrieveInfo,
}

/// The message shown to a user for an error.
pub open spec fn track_error_message(e: TrackError) -> Seq<char> {
    match e {
        TrackError::NotFound => "URLが見つかりませんでした。"@,
        TrackError::FailedToDownload => "ダウンロードに失敗しました。"@,
        TrackError::FailedToRetrieveInfo => "動画情報の取得に失敗しました。"@,
    }
}

impl TrackError {
    /// The message shown to a user for this error.
    pub fn message(&self) -> (r: String)
        ensures
            r@ == track_error_message(*self),
    {
        match self {
            TrackError::NotFound => String::from_str("URLが見つかりませんでした。"),
            TrackError::FailedToDownload => String::from_str("ダウンロードに失敗しました。"),
            TrackError::FailedToRetrieveInfo => String::from_str(
                "動画情報の取得に失敗しました。",
            ),
        }
    }
}

/// The extension of the audio file a video is downloaded to.
pub open spec fn audio_extension() -> Seq<char> {
    ".mp3"@
}

/// The name of the audio file for the video with the given id.
pub fn track_file_name(video_id: &str) -> (r: String)
    ensures
        r@ == video_id@ + audio_extension(),
{
    let mut name = String::from_str(video_id);
    name.append(".mp3");
    name
}

/// The title and the id of a video, as its details give them.
#[derive(Debug)]
pub struct VideoDetails {
    pub title: String,
    pub video_id: String,
}

/// What the last step of fetching a video came to.
#[derive(Debug)]
pub enum FetchEvent {
    /// A handle on the video could, or could not, be made from its URL.
    Resolved(bool),
    /// The video's details, or `None` when they could not be retrieved.
    InfoRetrieved(Option<VideoDetails>),
    /// The video's file was, or was not, written.
    Downloaded(bool),
}

/// What to do next while fetching a video.
#[derive(Debug)]
pub enum FetchAction {
    /// Retrieve the video's details.
    RetrieveInfo,
    /// Download the video to the file of that name in the download directory.
    Download { file_name: String },
    /// The track is complete.
    Finish,
    /// Give up with this error.
    Fail(TrackError),
}

/// The next action once a step of fetching a video has come to `event`: each
/// step that fails ends the fetch with its own error, and each that succeeds
/// leads to the next step.
pub fn next_fetch_action(event: &FetchEvent) -> (r: FetchAction)
    ensures
        match *event {
            FetchEvent::Resolved(ok) => if ok {
                r is RetrieveInfo
            } else {
                r == FetchAction::Fail(TrackError::NotFound)
            },
            FetchEvent::InfoRetrieved(details) => match details {
                Some(d) => r matches FetchAction::Download { file_name } && file_name@ == d.video_id@
                    + audio_extension(),
                None => r == FetchAction::Fail(TrackError::FailedToRetrieveInfo),
            },
            FetchEvent::Downloaded(ok) => if ok {
                r is Finish
            } else {
                r == FetchAction::Fail(TrackError::FailedToDownload)
            },
        },
{
    match event {
        FetchEvent::Resolved(ok) => {
            if *ok {
                FetchAction::RetrieveInfo
            } else {
                FetchAction::Fail(TrackError::NotFound)
            }
        },
        FetchEvent::InfoRetrieved(details) => match details {
            Some(d) => FetchAction::Download { file_name: track_file_name(d.video_id.as_str()) },
            None => FetchAction::Fail(TrackError::FailedToRetrieveInfo),
        },
        FetchEvent::Downloaded(ok) => {
            if *ok {
                FetchAction::Finish
            } else {
                FetchAction::Fail(TrackError::FailedToDownload)
            }
        },
    }
}

} // verus!
