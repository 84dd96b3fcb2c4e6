//! The download of one video, as a sequence of steps that a driver performs.
//!
//! A download needs the network and helper programs, none of which this
//! library touches. It decides instead. A [`Download`] tells its driver
//! which step comes next ([`Download::action`]), the driver performs it
//! and reports how it went ([`Download::advance`]), until the download has
//! ended. The steps of a download that goes well are, in this order:
//!
//! 1. open the fetch client on the fixed directory of helper programs and
//!    the output directory that was asked for; the client is then given the
//!    fixed time limit;
//! 2. fetch the description of the source behind the address;
//! 3. download the best sound stream of that source into a temporary file;
//! 4. download its worst picture stream into a second temporary file;
//! 5. combine the two files into the output file;
//! 6. remove the two temporary files.
//!
//! A step that fails ends the download at once: nothing is tried again and
//! nothing is cleaned up. Only the removal of the temporary files may fail
//! without harm.

use crate::client::{
    best_audio_format, best_audio_of, with_timeout, with_timeout_of, worst_video_format,
    worst_video_of,
};
use vstd::prelude::*;
use yt_dlp::model::format::Format;
use yt_dlp::model::Video;
use yt_dlp::Youtube;

verus! {

/// The directory that holds the helper programs of the fetch client.
pub const LIBRARIES_DIR: &'static str = "libs";

/// The time limit that the fetch client gives each of its commands, in
/// seconds.
pub const TIMEOUT_SECS: u64 = 6000;

/// The name of the file that receives the sound stream.
pub const TEMP_AUDIO: &'static str = "temp_audio.mp3";

/// The name of the file that receives the picture stream.
pub const TEMP_VIDEO: &'static str = "temp_video.mp4";

/// Where a download stands: the step that is in flight, or how it ended.
pub enum Phase {
    /// The client is being opened.
    Opening,
    /// The description of the source is being fetched through `client`.
    Fetching { client: Youtube },
    /// The sound stream `format` of the source `video` is being downloaded.
    DownloadingAudio { client: Youtube, video: Video, format: Format },
    /// The picture stream `format` is being downloaded.
    DownloadingVideo { client: Youtube, format: Format },
    /// The two downloaded files are being combined.
    Combining { client: Youtube },
    /// The two downloaded files are being removed.
    Cleaning,
    /// The download has ended, with its result or without it.
    Finished { success: bool },
}

/// What the driver reports of the step that it was asked to perform.
pub enum Event {
    /// The client was opened, and this is it.
    Opened(Youtube),
    /// The description of the source was fetched, and this is it.
    Described(Video),
    /// The step was performed.
    Completed,
    /// The step failed.
    Failed,
}

/// The step that the driver has to perform.
pub enum Action<'a> {
    /// Open a fetch client that finds or installs its helper programs in
    /// `libraries_dir` and writes under `output_dir`, and report it.
    OpenClient { libraries_dir: &'a str, output_dir: &'a str },
    /// Fetch the description of the source behind `url` through `client`,
    /// and report it.
    FetchInfo { client: &'a Youtube, url: &'a str },
    /// Download the stream `format` through `client` into the file named
    /// `file`.
    DownloadFormat { client: &'a Youtube, format: &'a Format, file: &'a str },
    /// Combine, through `client`, the sound in `audio_file` and the
    /// pictures in `video_file` into `output_file`.
    Combine { client: &'a Youtube, audio_file: &'a str, video_file: &'a str, output_file: &'a str },
    /// Remove the two files, as far as that is possible.
    RemoveFiles { audio_file: &'a str, video_file: &'a str },
    /// Nothing is left to do: the download has ended as `success` says.
    Finish { success: bool },
}

/// The mathematical value of an [`Action`].
pub enum ActionView {
    OpenClient { libraries_dir: Seq<char>, output_dir: Seq<char> },
    FetchInfo { client: Youtube, url: Seq<char> },
    DownloadFormat { client: Youtube, format: Format, file: Seq<char> },
    Combine {
        client: Youtube,
        audio_file: Seq<char>,
        video_file: Seq<char>,
        output_file: Seq<char>,
    },
    RemoveFiles { audio_file: Seq<char>, video_file: Seq<char> },
    Finish { success: bool },
}

impl<'a> View for Action<'a> {
    type V = ActionView;

    open spec fn view(&self) -> ActionView {
        match *self {
            Action::OpenClient { libraries_dir, output_dir } => ActionView::OpenClient {
                libraries_dir: libraries_dir@,
                output_dir: output_dir@,
            },
            Action::FetchInfo { client, url } => ActionView::FetchInfo { client: *client, url: url@ },
            Action::DownloadFormat { client, format, file } => ActionView::DownloadFormat {
                client: *client,
                format: *format,
                file: file@,
            },
            Action::Combine { client, audio_file, video_file, output_file } => ActionView::Combine {
                client: *client,
                audio_file: audio_file@,
                video_file: video_file@,
                output_file: output_file@,
            },
            Action::RemoveFiles { audio_file, video_file } => ActionView::RemoveFiles {
                audio_file: audio_file@,
                video_file: video_file@,
            },
            Action::Finish { success } => ActionView::Finish { success },
        }
    }
}

/// One download: what was asked for, and where it stands.
pub struct Download {
    url: String,
    output_dir: String,
    output_file: String,
    phase: Phase,
}

/// The mathematical value of a [`Download`].
pub struct DownloadView {
    pub url: Seq<char>,
    pub output_dir: Seq<char>,
    pub output_file: Seq<char>,
    pub phase: Phase,
}

impl View for Download {
    type V = DownloadView;

    closed spec fn view(&self) -> DownloadView {
        DownloadView {
            url: self.url@,
            output_dir: self.output_dir@,
            output_file: self.output_file@,
            phase: self.phase,
        }
    }
}

/// The phase of a download that ended without its result.
pub open spec fn aborted() -> Phase {
    Phase::Finished { success: false }
}

/// The phase that follows the opening of the client, given the client with
/// its time limit set: the fetch of the description.
pub open spec fn fetch_phase(limited: Youtube) -> Phase {
    Phase::Fetching { client: limited }
}

/// The phase that follows the description of the source, given the sound
/// stream that was picked from it: the download of that stream, or the
/// end where there is none.
pub open spec fn audio_phase(client: Youtube, video: Video, choice: Option<Format>) -> Phase {
    match choice {
        Some(format) => Phase::DownloadingAudio { client, video, format },
        None => aborted(),
    }
}

/// The phase that follows the download of the sound stream, given the
/// picture stream that was picked: the download of that stream, or the end
/// where there is none.
pub open spec fn video_phase(client: Youtube, choice: Option<Format>) -> Phase {
    match choice {
        Some(format) => Phase::DownloadingVideo { client, format },
        None => aborted(),
    }
}

/// The phase that follows `phase` once the driver has reported `event`.
///
/// A step leads to the next one only when the driver reports what the step
/// was to bring: a client for the opening, a description for the fetch, a
/// completion for the others. Any other report ends the download without
/// its result, and so does a source that lacks the stream to download
/// next. The removal of the temporary files cannot fail the download:
/// whatever is reported of it, the download has its result. A download
/// that has ended stays as it is.
pub open spec fn next_phase(phase: Phase, event: Event) -> Phase {
    match phase {
        Phase::Opening => match event {
            Event::Opened(client) => fetch_phase(with_timeout_of(client, TIMEOUT_SECS)),
            _ => aborted(),
        },
        Phase::Fetching { client } => match event {
            Event::Described(video) => audio_phase(client, video, best_audio_of(video)),
            _ => aborted(),
        },
        Phase::DownloadingAudio { client, video, format } => match event {
            Event::Completed => video_phase(client, worst_video_of(video)),
            _ => aborted(),
        },
        Phase::DownloadingVideo { client, format } => match event {
            Event::Completed => Phase::Combining { client },
            _ => aborted(),
        },
        Phase::Combining { client } => match event {
            Event::Completed => Phase::Cleaning,
            _ => aborted(),
        },
        Phase::Cleaning => Phase::Finished { success: true },
        Phase::Finished { success } => phase,
    }
}

impl DownloadView {
    /// A download of `url` into `output_file` under `output_dir`, before
    /// its first step.
    pub open spec fn start(
        url: Seq<char>,
        output_dir: Seq<char>,
        output_file: Seq<char>,
    ) -> DownloadView {
        DownloadView { url, output_dir, output_file, phase: Phase::Opening }
    }

    /// The step that the driver has to perform while the download is in
    /// this state.
    pub open spec fn action(self) -> ActionView {
        match self.phase {
            Phase::Opening => ActionView::OpenClient {
                libraries_dir: LIBRARIES_DIR@,
                output_dir: self.output_dir,
            },
            Phase::Fetching { client } => ActionView::FetchInfo { client, url: self.url },
            Phase::DownloadingAudio { client, video, format } => ActionView::DownloadFormat {
                client,
                format,
                file: TEMP_AUDIO@,
            },
            Phase::DownloadingVideo { client, format } => ActionView::DownloadFormat {
                client,
                format,
                file: TEMP_VIDEO@,
            },
            Phase::Combining { client } => ActionView::Combine {
                client,
                audio_file: TEMP_AUDIO@,
                video_file: TEMP_VIDEO@,
                output_file: self.output_file,
            },
            Phase::Cleaning => ActionView::RemoveFiles {
                audio_file: TEMP_AUDIO@,
                video_file: TEMP_VIDEO@,
            },
            Phase::Finished { success } => ActionView::Finish { success },
        }
    }

    /// The state after the driver has reported `event`.
    pub open spec fn next(self, event: Event) -> DownloadView {
        DownloadView { phase: next_phase(self.phase, event), ..self }
    }

    /// How the download ended, if it has.
    pub open spec fn outcome(self) -> Option<bool> {
        match self.phase {
            Phase::Finished { success } => Some(success),
            _ => None,
        }
    }

    /// The state after the driver has reported `events`, one after the other.
    pub open spec fn run(self, events: Seq<Event>) -> DownloadView
        decreases events.len(),
    {
        if events.len() == 0 {
            self
        } else {
            self.next(events[0]).run(events.drop_first())
        }
    }

    /// The steps that the driver is asked for while it reports `events`:
    /// the step of this state, then the step of each state that follows.
    /// There is one more of them than there are events.
    pub open spec fn actions(self, events: Seq<Event>) -> Seq<ActionView>
        decreases events.len(),
    {
        if events.len() == 0 {
            seq![self.action()]
        } else {
            seq![self.action()] + self.next(events[0]).actions(events.drop_first())
        }
    }
}

/// The phase that follows the opening of the client, given the client with
/// its time limit set.
pub fn begin_fetch(limited: Youtube) -> (phase: Phase)
    ensures
        phase == fetch_phase(limited),
{
    Phase::Fetching { client: limited }
}

/// The phase that follows the description of the source, given the sound
/// stream that was picked from it.
pub fn begin_audio(client: Youtube, video: Video, choice: Option<Format>) -> (phase: Phase)
    ensures
        phase == audio_phase(client, video, choice),
{
    match choice {
        Some(format) => Phase::DownloadingAudio { client, video, format },
        None => Phase::Finished { success: false },
    }
}

/// The phase that follows the download of the sound stream, given the
/// picture stream that was picked.
pub fn begin_video(client: Youtube, choice: Option<Format>) -> (phase: Phase)
    ensures
        phase == video_phase(client, choice),
{
    match choice {
        Some(format) => Phase::DownloadingVideo { client, format },
        None => Phase::Finished { success: false },
    }
}

/// The phase that follows `phase` once the driver has reported `event`.
/// What the fetch client's crate decides is asked of it here: the client
/// gets its time limit as soon as it is open, the best sound stream is
/// picked when the description arrives, and the worst picture stream when
/// the sound has been downloaded.
pub fn advance_phase(phase: Phase, event: Event) -> (next: Phase)
    ensures
        next == next_phase(phase, event),
{
    match phase {
        Phase::Opening => match event {
            Event::Opened(client) => {
                let limited = with_timeout(client, TIMEOUT_SECS);
                begin_fetch(limited)
            },
            _ => Phase::Finished { success: false },
        },
        Phase::Fetching { client } => match event {
            Event::Described(video) => {
                let choice = best_audio_format(&video);
                begin_audio(client, video, choice)
            },
            _ => Phase::Finished { success: false },
        },
        Phase::DownloadingAudio { client, video, format } => match event {
            Event::Completed => {
                let choice = worst_video_format(&video);
                begin_video(client, choice)
            },
            _ => Phase::Finished { success: false },
        },
        Phase::DownloadingVideo { client, format } => match event {
            Event::Completed => Phase::Combining { client },
            _ => Phase::Finished { success: false },
        },
        Phase::Combining { client } => match event {
            Event::Completed => Phase::Cleaning,
            _ => Phase::Finished { success: false },
        },
        Phase::Cleaning => Phase::Finished { success: true },
        Phase::Finished { success } => Phase::Finished { success },
    }
}

/// Prepares the download of the video behind `url` into `output_file` under
/// `output_dir`. Nothing has happened yet: the download waits for its
/// driver, and its first step is to open the client.
pub fn download_video(url: &str, output_dir: &str, output_file: &str) -> (job: Download)
    ensures
        job@ == DownloadView::start(url@, output_dir@, output_file@),
{
    Download {
        url: url.to_owned(),
        output_dir: output_dir.to_owned(),
        output_file: output_file.to_owned(),
        phase: Phase::Opening,
    }
}

impl Download {
    /// The step that the driver has to perform now.
    pub fn action(&self) -> (action: Action<'_>)
        ensures
            action@ == self@.action(),
    {
        match &self.phase {
            Phase::Opening => Action::OpenClient {
                libraries_dir: LIBRARIES_DIR,
                output_dir: self.output_dir.as_str(),
            },
            Phase::Fetching { client } => Action::FetchInfo { client, url: self.url.as_str() },
            Phase::DownloadingAudio { client, video, format } => Action::DownloadFormat {
                client,
                format,
                file: TEMP_AUDIO,
            },
            Phase::DownloadingVideo { client, format } => Action::DownloadFormat {
                client,
                format,
                file: TEMP_VIDEO,
            },
            Phase::Combining { client } => Action::Combine {
                client,
                audio_file: TEMP_AUDIO,
                video_file: TEMP_VIDEO,
                output_file: self.output_file.as_str(),
            },
            Phase::Cleaning => Action::RemoveFiles { audio_file: TEMP_AUDIO, video_file: TEMP_VIDEO },
            Phase::Finished { success } => Action::Finish { success: *success },
        }
    }

    /// Takes the driver's report of the step in flight and moves on to the
    /// next step, or to the end.
    pub fn advance(&mut self, event: Event)
        ensures
            final(self)@ == old(self)@.next(event),
    {
        let mut phase = Phase::Finished { success: false };
        std::mem::swap(&mut self.phase, &mut phase);
        self.phase = advance_phase(phase, event);
    }

    /// How the download ended, if it has: `Some(true)` with the result in
    /// place, `Some(false)` without it.
    pub fn outcome(&self) -> (outcome: Option<bool>)
        ensures
            outcome == self@.outcome(),
    {
        match &self.phase {
            Phase::Finished { success } => Some(*success),
            _ => None,
        }
    }
}

} // verus!
