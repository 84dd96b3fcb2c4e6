//! What a download takes from the `yt_dlp` crate: its fetch client, its
//! descriptions of a source and of a stream, the setting of the client's
//! time limit, and the two picks of a stream.
//!
//! Nothing in this file is proved. The three types are carried through as
//! opaque values. The three operations are known by name only: the client
//! keeps its time limit in a field among others that this library never
//! reads, and the crate ranks streams by quality, bit rate, resolution and
//! the like, which are floating-point and optional fields.

use std::time::Duration;
use vstd::prelude::*;
use yt_dlp::model::format::Format;
use yt_dlp::model::Video;
use yt_dlp::Youtube;

verus! {

/// `yt_dlp::Youtube`: the fetch client, which runs the helper programs and
/// writes under its output directory. Opaque here.
#[verifier::external_type_specification]
#[verifier::external_body]
pub struct ExYoutube(Youtube);

/// `yt_dlp::model::Video`: what the fetch client reports of one source,
/// with every stream that can be downloaded from it. Opaque here.
#[verifier::external_type_specification]
#[verifier::external_body]
pub struct ExVideo(Video);

/// `yt_dlp::model::format::Format`: one downloadable stream of a source.
/// Opaque here.
#[verifier::external_type_specification]
#[verifier::external_body]
pub struct ExFormat(Format);

/// The client that `Youtube::with_timeout` makes of `client` when it is
/// given `secs` seconds: the same client, but that each command it runs
/// from now on is given that long.
pub uninterp spec fn with_timeout_of(client: Youtube, secs: u64) -> Youtube;

/// The stream that `Video::best_audio_format` picks from `video`, if it
/// picks one. The pick is a function of `video` alone: the crate takes the
/// greatest of the streams that carry sound and no pictures, by an order on
/// their fields.
pub uninterp spec fn best_audio_of(video: Video) -> Option<Format>;

/// The stream that `Video::worst_video_format` picks from `video`, if it
/// picks one. The pick is a function of `video` alone: the crate takes the
/// least of the streams that carry pictures and no sound, by an order on
/// their fields.
pub uninterp spec fn worst_video_of(video: Video) -> Option<Format>;

/// Calls `Youtube::with_timeout` on `client` with a duration of `secs`
/// seconds, and hands the client back. The contract gives the outcome its
/// name and claims nothing else of it.
#[verifier::external_body]
pub(crate) fn with_timeout(client: Youtube, secs: u64) -> (limited: Youtube)
    ensures
        limited == with_timeout_of(client, secs),
{
    let mut client = client;
    client.with_timeout(Duration::from_secs(secs));
    client
}

/// Calls `Video::best_audio_format` and clones the stream that it picks.
/// The contract gives the pick its name and claims nothing else of it.
#[verifier::external_body]
pub(crate) fn best_audio_format(video: &Video) -> (choice: Option<Format>)
    ensures
        choice == best_audio_of(*video),
{
    video.best_audio_format().cloned()
}

/// Calls `Video::worst_video_format` and clones the stream that it picks.
/// The contract gives the pick its name and claims nothing else of it.
#[verifier::external_body]
pub(crate) fn worst_video_format(video: &Video) -> (choice: Option<Format>)
    ensures
        choice == worst_video_of(*video),
{
    video.worst_video_format().cloned()
}

} // verus!
