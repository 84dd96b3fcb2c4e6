//! What holds of the form and of a download, whatever their inputs.

use crate::client::{best_audio_of, with_timeout_of, worst_video_of};
use crate::download::{
    ActionView, DownloadView, Event, LIBRARIES_DIR, TEMP_AUDIO, TEMP_VIDEO, TIMEOUT_SECS,
};
use crate::form::{FormState, InputView};
use crate::text::has_substring;
use crate::validation::{lemma_valid_url_nonempty, url_is_valid, LONG_HOST, SHORT_HOST};
use vstd::prelude::*;
use yt_dlp::model::format::Format;
use yt_dlp::model::Video;
use yt_dlp::Youtube;

verus! {

/// The form is well formed when it opens.
pub proof fn law_initial_form_is_well_formed()
    ensures
        FormState::initial().wf(),
{
    if url_is_valid(Seq::<char>::empty()) {
        lemma_valid_url_nonempty(Seq::<char>::empty());
    }
}

/// No input takes a well-formed form to one that is not.
pub proof fn law_form_stays_well_formed(form: FormState, input: InputView)
    requires
        form.wf(),
    ensures
        form.apply(input).wf(),
{
}

/// While no download is in flight, the submit control is enabled after an
/// address was typed exactly when that address holds one of the two host
/// names.
pub proof fn law_submit_enabled_iff_url_valid(form: FormState, url: Seq<char>)
    requires
        !form.is_loading,
    ensures
        !form.with_url(url).submit_disabled() <==> (has_substring(url, LONG_HOST@)
            || has_substring(url, SHORT_HOST@)),
{
}

/// While a download is in flight the submit control is disabled, whatever
/// address the form holds and whatever is typed into it.
pub proof fn law_submit_disabled_while_loading(form: FormState, url: Seq<char>)
    requires
        form.is_loading,
    ensures
        form.submit_disabled(),
        form.with_url(url).submit_disabled(),
        form.launch() is None,
        form.submitted() == form,
{
}

/// A form whose address is not accepted starts no download.
pub proof fn law_invalid_url_starts_nothing(form: FormState)
    requires
        form.wf(),
        !url_is_valid(form.url),
    ensures
        form.submit_disabled(),
        form.launch() is None,
        form.submitted() == form,
{
}

/// When the download in flight ends with its result, none is in flight
/// any more and the form is marked successful.
pub proof fn law_success_clears_loading_and_marks(form: FormState)
    requires
        form.wf(),
        form.is_loading,
    ensures
        !form.finished(true).is_loading,
        form.finished(true).is_success,
        form.marks_success(InputView::Finished { success: true }),
{
}

/// When the download in flight ends without its result, none is in flight
/// any more and the form is still not marked successful.
pub proof fn law_failure_clears_loading_only(form: FormState)
    requires
        form.wf(),
        form.is_loading,
    ensures
        !form.finished(false).is_loading,
        !form.is_success,
        !form.finished(false).is_success,
{
}

/// The success flag is turned on by the end of a download that brought its
/// result, and by nothing else.
pub proof fn law_marked_iff_ended_well(form: FormState, input: InputView)
    requires
        form.wf(),
    ensures
        form.marks_success(input) <==> form.ends_download_well(input),
{
}

/// Over any inputs, the success flag is turned on exactly once for each
/// download that ends with its result.
pub proof fn law_marked_once_per_success(form: FormState, inputs: Seq<InputView>)
    requires
        form.wf(),
    ensures
        form.times_marked_successful(inputs) == form.downloads_ended_well(inputs),
    decreases inputs.len(),
{
    if inputs.len() > 0 {
        law_marked_iff_ended_well(form, inputs[0]);
        law_form_stays_well_formed(form, inputs[0]);
        law_marked_once_per_success(form.apply(inputs[0]), inputs.drop_first());
    }
}

/// Over any inputs, the downloads in flight at the start and those started
/// are the downloads ended and those in flight at the end. As at most one
/// is in flight in any state, a download starts only after the one before
/// it has ended.
pub proof fn law_one_download_at_a_time(form: FormState, inputs: Seq<InputView>)
    ensures
        form.in_flight() + form.downloads_started(inputs) == form.downloads_ended(inputs)
            + form.run(inputs).in_flight(),
        form.run(inputs).in_flight() <= 1,
    decreases inputs.len(),
{
    if inputs.len() > 0 {
        law_one_download_at_a_time(form.apply(inputs[0]), inputs.drop_first());
    }
}

/// A download that has ended stays as it is, whatever is reported to it
/// afterwards.
pub proof fn law_ended_download_stays(job: DownloadView, events: Seq<Event>)
    requires
        job.outcome() is Some,
    ensures
        job.run(events) == job,
    decreases events.len(),
{
    if events.len() > 0 {
        assert(job.next(events[0]) == job);
        law_ended_download_stays(job, events.drop_first());
    }
}

/// A failure that is reported of any step but the removal of the temporary
/// files ends the download at once, without its result: the driver is
/// asked for nothing more, not even to clean up.
pub proof fn law_failure_ends_download(job: DownloadView)
    requires
        job.outcome() is None,
        !(job.phase is Cleaning),
    ensures
        job.next(Event::Failed).outcome() == Some(false),
        job.next(Event::Failed).action() == (ActionView::Finish { success: false }),
{
}

/// Whatever is reported of the removal of the temporary files, the download
/// ends with its result.
pub proof fn law_cleaning_cannot_fail(job: DownloadView, event: Event)
    requires
        job.phase is Cleaning,
    ensures
        job.next(event).outcome() == Some(true),
{
}

/// What the driver reports when every step works: the client `client` as
/// it was opened, the description `video` of the source, and four steps
/// performed.
pub open spec fn events_of_smooth_run(client: Youtube, video: Video) -> Seq<Event> {
    seq![
        Event::Opened(client),
        Event::Described(video),
        Event::Completed,
        Event::Completed,
        Event::Completed,
        Event::Completed,
    ]
}

/// When every step works and the source has a sound stream and a picture
/// stream, the driver is asked, in this order: to open a client on the
/// fixed directory of helper programs and the given output directory; to
/// fetch the description of the given address; to download the best sound
/// stream and then the worst picture stream, each into its temporary file;
/// to combine the two files into the given output file; to remove the two
/// files; and the download ends with its result. From the fetch to the
/// combination the driver is handed the client that it opened, with the
/// fixed time limit set.
pub proof fn law_steps_of_smooth_run(
    url: Seq<char>,
    output_dir: Seq<char>,
    output_file: Seq<char>,
    client: Youtube,
    video: Video,
    audio: Format,
    pictures: Format,
)
    requires
        best_audio_of(video) == Some(audio),
        worst_video_of(video) == Some(pictures),
    ensures
        ({
            let limited = with_timeout_of(client, TIMEOUT_SECS);
            DownloadView::start(url, output_dir, output_file).actions(
                events_of_smooth_run(client, video),
            ) == seq![
                ActionView::OpenClient { libraries_dir: LIBRARIES_DIR@, output_dir },
                ActionView::FetchInfo { client: limited, url },
                ActionView::DownloadFormat { client: limited, format: audio, file: TEMP_AUDIO@ },
                ActionView::DownloadFormat { client: limited, format: pictures, file: TEMP_VIDEO@ },
                ActionView::Combine {
                    client: limited,
                    audio_file: TEMP_AUDIO@,
                    video_file: TEMP_VIDEO@,
                    output_file,
                },
                ActionView::RemoveFiles { audio_file: TEMP_AUDIO@, video_file: TEMP_VIDEO@ },
                ActionView::Finish { success: true },
            ]
        }),
        DownloadView::start(url, output_dir, output_file).run(
            events_of_smooth_run(client, video),
        ).outcome() == Some(true),
{
    let events = events_of_smooth_run(client, video);
    let s0 = DownloadView::start(url, output_dir, output_file);
    let s1 = s0.next(events[0]);
    let s2 = s1.next(events[1]);
    let s3 = s2.next(events[2]);
    let s4 = s3.next(events[3]);
    let s5 = s4.next(events[4]);
    let s6 = s5.next(events[5]);
    let e1 = events.drop_first();
    let e2 = e1.drop_first();
    let e3 = e2.drop_first();
    let e4 = e3.drop_first();
    let e5 = e4.drop_first();
    let e6 = e5.drop_first();
    assert(e6.len() == 0);
    assert(s6.actions(e6) == seq![s6.action()]);
    assert(s5.actions(e5) == seq![s5.action()] + s6.actions(e6));
    assert(s4.actions(e4) == seq![s4.action()] + s5.actions(e5));
    assert(s3.actions(e3) == seq![s3.action()] + s4.actions(e4));
    assert(s2.actions(e2) == seq![s2.action()] + s3.actions(e3));
    assert(s1.actions(e1) == seq![s1.action()] + s2.actions(e2));
    assert(s0.actions(events) == seq![s0.action()] + s1.actions(e1));
    assert(s6.run(e6) == s6);
    assert(s5.run(e5) == s6);
    assert(s4.run(e4) == s6);
    assert(s3.run(e3) == s6);
    assert(s2.run(e2) == s6);
    assert(s1.run(e1) == s6);
    assert(s0.run(events) == s6);
}

/// A download ends with its result only after every step was reported: the
/// client was opened, the source was described and has a sound stream and
/// a picture stream, both streams were downloaded, the two files were
/// combined, and something was reported of their removal.
pub proof fn law_success_needs_every_step(
    url: Seq<char>,
    output_dir: Seq<char>,
    output_file: Seq<char>,
    events: Seq<Event>,
)
    requires
        DownloadView::start(url, output_dir, output_file).run(events).outcome() == Some(true),
    ensures
        events.len() >= 6,
        events[0] is Opened,
        events[1] is Described,
        best_audio_of(events[1]->Described_0) is Some,
        events[2] is Completed,
        worst_video_of(events[1]->Described_0) is Some,
        events[3] is Completed,
        events[4] is Completed,
{
    let s0 = DownloadView::start(url, output_dir, output_file);
    let e1 = events.drop_first();
    let e2 = e1.drop_first();
    let e3 = e2.drop_first();
    let e4 = e3.drop_first();
    let e5 = e4.drop_first();
    assert(events.len() >= 1);
    let s1 = s0.next(events[0]);
    assert(s0.run(events) == s1.run(e1));
    if s1.outcome() is Some {
        law_ended_download_stays(s1, e1);
    }
    assert(e1.len() >= 1);
    let s2 = s1.next(e1[0]);
    assert(s1.run(e1) == s2.run(e2));
    if s2.outcome() is Some {
        law_ended_download_stays(s2, e2);
    }
    assert(e2.len() >= 1);
    let s3 = s2.next(e2[0]);
    assert(s2.run(e2) == s3.run(e3));
    if s3.outcome() is Some {
        law_ended_download_stays(s3, e3);
    }
    assert(e3.len() >= 1);
    let s4 = s3.next(e3[0]);
    assert(s3.run(e3) == s4.run(e4));
    if s4.outcome() is Some {
        law_ended_download_stays(s4, e4);
    }
    assert(e4.len() >= 1);
    let s5 = s4.next(e4[0]);
    assert(s4.run(e4) == s5.run(e5));
    if s5.outcome() is Some {
        law_ended_download_stays(s5, e5);
    }
    assert(e5.len() >= 1);
}

} // verus!
