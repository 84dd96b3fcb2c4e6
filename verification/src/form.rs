//! The entry form: three text fields, one submit control, and the two flags
//! that a download in flight reports through.
//!
//! The form is a state machine. Edits change the fields, a submit starts a
//! download when the control is enabled, and the end of that download sets
//! the flags. At most one download is in flight, because the control is
//! disabled while one is.

use crate::download::{download_video, Download, DownloadView};
use crate::validation::{is_valid_url, lemma_valid_url_nonempty, url_is_valid};
use vstd::prelude::*;

verus! {

/// The mathematical value of a [`UrlInput`].
pub struct FormState {
    /// The address as typed.
    pub url: Seq<char>,
    /// The directory that receives the result.
    pub output_dir: Seq<char>,
    /// The name of the result in that directory.
    pub output_file: Seq<char>,
    /// Whether the address was accepted when it was typed.
    pub is_valid_url: bool,
    /// Whether a download is in flight.
    pub is_loading: bool,
    /// Whether the last download brought its result.
    pub is_success: bool,
}

/// The mathematical value of an [`Input`].
pub enum InputView {
    Url(Seq<char>),
    OutputDir(Seq<char>),
    OutputFile(Seq<char>),
    Submit,
    Finished { success: bool },
}

impl FormState {
    /// The form as it opens: nothing typed, no download, no result.
    pub open spec fn initial() -> FormState {
        FormState {
            url: Seq::empty(),
            output_dir: Seq::empty(),
            output_file: Seq::empty(),
            is_valid_url: false,
            is_loading: false,
            is_success: false,
        }
    }

    /// The validity flag agrees with the address, and no download is both
    /// in flight and successful.
    pub open spec fn wf(self) -> bool {
        &&& self.is_valid_url == url_is_valid(self.url)
        &&& !(self.is_loading && self.is_success)
    }

    /// Whether the submit control is disabled.
    pub open spec fn submit_disabled(self) -> bool {
        !self.is_valid_url || self.is_loading
    }

    /// The form after `url` was typed into the address field.
    pub open spec fn with_url(self, url: Seq<char>) -> FormState {
        FormState { url, is_valid_url: url_is_valid(url), ..self }
    }

    /// The form after `output_dir` was typed into the directory field.
    pub open spec fn with_output_dir(self, output_dir: Seq<char>) -> FormState {
        FormState { output_dir, ..self }
    }

    /// The form after `output_file` was typed into the file name field.
    pub open spec fn with_output_file(self, output_file: Seq<char>) -> FormState {
        FormState { output_file, ..self }
    }

    /// The download that a submit starts: none while the control is
    /// disabled, else the download of what the fields hold.
    pub open spec fn launch(self) -> Option<DownloadView> {
        if self.submit_disabled() {
            None
        } else {
            Some(DownloadView::start(self.url, self.output_dir, self.output_file))
        }
    }

    /// The form after a submit: unchanged while the control is disabled,
    /// else with a download in flight and the last result forgotten.
    pub open spec fn submitted(self) -> FormState {
        if self.submit_disabled() {
            self
        } else {
            FormState { is_loading: true, is_success: false, ..self }
        }
    }

    /// The form after a download has ended: unchanged where none was in
    /// flight, else with none in flight any more, and marked successful
    /// where the download brought its result.
    pub open spec fn finished(self, success: bool) -> FormState {
        if self.is_loading {
            FormState {
                is_loading: false,
                is_success: if success {
                    true
                } else {
                    self.is_success
                },
                ..self
            }
        } else {
            self
        }
    }

    /// The form after `input`.
    pub open spec fn apply(self, input: InputView) -> FormState {
        match input {
            InputView::Url(url) => self.with_url(url),
            InputView::OutputDir(output_dir) => self.with_output_dir(output_dir),
            InputView::OutputFile(output_file) => self.with_output_file(output_file),
            InputView::Submit => self.submitted(),
            InputView::Finished { success } => self.finished(success),
        }
    }

    /// The download that `input` starts, if it starts one.
    pub open spec fn launched_by(self, input: InputView) -> Option<DownloadView> {
        match input {
            InputView::Submit => self.launch(),
            _ => None,
        }
    }

    /// `input` is the end of the download in flight.
    pub open spec fn ends_download(self, input: InputView) -> bool {
        self.is_loading && input is Finished
    }

    /// `input` is the end of the download in flight, with its result.
    pub open spec fn ends_download_well(self, input: InputView) -> bool {
        self.is_loading && input == (InputView::Finished { success: true })
    }

    /// `input` turns the success flag on.
    pub open spec fn marks_success(self, input: InputView) -> bool {
        !self.is_success && self.apply(input).is_success
    }

    /// The form after `inputs`, one after the other.
    pub open spec fn run(self, inputs: Seq<InputView>) -> FormState
        decreases inputs.len(),
    {
        if inputs.len() == 0 {
            self
        } else {
            self.apply(inputs[0]).run(inputs.drop_first())
        }
    }

    /// How many downloads `inputs` start.
    pub open spec fn downloads_started(self, inputs: Seq<InputView>) -> nat
        decreases inputs.len(),
    {
        if inputs.len() == 0 {
            0
        } else {
            let here: nat = if self.launched_by(inputs[0]) is Some {
                1
            } else {
                0
            };
            here + self.apply(inputs[0]).downloads_started(inputs.drop_first())
        }
    }

    /// How many downloads `inputs` end.
    pub open spec fn downloads_ended(self, inputs: Seq<InputView>) -> nat
        decreases inputs.len(),
    {
        if inputs.len() == 0 {
            0
        } else {
            let here: nat = if self.ends_download(inputs[0]) {
                1
            } else {
                0
            };
            here + self.apply(inputs[0]).downloads_ended(inputs.drop_first())
        }
    }

    /// How many downloads `inputs` end with their result.
    pub open spec fn downloads_ended_well(self, inputs: Seq<InputView>) -> nat
        decreases inputs.len(),
    {
        if inputs.len() == 0 {
            0
        } else {
            let here: nat = if self.ends_download_well(inputs[0]) {
                1
            } else {
                0
            };
            here + self.apply(inputs[0]).downloads_ended_well(inputs.drop_first())
        }
    }

    /// How many times the success flag is turned on while `inputs` happen.
    pub open spec fn times_marked_successful(self, inputs: Seq<InputView>) -> nat
        decreases inputs.len(),
    {
        if inputs.len() == 0 {
            0
        } else {
            let here: nat = if self.marks_success(inputs[0]) {
                1
            } else {
                0
            };
            here + self.apply(inputs[0]).times_marked_successful(inputs.drop_first())
        }
    }

    /// How many downloads are in flight: one or none.
    pub open spec fn in_flight(self) -> nat {
        if self.is_loading {
            1
        } else {
            0
        }
    }
}

/// What can happen to the form: an edit of one of its fields, a press of
/// the submit control, or the end of the download in flight.
pub enum Input {
    /// The address field now holds this text.
    Url(String),
    /// The directory field now holds this text.
    OutputDir(String),
    /// The file name field now holds this text.
    OutputFile(String),
    /// The submit control was pressed.
    Submit,
    /// The download in flight has ended, with its result or without it.
    Finished { success: bool },
}

impl View for Input {
    type V = InputView;

    open spec fn view(&self) -> InputView {
        match *self {
            Input::Url(url) => InputView::Url(url@),
            Input::OutputDir(output_dir) => InputView::OutputDir(output_dir@),
            Input::OutputFile(output_file) => InputView::OutputFile(output_file@),
            Input::Submit => InputView::Submit,
            Input::Finished { success } => InputView::Finished { success },
        }
    }
}

/// An address together with the verdict on it.
struct UrlField {
    text: String,
    valid: bool,
}

impl UrlField {
    #[verifier::type_invariant]
    spec fn judged(self) -> bool {
        self.valid == url_is_valid(self.text@)
    }

    fn empty() -> (field: UrlField)
        ensures
            field.text@ == Seq::<char>::empty(),
            !field.valid,
    {
        let text = String::new();
        proof {
            if url_is_valid(text@) {
                lemma_valid_url_nonempty(text@);
            }
        }
        UrlField { text, valid: false }
    }

    fn new(text: String) -> (field: UrlField)
        ensures
            field.text@ == text@,
            field.valid == url_is_valid(text@),
    {
        let valid = is_valid_url(text.as_str());
        UrlField { text, valid }
    }
}

/// The entry form.
pub struct UrlInput {
    url: UrlField,
    output_dir: String,
    output_file: String,
    is_loading: bool,
    is_success: bool,
}

impl View for UrlInput {
    type V = FormState;

    closed spec fn view(&self) -> FormState {
        FormState {
            url: self.url.text@,
            output_dir: self.output_dir@,
            output_file: self.output_file@,
            is_valid_url: self.url.valid,
            is_loading: self.is_loading,
            is_success: self.is_success,
        }
    }
}

impl UrlInput {
    #[verifier::type_invariant]
    spec fn exclusive(self) -> bool {
        !(self.is_loading && self.is_success)
    }

    /// The form as it opens.
    pub fn new() -> (form: UrlInput)
        ensures
            form@ == FormState::initial(),
            form@.wf(),
    {
        let form = UrlInput {
            url: UrlField::empty(),
            output_dir: String::new(),
            output_file: String::new(),
            is_loading: false,
            is_success: false,
        };
        proof {
            use_type_invariant(&form.url);
        }
        form
    }

    /// The address as typed.
    pub fn url(&self) -> (url: &str)
        ensures
            url@ == self@.url,
    {
        self.url.text.as_str()
    }

    /// The directory that receives the result.
    pub fn output_dir(&self) -> (output_dir: &str)
        ensures
            output_dir@ == self@.output_dir,
    {
        self.output_dir.as_str()
    }

    /// The name of the result in that directory.
    pub fn output_file(&self) -> (output_file: &str)
        ensures
            output_file@ == self@.output_file,
    {
        self.output_file.as_str()
    }

    /// Whether the address is accepted.
    pub fn is_valid_url(&self) -> (valid: bool)
        ensures
            valid == self@.is_valid_url,
            valid == url_is_valid(self@.url),
    {
        proof {
            use_type_invariant(&self.url);
        }
        self.url.valid
    }

    /// Whether a download is in flight.
    pub fn is_loading(&self) -> (loading: bool)
        ensures
            loading == self@.is_loading,
    {
        self.is_loading
    }

    /// Whether the last download brought its result.
    pub fn is_success(&self) -> (success: bool)
        ensures
            success == self@.is_success,
            success ==> !self@.is_loading,
    {
        proof {
            use_type_invariant(self);
        }
        self.is_success
    }

    /// Whether the submit control is disabled: it is while the address is
    /// not accepted, and while a download is in flight.
    pub fn submit_disabled(&self) -> (disabled: bool)
        ensures
            disabled == self@.submit_disabled(),
            disabled == (!url_is_valid(self@.url) || self@.is_loading),
    {
        proof {
            use_type_invariant(&self.url);
        }
        !self.url.valid || self.is_loading
    }

    /// Takes a new address and judges it.
    pub fn set_url(&mut self, url: String)
        ensures
            final(self)@ == old(self)@.with_url(url@),
            final(self)@.wf(),
    {
        proof {
            use_type_invariant(&*self);
        }
        self.url = UrlField::new(url);
    }

    /// Takes a new output directory.
    pub fn set_output_dir(&mut self, output_dir: String)
        ensures
            final(self)@ == old(self)@.with_output_dir(output_dir@),
            final(self)@.wf(),
    {
        proof {
            use_type_invariant(&*self);
            use_type_invariant(&self.url);
        }
        self.output_dir = output_dir;
    }

    /// Takes a new output file name.
    pub fn set_output_file(&mut self, output_file: String)
        ensures
            final(self)@ == old(self)@.with_output_file(output_file@),
            final(self)@.wf(),
    {
        proof {
            use_type_invariant(&*self);
            use_type_invariant(&self.url);
        }
        self.output_file = output_file;
    }

    /// Presses the submit control. While it is disabled nothing happens
    /// and no download is handed out. Else the form shows a download in
    /// flight, its last result is forgotten, and the download of what the
    /// fields hold is handed out for the caller to drive.
    pub fn submit(&mut self) -> (job: Option<Download>)
        ensures
            final(self)@ == old(self)@.submitted(),
            final(self)@.wf(),
            job is Some <==> !old(self)@.submit_disabled(),
            match job {
                Some(download) => old(self)@.launch() == Some(download@),
                None => old(self)@.launch() is None,
            },
    {
        proof {
            use_type_invariant(&*self);
            use_type_invariant(&self.url);
        }
        if !self.url.valid || self.is_loading {
            return None;
        }
        self.is_success = false;
        self.is_loading = true;
        Some(
            download_video(
                self.url.text.as_str(),
                self.output_dir.as_str(),
                self.output_file.as_str(),
            ),
        )
    }

    /// Takes the end of the download in flight: none is in flight any
    /// more, and the form is marked successful where the download brought
    /// its result. Where no download was in flight nothing happens.
    pub fn finish(&mut self, success: bool)
        ensures
            final(self)@ == old(self)@.finished(success),
            final(self)@.wf(),
    {
        proof {
            use_type_invariant(&*self);
            use_type_invariant(&self.url);
        }
        if self.is_loading {
            self.is_loading = false;
            if success {
                self.is_success = true;
            }
        }
    }

    /// Applies `input` to the form and hands out the download that it
    /// starts, if it starts one.
    pub fn handle(&mut self, input: Input) -> (job: Option<Download>)
        ensures
            final(self)@ == old(self)@.apply(input@),
            final(self)@.wf(),
            match job {
                Some(download) => old(self)@.launched_by(input@) == Some(download@),
                None => old(self)@.launched_by(input@) is None,
            },
    {
        match input {
            Input::Url(url) => {
                self.set_url(url);
                None
            },
            Input::OutputDir(output_dir) => {
                self.set_output_dir(output_dir);
                None
            },
            Input::OutputFile(output_file) => {
                self.set_output_file(output_file);
                None
            },
            Input::Submit => self.submit(),
            Input::Finished { success } => {
                self.finish(success);
                None
            },
        }
    }
}

} // verus!
