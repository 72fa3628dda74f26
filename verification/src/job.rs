//! The conversion job: what it knows, what it asks for next, and what it
//! decides when the answer comes.
//!
//! A job never touches the network, the disk or another process. It hands
//! out one [`Action`] at a time; whoever runs the action hands back an
//! [`Event`], and [`Presentation::step`] decides from the two what happens
//! next. Whatever the events, a job that is stepped to its end asks for
//! exactly one notification and, after it, exactly one removal of its
//! working directory.

use crate::commands::{
    convert_command, convert_line, count_command, count_line, split_command, split_line,
};
use crate::ident::{fresh_uuid, is_hyphenated_uuid};
use crate::pages::{
    allocate, answered_ok, blank_pages, exit_ok, exited_ok, law_slots_are_fixed, numbered,
    place_all, placed_all, stage_passed, stage_passes, status_ok, CompletionView, PageArtifact,
    PageView, TaskKind,
};
use crate::paths::{
    canonical_file, canonical_path, download_file, download_path, work_dir, work_dir_path,
};
use crate::protocol::{
    forms_of, make_forms, make_page_files, make_render_tasks, make_text_tasks, page_files,
    render_tasks, text_tasks, Action, ActionView, Event, EventView, JobError, Outcome, Stage, Task,
    WORKERS,
};
use crate::request::{RequestBody, RequestView};
use crate::text::{decimal, decimal_string, parse_unsigned, trim, trimmed, unsigned_value};
use vstd::prelude::*;

verus! {

/// The mathematical value of a job.
pub struct JobView {
    /// Where the source document is.
    pub source: Seq<char>,
    /// The job's identifier, which also names its working directory.
    pub id: Seq<char>,
    /// The declared format of the source.
    pub format: Seq<char>,
    /// Where the pages are delivered.
    pub destination: Seq<char>,
    /// Where the notification is sent.
    pub callback: Seq<char>,
    /// Whether the renderer keeps the alpha channel.
    pub preserve_transparency: bool,
    /// The number of pages; 0 until the pages are counted.
    pub page_count: nat,
    /// One slot per page.
    pub pages: Seq<PageView>,
    /// What the job is waiting for.
    pub stage: Stage,
    /// How the job ended, once that is decided.
    pub outcome: Outcome,
    /// Whether the notification was not delivered.
    pub notify_failed: bool,
    /// Whether the working directory was not removed.
    pub cleanup_failed: bool,
}

/// The stages in which the pages are not counted yet.
pub open spec fn uncounted(stage: Stage) -> bool {
    stage is Downloading || stage is Normalizing || stage is Counting
}

/// The stages in which the outcome is still open.
pub open spec fn forward(stage: Stage) -> bool {
    stage is Downloading || stage is Normalizing || stage is Counting || stage is Splitting
        || stage is Processing || stage is Uploading
}

impl JobView {
    /// What holds of every job: it has one slot per page, each slot at its
    /// page's place; it has no slots before the pages are counted; and its
    /// outcome is open exactly while it works forward.
    pub open spec fn wf(self) -> bool {
        &&& self.pages.len() == self.page_count
        &&& numbered(self.pages)
        &&& (uncounted(self.stage) ==> self.page_count == 0)
        &&& (self.outcome is Pending <==> forward(self.stage))
    }
}

/// The office formats, which the converter brings into canonical form.
pub open spec fn is_office(format: Seq<char>) -> bool {
    format == "ppt"@ || format == "pptx"@ || format == "odp"@
}

/// The canonical format.
pub open spec fn is_canonical(format: Seq<char>) -> bool {
    format == "pdf"@
}

/// The state word of a notification.
pub open spec fn state_word(success: bool) -> Seq<char> {
    if success {
        "success"@
    } else {
        "error"@
    }
}

/// The message of every notification.
pub open spec fn ack_message() -> Seq<char> {
    "message"@
}

/// What the page counter's output says: the number it prints, white space
/// around it aside, if it prints one that fits the machine word.
pub open spec fn page_count(output: Seq<char>) -> Option<nat> {
    match unsigned_value(trimmed(output)) {
        Some(n) => if n <= usize::MAX {
            Some(n)
        } else {
            None
        },
        None => None,
    }
}

/// The answer to the request once the job is over.
pub open spec fn response(job: JobView) -> Seq<char> {
    if job.outcome is Succeeded {
        "Successfully extracted "@ + decimal(job.page_count) + " slides"@
    } else {
        "Error happened in the extraction"@
    }
}

/// The first action of a job.
pub open spec fn download_plan(job: JobView) -> ActionView {
    ActionView::Download { url: job.source, dir: work_dir(job.id), file: download_file(job.id) }
}

/// How the download is brought into canonical form: by the converter for
/// an office format, by a mere change of name for the canonical format, and
/// not at all for any other.
pub open spec fn normalize_plan(job: JobView) -> Result<ActionView, JobError> {
    if is_office(job.format) {
        Ok(ActionView::Convert { command: convert_line(job.id) })
    } else if is_canonical(job.format) {
        Ok(ActionView::Rename { from: download_file(job.id), to: canonical_file(job.id) })
    } else {
        Err(JobError::UnsupportedFormat)
    }
}

/// The action that counts the pages.
pub open spec fn count_plan(job: JobView) -> ActionView {
    ActionView::CountPages { command: count_line(job.id) }
}

/// The action that splits the document into one file per page.
pub open spec fn split_plan(job: JobView) -> ActionView {
    ActionView::SplitPages {
        command: split_line(job.id),
        files: page_files(job.id, job.page_count),
    }
}

/// The action that renders every page and extracts every page's text.
pub open spec fn process_plan(job: JobView) -> ActionView {
    ActionView::Process {
        workers: WORKERS as nat,
        renders: render_tasks(job.id, job.page_count, job.preserve_transparency),
        extracts: text_tasks(job.id, job.page_count),
    }
}

/// The action that delivers every page to `url`.
pub open spec fn upload_plan(job: JobView, url: Seq<char>) -> ActionView {
    ActionView::Upload { workers: WORKERS as nat, url, forms: forms_of(job.id, job.pages) }
}

/// The notification that reports `success`.
pub open spec fn notify_plan(job: JobView, success: bool) -> ActionView {
    ActionView::Notify { url: job.callback, success: state_word(success), message: ack_message() }
}

/// The action that removes the working directory.
pub open spec fn cleanup_plan(job: JobView) -> ActionView {
    ActionView::Cleanup { dir: work_dir(job.id) }
}

/// A new job and its first action.
pub open spec fn started(request: RequestView, id: Seq<char>) -> (JobView, ActionView) {
    let job = JobView {
        source: request.source,
        id,
        format: request.format,
        destination: request.destination,
        callback: request.callback,
        preserve_transparency: request.preserve_transparency,
        page_count: 0,
        pages: Seq::empty(),
        stage: Stage::Downloading,
        outcome: Outcome::Pending,
        notify_failed: false,
        cleanup_failed: false,
    };
    (job, download_plan(job))
}

/// The error edge: the job fails with `error` and reports so.
pub open spec fn failed(job: JobView, error: JobError) -> (JobView, ActionView) {
    (
        JobView { stage: Stage::Notifying, outcome: Outcome::Failed(error), ..job },
        notify_plan(job, false),
    )
}

/// Whether `event` says that the action of stage `Normalizing` was carried out.
pub open spec fn normalized(job: JobView, event: EventView) -> bool {
    if is_office(job.format) {
        event matches EventView::Converted { code } && exit_ok(code)
    } else {
        event is Renamed
    }
}

/// The job's slots once the reports of both fan-out stages are written.
pub open spec fn processed_pages(
    job: JobView,
    renders: Seq<CompletionView>,
    texts: Seq<CompletionView>,
) -> Seq<PageView> {
    placed_all(
        placed_all(job.pages, job.id, TaskKind::Render, renders),
        job.id,
        TaskKind::Extract,
        texts,
    )
}

/// One decision of a job: from where it stands and what came back, where it
/// stands next and what it asks for.
pub open spec fn step_spec(job: JobView, event: EventView) -> (JobView, ActionView) {
    match job.stage {
        Stage::Downloading => {
            if event matches EventView::Downloaded { status } && status_ok(Some(status)) {
                match normalize_plan(job) {
                    Ok(action) => (JobView { stage: Stage::Normalizing, ..job }, action),
                    Err(error) => failed(job, error),
                }
            } else {
                failed(job, JobError::Download)
            }
        },
        Stage::Normalizing => {
            if normalized(job, event) {
                (JobView { stage: Stage::Counting, ..job }, count_plan(job))
            } else {
                failed(job, JobError::ConversionTool)
            }
        },
        Stage::Counting => {
            match event {
                EventView::Counted { code, output } => {
                    if exit_ok(code) && page_count(output) is Some {
                        let n = page_count(output)->0;
                        let next = JobView {
                            stage: Stage::Splitting,
                            page_count: n,
                            pages: blank_pages(n),
                            ..job
                        };
                        (next, split_plan(next))
                    } else {
                        failed(job, JobError::PageCount)
                    }
                },
                _ => failed(job, JobError::PageCount),
            }
        },
        Stage::Splitting => {
            if event matches EventView::Split { code, pages } && exit_ok(code) && pages
                == job.page_count {
                (JobView { stage: Stage::Processing, ..job }, process_plan(job))
            } else {
                failed(job, JobError::PageSplit)
            }
        },
        Stage::Processing => {
            match event {
                EventView::Processed { renders, texts } => {
                    let next = JobView { pages: processed_pages(job, renders, texts), ..job };
                    if !stage_passed(job.page_count, renders) {
                        failed(next, JobError::Render)
                    } else if !stage_passed(job.page_count, texts) {
                        failed(next, JobError::Extract)
                    } else {
                        (
                            JobView { stage: Stage::Uploading, ..next },
                            upload_plan(next, next.destination),
                        )
                    }
                },
                _ => failed(job, JobError::Render),
            }
        },
        Stage::Uploading => {
            if event matches EventView::Uploaded { deliveries } && stage_passed(
                job.page_count,
                deliveries,
            ) {
                (
                    JobView { stage: Stage::Notifying, outcome: Outcome::Succeeded, ..job },
                    notify_plan(job, true),
                )
            } else {
                failed(job, JobError::Upload)
            }
        },
        Stage::Notifying => {
            let delivered = event matches EventView::Notified { status } && status_ok(
                Some(status),
            );
            (
                JobView { stage: Stage::CleaningUp, notify_failed: !delivered, ..job },
                cleanup_plan(job),
            )
        },
        Stage::CleaningUp => {
            (
                JobView { stage: Stage::Done, cleanup_failed: !(event is CleanedUp), ..job },
                ActionView::Finish { message: response(job) },
            )
        },
        Stage::Done => (job, ActionView::Finish { message: response(job) }),
    }
}

/// The text of every page, first page first.
pub open spec fn texts_in(pages: Seq<PageView>) -> Seq<Seq<char>> {
    Seq::new(pages.len(), |i: int| pages[i].text)
}

/// Everything that went wrong in a job, for the log: the error that decided
/// its outcome, if it failed, then what went wrong in its tail.
pub open spec fn errors_of(job: JobView) -> Seq<JobError> {
    let decided = match job.outcome {
        Outcome::Failed(error) => seq![error],
        _ => Seq::empty(),
    };
    let notified = if job.notify_failed {
        seq![JobError::Notify]
    } else {
        Seq::empty()
    };
    let cleaned = if job.cleanup_failed {
        seq![JobError::Cleanup]
    } else {
        Seq::empty()
    };
    decided + notified + cleaned
}

/// The plan of a stage that may refuse, as mathematics sees it.
pub open spec fn plan_view(plan: Result<Action, JobError>) -> Result<ActionView, JobError> {
    match plan {
        Ok(action) => Ok(action@),
        Err(error) => Err(error),
    }
}

/// Reads the number that the page counter printed.
pub fn read_page_count(output: &str) -> (r: Option<usize>)
    ensures
        match r {
            Some(n) => page_count(output@) == Some(n as nat),
            None => page_count(output@) is None,
        },
{
    parse_unsigned(trim(output))
}

fn is_text(s: &String, word: &str) -> (r: bool)
    ensures
        r == (s@ == word@),
{
    let w = String::from_str(word);
    *s == w
}

/// One conversion job.
#[derive(Debug)]
pub struct Presentation {
    presentation_file: String,
    presentation_tmp_file: String,
    source_format: String,
    destination_url: String,
    callback_url: String,
    preserve_transparency: bool,
    number_of_pages: usize,
    pages: Vec<PageArtifact>,
    stage: Stage,
    outcome: Outcome,
    notify_failed: bool,
    cleanup_failed: bool,
}

impl View for Presentation {
    type V = JobView;

    closed spec fn view(&self) -> JobView {
        JobView {
            source: self.presentation_file@,
            id: self.presentation_tmp_file@,
            format: self.source_format@,
            destination: self.destination_url@,
            callback: self.callback_url@,
            preserve_transparency: self.preserve_transparency,
            page_count: self.number_of_pages as nat,
            pages: self.pages.deep_view(),
            stage: self.stage,
            outcome: self.outcome,
            notify_failed: self.notify_failed,
            cleanup_failed: self.cleanup_failed,
        }
    }
}

impl Presentation {
    #[verifier::type_invariant]
    spec fn inv(self) -> bool {
        self@.wf()
    }

    /// Starts a job for `data` under a fresh identifier, and asks for the download.
    pub fn extract(data: RequestBody) -> (r: (Presentation, Action))
        ensures
            is_hyphenated_uuid(r.0@.id),
            (r.0@, r.1@) == started(data@, r.0@.id),
            r.0@.wf(),
    {
        let id = fresh_uuid();
        Presentation::start(data, id)
    }

    /// Starts a job for `data` under the identifier `id`, and asks for the download.
    pub fn start(data: RequestBody, id: String) -> (r: (Presentation, Action))
        ensures
            (r.0@, r.1@) == started(data@, id@),
            r.0@.wf(),
    {
        let preserve_transparency = data.preserve_transparency();
        let job = Presentation {
            presentation_file: data.downloadData.url,
            presentation_tmp_file: id,
            source_format: data.downloadData._type,
            destination_url: data.uploadData.url,
            callback_url: data.uploadData.callback.url,
            preserve_transparency,
            number_of_pages: 0,
            pages: Vec::new(),
            stage: Stage::Downloading,
            outcome: Outcome::Pending,
            notify_failed: false,
            cleanup_failed: false,
        };
        assert(job.pages.deep_view() =~= Seq::<PageView>::empty());
        let action = job.download();
        (job, action)
    }

    /// The download of the source into the job's working directory.
    pub fn download(&self) -> (r: Action)
        ensures
            r@ == download_plan(self@),
    {
        Action::Download {
            url: self.presentation_file.clone(),
            dir: work_dir_path(self.presentation_tmp_file.as_str()),
            file: download_path(self.presentation_tmp_file.as_str()),
        }
    }

    /// How the download is brought into canonical form, or why it cannot be.
    pub fn convert_to_pdf(&self) -> (r: Result<Action, JobError>)
        ensures
            plan_view(r) == normalize_plan(self@),
    {
        let id = self.presentation_tmp_file.as_str();
        if is_text(&self.source_format, "ppt") || is_text(&self.source_format, "pptx") || is_text(
            &self.source_format,
            "odp",
        ) {
            Ok(Action::Convert { command: convert_command(id) })
        } else if is_text(&self.source_format, "pdf") {
            Ok(Action::Rename { from: download_path(id), to: canonical_path(id) })
        } else {
            Err(JobError::UnsupportedFormat)
        }
    }

    /// The count of the canonical document's pages.
    pub fn extract_number_of_pages(&self) -> (r: Action)
        ensures
            r@ == count_plan(self@),
    {
        Action::CountPages { command: count_command(self.presentation_tmp_file.as_str()) }
    }

    /// The split of the canonical document into single pages.
    pub fn extract_pages(&self) -> (r: Action)
        ensures
            r@ == split_plan(self@),
    {
        Action::SplitPages {
            command: split_command(self.presentation_tmp_file.as_str()),
            files: make_page_files(self.presentation_tmp_file.as_str(), self.number_of_pages),
        }
    }

    /// The render task of every page.
    pub fn generate_images(&self, transparent: bool) -> (r: Vec<Task>)
        ensures
            r.deep_view() == render_tasks(self@.id, self@.page_count, transparent),
    {
        make_render_tasks(self.presentation_tmp_file.as_str(), self.number_of_pages, transparent)
    }

    /// The text task of every page.
    pub fn extract_texts(&self) -> (r: Vec<Task>)
        ensures
            r.deep_view() == text_tasks(self@.id, self@.page_count),
    {
        make_text_tasks(self.presentation_tmp_file.as_str(), self.number_of_pages)
    }

    /// The delivery of every page to `url`.
    pub fn send_slides(&self, url: String) -> (r: Action)
        ensures
            r@ == upload_plan(self@, url@),
    {
        Action::Upload {
            workers: WORKERS,
            url,
            forms: make_forms(self.presentation_tmp_file.as_str(), &self.pages),
        }
    }

    /// The notification `{success: state, message}` to `callback`.
    pub fn send_ack(&self, state: &str, message: &str, callback: String) -> (r: Action)
        ensures
            r@ == (ActionView::Notify { url: callback@, success: state@, message: message@ }),
    {
        Action::Notify {
            url: callback,
            success: String::from_str(state),
            message: String::from_str(message),
        }
    }

    /// The removal of the job's working directory.
    pub fn cleanup(&self) -> (r: Action)
        ensures
            r@ == cleanup_plan(self@),
    {
        Action::Cleanup { dir: work_dir_path(self.presentation_tmp_file.as_str()) }
    }

    /// The answer to the request: how many slides were extracted, or that an error happened.
    pub fn response(&self) -> (r: String)
        ensures
            r@ == response(self@),
    {
        match self.outcome {
            Outcome::Succeeded => {
                let mut r = String::from_str("Successfully extracted ");
                r.append(decimal_string(self.number_of_pages).as_str());
                r.append(" slides");
                r
            },
            _ => String::from_str("Error happened in the extraction"),
        }
    }

    /// The job's identifier, which names its working directory.
    pub fn presentation_tmp_file(&self) -> (r: &String)
        ensures
            r@ == self@.id,
    {
        &self.presentation_tmp_file
    }

    /// Where the source document is.
    pub fn presentation_file(&self) -> (r: &String)
        ensures
            r@ == self@.source,
    {
        &self.presentation_file
    }

    /// What the job is waiting for.
    pub fn stage(&self) -> (r: Stage)
        ensures
            r == self@.stage,
    {
        self.stage
    }

    /// How the job ended, once that is decided.
    pub fn outcome(&self) -> (r: Outcome)
        ensures
            r == self@.outcome,
    {
        self.outcome
    }

    /// The number of pages; 0 until the pages are counted.
    pub fn number_of_pages(&self) -> (r: usize)
        ensures
            r == self@.page_count,
            r == self@.pages.len(),
    {
        proof {
            use_type_invariant(self);
        }
        self.number_of_pages
    }

    /// The slots of the pages, first page first.
    pub fn pages(&self) -> (r: &Vec<PageArtifact>)
        ensures
            r.deep_view() == self@.pages,
            numbered(r.deep_view()),
    {
        proof {
            use_type_invariant(self);
        }
        &self.pages
    }

    /// The text of every page, first page first.
    pub fn texts(&self) -> (r: Vec<String>)
        ensures
            r.deep_view() == texts_in(self@.pages),
    {
        let mut r: Vec<String> = Vec::new();
        let mut i: usize = 0;
        while i < self.pages.len()
            invariant
                i <= self.pages.len(),
                r.deep_view() == texts_in(self@.pages).subrange(0, i as int),
            decreases self.pages.len() - i,
        {
            let ghost before = r.deep_view();
            r.push(self.pages[i].text.clone());
            assert(r.deep_view() =~= before.push(self@.pages[i as int].text));
            i = i + 1;
            assert(r.deep_view() =~= texts_in(self@.pages).subrange(0, i as int));
        }
        assert(texts_in(self@.pages).subrange(0, i as int) =~= texts_in(self@.pages));
        r
    }

    /// Everything that went wrong, for the log.
    pub fn errors(&self) -> (r: Vec<JobError>)
        ensures
            r@ == errors_of(self@),
    {
        let mut r: Vec<JobError> = Vec::new();
        match self.outcome {
            Outcome::Failed(error) => {
                r.push(error);
            },
            _ => {},
        }
        if self.notify_failed {
            r.push(JobError::Notify);
        }
        if self.cleanup_failed {
            r.push(JobError::Cleanup);
        }
        assert(r@ =~= errors_of(self@));
        r
    }

    /// Takes the error edge: the job fails with `error`, and the notification says so.
    fn error_happened(self, error: JobError) -> (r: (Presentation, Action))
        ensures
            (r.0@, r.1@) == failed(self@, error),
            r.0@.wf(),
    {
        proof {
            use_type_invariant(&self);
        }
        let action = self.send_ack("error", "message", self.callback_url.clone());
        (Presentation { stage: Stage::Notifying, outcome: Outcome::Failed(error), ..self }, action)
    }

    /// Decides what happens next, now that `event` came back for the action
    /// that the job asked for last.
    pub fn step(self, event: Event) -> (r: (Presentation, Action))
        ensures
            (r.0@, r.1@) == step_spec(self@, event@),
            r.0@.wf(),
    {
        proof {
            use_type_invariant(&self);
        }
        match self.stage {
            Stage::Downloading => {
                let arrived = match event {
                    Event::Downloaded { status } => answered_ok(Some(status)),
                    _ => false,
                };
                if arrived {
                    match self.convert_to_pdf() {
                        Ok(action) => (Presentation { stage: Stage::Normalizing, ..self }, action),
                        Err(error) => self.error_happened(error),
                    }
                } else {
                    self.error_happened(JobError::Download)
                }
            },
            Stage::Normalizing => {
                let office = is_text(&self.source_format, "ppt") || is_text(
                    &self.source_format,
                    "pptx",
                ) || is_text(&self.source_format, "odp");
                let done = match event {
                    Event::Converted { code } => office && exited_ok(code),
                    Event::Renamed => !office,
                    _ => false,
                };
                if done {
                    let action = self.extract_number_of_pages();
                    (Presentation { stage: Stage::Counting, ..self }, action)
                } else {
                    self.error_happened(JobError::ConversionTool)
                }
            },
            Stage::Counting => {
                let counted = match event {
                    Event::Counted { code, output } => if exited_ok(code) {
                        read_page_count(output.as_str())
                    } else {
                        None
                    },
                    _ => None,
                };
                match counted {
                    Some(n) => {
                        let pages = allocate(n);
                        let next = Presentation {
                            stage: Stage::Splitting,
                            number_of_pages: n,
                            pages,
                            ..self
                        };
                        let action = next.extract_pages();
                        (next, action)
                    },
                    None => self.error_happened(JobError::PageCount),
                }
            },
            Stage::Splitting => {
                let split = match event {
                    Event::Split { code, pages } => exited_ok(code) && pages
                        == self.number_of_pages,
                    _ => false,
                };
                if split {
                    let action = Action::Process {
                        workers: WORKERS,
                        renders: self.generate_images(self.preserve_transparency),
                        extracts: self.extract_texts(),
                    };
                    (Presentation { stage: Stage::Processing, ..self }, action)
                } else {
                    self.error_happened(JobError::PageSplit)
                }
            },
            Stage::Processing => {
                match event {
                    Event::Processed { renders, texts } => {
                        let ghost before = self@;
                        let rendered = stage_passes(self.number_of_pages, &renders);
                        let extracted = stage_passes(self.number_of_pages, &texts);
                        let mut pages = self.pages;
                        place_all(
                            &mut pages,
                            self.presentation_tmp_file.as_str(),
                            TaskKind::Render,
                            &renders,
                        );
                        place_all(
                            &mut pages,
                            self.presentation_tmp_file.as_str(),
                            TaskKind::Extract,
                            &texts,
                        );
                        proof {
                            let half = placed_all(
                                before.pages,
                                before.id,
                                TaskKind::Render,
                                renders.deep_view(),
                            );
                            law_slots_are_fixed(
                                before.pages,
                                before.id,
                                TaskKind::Render,
                                renders.deep_view(),
                            );
                            law_slots_are_fixed(
                                half,
                                before.id,
                                TaskKind::Extract,
                                texts.deep_view(),
                            );
                        }
                        let next = Presentation { pages, ..self };
                        if !rendered {
                            next.error_happened(JobError::Render)
                        } else if !extracted {
                            next.error_happened(JobError::Extract)
                        } else {
                            let action = next.send_slides(next.destination_url.clone());
                            (Presentation { stage: Stage::Uploading, ..next }, action)
                        }
                    },
                    _ => self.error_happened(JobError::Render),
                }
            },
            Stage::Uploading => {
                let delivered = match event {
                    Event::Uploaded { deliveries } => stage_passes(
                        self.number_of_pages,
                        &deliveries,
                    ),
                    _ => false,
                };
                if delivered {
                    let action = self.send_ack("success", "message", self.callback_url.clone());
                    (
                        Presentation {
                            stage: Stage::Notifying,
                            outcome: Outcome::Succeeded,
                            ..self
                        },
                        action,
                    )
                } else {
                    self.error_happened(JobError::Upload)
                }
            },
            Stage::Notifying => {
                let delivered = match event {
                    Event::Notified { status } => answered_ok(Some(status)),
                    _ => false,
                };
                let action = self.cleanup();
                (
                    Presentation { stage: Stage::CleaningUp, notify_failed: !delivered, ..self },
                    action,
                )
            },
            Stage::CleaningUp => {
                let removed = match event {
                    Event::CleanedUp => true,
                    _ => false,
                };
                let action = Action::Finish { message: self.response() };
                (Presentation { stage: Stage::Done, cleanup_failed: !removed, ..self }, action)
            },
            Stage::Done => {
                let action = Action::Finish { message: self.response() };
                (self, action)
            },
        }
    }
}

} // verus!
