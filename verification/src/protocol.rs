//! What passes between a job and the outside world. The job hands out an
//! [`Action`]; whoever runs it hands back an [`Event`] that says how it went.

use crate::commands::{render_command, render_line, text_command, text_line};
use crate::pages::{Completion, CompletionView, PageArtifact, PageView};
use crate::paths::{image_path, page_file, page_image, page_path};
use crate::text::{decimal, decimal_string};
use vstd::prelude::*;

verus! {

/// How many tasks of a fan-out stage run at the same time.
pub const WORKERS: usize = 10;

/// The ways in which a job, or its tail, can go wrong.
#[derive(Clone, Copy, Debug, PartialEq, Eq, Structural)]
pub enum JobError {
    /// The source could not be fetched, or the answer's status was not a success.
    Download,
    /// The declared format is none of `ppt`, `pptx`, `odp`, `pdf`.
    UnsupportedFormat,
    /// The document could not be brought into canonical form.
    ConversionTool,
    /// The page counter failed, or printed no number.
    PageCount,
    /// The splitter failed, or left fewer or more files than the document has pages.
    PageSplit,
    /// A page was not rendered.
    Render,
    /// The text of a page was not extracted.
    Extract,
    /// A page was not delivered.
    Upload,
    /// The notification was not delivered.
    Notify,
    /// The working directory was not removed.
    Cleanup,
}

/// Where a job stands: the name says what it is waiting for.
#[derive(Clone, Copy, Debug, PartialEq, Eq, Structural)]
pub enum Stage {
    Downloading,
    Normalizing,
    Counting,
    Splitting,
    Processing,
    Uploading,
    Notifying,
    CleaningUp,
    Done,
}

/// How a job ended, once that is decided.
#[derive(Clone, Copy, Debug, PartialEq, Eq, Structural)]
pub enum Outcome {
    Pending,
    Succeeded,
    Failed(JobError),
}

/// One command of a fan-out stage, for one page.
#[derive(Clone, Debug, PartialEq, Eq)]
pub struct Task {
    pub index: usize,
    pub command: String,
}

/// The mathematical value of a [`Task`].
pub struct TaskView {
    pub index: nat,
    pub command: Seq<char>,
}

impl View for Task {
    type V = TaskView;

    open spec fn view(&self) -> TaskView {
        TaskView { index: self.index as nat, command: self.command@ }
    }
}

impl DeepView for Task {
    type V = TaskView;

    open spec fn deep_view(&self) -> TaskView {
        self@
    }
}

/// The fields of the multipart request that delivers one page. `file` names
/// the image whose bytes are sent.
#[derive(Clone, Debug, PartialEq, Eq)]
pub struct UploadForm {
    pub current: String,
    pub total: String,
    pub slide_text: String,
    pub file: String,
}

/// The mathematical value of an [`UploadForm`].
pub struct FormView {
    pub current: Seq<char>,
    pub total: Seq<char>,
    pub slide_text: Seq<char>,
    pub file: Seq<char>,
}

impl View for UploadForm {
    type V = FormView;

    open spec fn view(&self) -> FormView {
        FormView {
            current: self.current@,
            total: self.total@,
            slide_text: self.slide_text@,
            file: self.file@,
        }
    }
}

impl DeepView for UploadForm {
    type V = FormView;

    open spec fn deep_view(&self) -> FormView {
        self@
    }
}

/// What a job asks the outside world to do next.
#[derive(Clone, Debug, PartialEq, Eq)]
pub enum Action {
    /// Create `dir`, fetch `url` and write the body to `file`.
    Download { url: String, dir: String, file: String },
    /// Move the file `from` to `to`.
    Rename { from: String, to: String },
    /// Run the format converter.
    Convert { command: String },
    /// Run the page counter and keep what it prints.
    CountPages { command: String },
    /// Run the page splitter, then count how many of `files` are there.
    SplitPages { command: String, files: Vec<String> },
    /// Run both lists of tasks, each on a pool of `workers`, and wait for all of them.
    Process { workers: usize, renders: Vec<Task>, extracts: Vec<Task> },
    /// Send one multipart request per form to `url`, on a pool of `workers`, and wait for
    /// all of them.
    Upload { workers: usize, url: String, forms: Vec<UploadForm> },
    /// Send the body `{success, message}` to `url`.
    Notify { url: String, success: String, message: String },
    /// Remove `dir` and all below it.
    Cleanup { dir: String },
    /// Nothing is left to do: answer the request with `message`.
    Finish { message: String },
}

/// The mathematical value of an [`Action`].
pub enum ActionView {
    Download { url: Seq<char>, dir: Seq<char>, file: Seq<char> },
    Rename { from: Seq<char>, to: Seq<char> },
    Convert { command: Seq<char> },
    CountPages { command: Seq<char> },
    SplitPages { command: Seq<char>, files: Seq<Seq<char>> },
    Process { workers: nat, renders: Seq<TaskView>, extracts: Seq<TaskView> },
    Upload { workers: nat, url: Seq<char>, forms: Seq<FormView> },
    Notify { url: Seq<char>, success: Seq<char>, message: Seq<char> },
    Cleanup { dir: Seq<char> },
    Finish { message: Seq<char> },
}

impl View for Action {
    type V = ActionView;

    open spec fn view(&self) -> ActionView {
        match *self {
            Action::Download { url, dir, file } => ActionView::Download {
                url: url@,
                dir: dir@,
                file: file@,
            },
            Action::Rename { from, to } => ActionView::Rename { from: from@, to: to@ },
            Action::Convert { command } => ActionView::Convert { command: command@ },
            Action::CountPages { command } => ActionView::CountPages { command: command@ },
            Action::SplitPages { command, files } => ActionView::SplitPages {
                command: command@,
                files: files.deep_view(),
            },
            Action::Process { workers, renders, extracts } => ActionView::Process {
                workers: workers as nat,
                renders: renders.deep_view(),
                extracts: extracts.deep_view(),
            },
            Action::Upload { workers, url, forms } => ActionView::Upload {
                workers: workers as nat,
                url: url@,
                forms: forms.deep_view(),
            },
            Action::Notify { url, success, message } => ActionView::Notify {
                url: url@,
                success: success@,
                message: message@,
            },
            Action::Cleanup { dir } => ActionView::Cleanup { dir: dir@ },
            Action::Finish { message } => ActionView::Finish { message: message@ },
        }
    }
}

/// What came back from the outside world.
#[derive(Clone, Debug, PartialEq, Eq)]
pub enum Event {
    /// What was asked for could not be done at all.
    Failed,
    /// The source answered with `status`, and the body is on disk.
    Downloaded { status: u16 },
    /// The file was moved.
    Renamed,
    /// The converter ended with `code`; `None` if it was killed.
    Converted { code: Option<i32> },
    /// The page counter ended with `code` and printed `output`.
    Counted { code: Option<i32>, output: String },
    /// The splitter ended with `code`, and `pages` of the files it was to leave are there.
    Split { code: Option<i32>, pages: usize },
    /// Both pools have joined; the reports stand in the order in which the tasks ended.
    Processed { renders: Vec<Completion>, texts: Vec<Completion> },
    /// The upload pool has joined.
    Uploaded { deliveries: Vec<Completion> },
    /// The callback answered with `status`.
    Notified { status: u16 },
    /// The working directory is gone.
    CleanedUp,
}

/// The mathematical value of an [`Event`].
pub enum EventView {
    Failed,
    Downloaded { status: u16 },
    Renamed,
    Converted { code: Option<i32> },
    Counted { code: Option<i32>, output: Seq<char> },
    Split { code: Option<i32>, pages: nat },
    Processed { renders: Seq<CompletionView>, texts: Seq<CompletionView> },
    Uploaded { deliveries: Seq<CompletionView> },
    Notified { status: u16 },
    CleanedUp,
}

impl View for Event {
    type V = EventView;

    open spec fn view(&self) -> EventView {
        match *self {
            Event::Failed => EventView::Failed,
            Event::Downloaded { status } => EventView::Downloaded { status },
            Event::Renamed => EventView::Renamed,
            Event::Converted { code } => EventView::Converted { code },
            Event::Counted { code, output } => EventView::Counted { code, output: output@ },
            Event::Split { code, pages } => EventView::Split { code, pages: pages as nat },
            Event::Processed { renders, texts } => EventView::Processed {
                renders: renders.deep_view(),
                texts: texts.deep_view(),
            },
            Event::Uploaded { deliveries } => EventView::Uploaded {
                deliveries: deliveries.deep_view(),
            },
            Event::Notified { status } => EventView::Notified { status },
            Event::CleanedUp => EventView::CleanedUp,
        }
    }
}

/// The single-page document of every page of a document of `n` pages, first page first.
pub open spec fn page_files(id: Seq<char>, n: nat) -> Seq<Seq<char>> {
    Seq::new(n, |i: int| page_file(id, (i + 1) as nat))
}

/// The render task of every page of a document of `n` pages, first page first.
pub open spec fn render_tasks(id: Seq<char>, n: nat, transparent: bool) -> Seq<TaskView> {
    Seq::new(
        n,
        |i: int|
            TaskView {
                index: (i + 1) as nat,
                command: render_line(id, (i + 1) as nat, transparent),
            },
    )
}

/// The text task of every page of a document of `n` pages, first page first.
pub open spec fn text_tasks(id: Seq<char>, n: nat) -> Seq<TaskView> {
    Seq::new(
        n,
        |i: int| TaskView { index: (i + 1) as nat, command: text_line(id, (i + 1) as nat) },
    )
}

/// The form that delivers the page in slot `i` of `pages`.
pub open spec fn form_of(id: Seq<char>, pages: Seq<PageView>, i: int) -> FormView {
    FormView {
        current: decimal((i + 1) as nat),
        total: decimal(pages.len()),
        slide_text: pages[i].text,
        file: page_image(id, (i + 1) as nat),
    }
}

/// One form per page, first page first.
pub open spec fn forms_of(id: Seq<char>, pages: Seq<PageView>) -> Seq<FormView> {
    Seq::new(pages.len(), |i: int| form_of(id, pages, i))
}

/// Builds [`page_files`].
pub fn make_page_files(id: &str, n: usize) -> (r: Vec<String>)
    ensures
        r.deep_view() == page_files(id@, n as nat),
{
    let mut r: Vec<String> = Vec::new();
    let mut i: usize = 0;
    while i < n
        invariant
            i <= n,
            r.deep_view() == page_files(id@, i as nat),
        decreases n - i,
    {
        let ghost before = r.deep_view();
        let file = page_path(id, i + 1);
        let ghost added = file@;
        r.push(file);
        i = i + 1;
        assert(r.deep_view() =~= page_files(id@, i as nat)) by {
            assert(r.deep_view() =~= before.push(added));
        }
    }
    r
}

/// Builds [`render_tasks`].
pub fn make_render_tasks(id: &str, n: usize, transparent: bool) -> (r: Vec<Task>)
    ensures
        r.deep_view() == render_tasks(id@, n as nat, transparent),
{
    let mut r: Vec<Task> = Vec::new();
    let mut i: usize = 0;
    while i < n
        invariant
            i <= n,
            r.deep_view() == render_tasks(id@, i as nat, transparent),
        decreases n - i,
    {
        let ghost before = r.deep_view();
        let task = Task { index: i + 1, command: render_command(id, i + 1, transparent) };
        let ghost added = task@;
        r.push(task);
        i = i + 1;
        assert(r.deep_view() =~= render_tasks(id@, i as nat, transparent)) by {
            assert(r.deep_view() =~= before.push(added));
        }
    }
    r
}

/// Builds [`text_tasks`].
pub fn make_text_tasks(id: &str, n: usize) -> (r: Vec<Task>)
    ensures
        r.deep_view() == text_tasks(id@, n as nat),
{
    let mut r: Vec<Task> = Vec::new();
    let mut i: usize = 0;
    while i < n
        invariant
            i <= n,
            r.deep_view() == text_tasks(id@, i as nat),
        decreases n - i,
    {
        let ghost before = r.deep_view();
        let task = Task { index: i + 1, command: text_command(id, i + 1) };
        let ghost added = task@;
        r.push(task);
        i = i + 1;
        assert(r.deep_view() =~= text_tasks(id@, i as nat)) by {
            assert(r.deep_view() =~= before.push(added));
        }
    }
    r
}

/// Builds [`forms_of`].
pub fn make_forms(id: &str, pages: &Vec<PageArtifact>) -> (r: Vec<UploadForm>)
    ensures
        r.deep_view() == forms_of(id@, pages.deep_view()),
{
    let n = pages.len();
    let mut r: Vec<UploadForm> = Vec::new();
    let mut i: usize = 0;
    while i < n
        invariant
            i <= n,
            n == pages.len(),
            r.deep_view() == forms_of(id@, pages.deep_view()).subrange(0, i as int),
        decreases n - i,
    {
        let ghost before = r.deep_view();
        let form = UploadForm {
            current: decimal_string(i + 1),
            total: decimal_string(n),
            slide_text: pages[i].text.clone(),
            file: image_path(id, i + 1),
        };
        let ghost added = form@;
        assert(added == form_of(id@, pages.deep_view(), i as int));
        r.push(form);
        i = i + 1;
        assert(r.deep_view() =~= forms_of(id@, pages.deep_view()).subrange(0, i as int)) by {
            assert(r.deep_view() =~= before.push(added));
        }
    }
    assert(forms_of(id@, pages.deep_view()).subrange(0, n as int) =~= forms_of(
        id@,
        pages.deep_view(),
    ));
    r
}

} // verus!
