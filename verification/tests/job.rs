use presentation::job::read_page_count;
use presentation::pages::Completion;
use presentation::protocol::{Action, Event, JobError, Outcome, Stage, Task, UploadForm, WORKERS};
use presentation::{
    Callback, ConversionParams, DownloadData, Presentation, RequestBody, UploadData,
};

const SOURCE: &str = "https://files.example/deck";
const DESTINATION: &str = "https://sink.example/slides";
const CALLBACK: &str = "https://sink.example/done";

fn request(format: &str, transparency: Option<Option<bool>>) -> RequestBody {
    RequestBody {
        downloadData: DownloadData { _type: format.to_string(), url: SOURCE.to_string() },
        uploadData: UploadData {
            url: DESTINATION.to_string(),
            callback: Callback { url: CALLBACK.to_string() },
        },
        conversionParams: transparency
            .map(|preserve| ConversionParams { preserveTransparency: preserve }),
    }
}

fn ok(index: usize, output: &str) -> Completion {
    Completion::exited(index, Some(0), output.to_string())
}

fn sent(index: usize) -> Completion {
    Completion::answered(index, Some(200))
}

fn notify(word: &str) -> Action {
    Action::Notify {
        url: CALLBACK.to_string(),
        success: word.to_string(),
        message: "message".to_string(),
    }
}

fn cleanup(id: &str) -> Action {
    Action::Cleanup { dir: format!("tmp/{}", id) }
}

fn finish_error() -> Action {
    Action::Finish { message: "Error happened in the extraction".to_string() }
}

/// Feeds `events` to a new job and returns the job with every action it asked for.
fn drive(format: &str, id: &str, events: Vec<Event>) -> (Presentation, Vec<Action>) {
    let (mut job, first) = Presentation::start(request(format, None), id.to_string());
    let mut actions = vec![first];
    for event in events {
        let (next, action) = job.step(event);
        job = next;
        actions.push(action);
    }
    (job, actions)
}

fn count(actions: &[Action], wanted: fn(&Action) -> bool) -> usize {
    actions.iter().filter(|a| wanted(a)).count()
}

fn is_cleanup(a: &Action) -> bool {
    matches!(a, Action::Cleanup { .. })
}

fn is_notify(a: &Action) -> bool {
    matches!(a, Action::Notify { .. })
}

fn is_upload(a: &Action) -> bool {
    matches!(a, Action::Upload { .. })
}

fn is_tool(a: &Action) -> bool {
    matches!(
        a,
        Action::Convert { .. }
            | Action::CountPages { .. }
            | Action::SplitPages { .. }
            | Action::Process { .. }
    )
}

/// The events of a three-page PDF that goes through without a fault.
fn smooth_run() -> Vec<Event> {
    vec![
        Event::Downloaded { status: 200 },
        Event::Renamed,
        Event::Counted { code: Some(0), output: "           3\n".to_string() },
        Event::Split { code: Some(0), pages: 3 },
        Event::Processed {
            renders: vec![ok(2, ""), ok(1, ""), ok(3, "")],
            texts: vec![ok(3, " third \n"), ok(1, "first\x0c"), ok(2, "\tsecond")],
        },
        Event::Uploaded { deliveries: vec![sent(3), sent(2), sent(1)] },
        Event::Notified { status: 200 },
        Event::CleanedUp,
    ]
}

/// Runs the smooth run with the event at `at` replaced by `fault`, then
/// `Failed` events until the job is done.
fn inject(at: usize, fault: Event) -> (Presentation, Vec<Action>) {
    let mut events = smooth_run();
    events.truncate(at);
    events.push(fault);
    let (mut job, mut actions) = drive("pdf", "job", events);
    let mut guard = 0;
    while job.stage() != Stage::Done {
        let (next, action) = job.step(Event::Failed);
        job = next;
        actions.push(action);
        guard += 1;
        assert!(guard <= 8);
    }
    (job, actions)
}

fn assert_failed_with(job: &Presentation, actions: &[Action], error: JobError) {
    assert_eq!(job.stage(), Stage::Done);
    assert_eq!(job.outcome(), Outcome::Failed(error));
    assert_eq!(count(actions, is_cleanup), 1);
    assert_eq!(count(actions, is_notify), 1);
    let n = actions.len();
    assert_eq!(actions[n - 3], notify("error"));
    assert_eq!(actions[n - 2], cleanup("job"));
    assert_eq!(actions[n - 1], finish_error());
}

#[test]
fn a_three_page_pdf_goes_through() {
    let (job, first) = Presentation::start(request("pdf", Some(Some(false))), "job".to_string());
    assert_eq!(job.stage(), Stage::Downloading);
    assert_eq!(job.outcome(), Outcome::Pending);
    assert_eq!(job.presentation_tmp_file(), "job");
    assert_eq!(job.presentation_file(), SOURCE);
    assert_eq!(
        first,
        Action::Download {
            url: SOURCE.to_string(),
            dir: "tmp/job".to_string(),
            file: "tmp/job/presentation".to_string(),
        }
    );

    let (job, action) = job.step(Event::Downloaded { status: 200 });
    assert_eq!(job.stage(), Stage::Normalizing);
    assert_eq!(
        action,
        Action::Rename {
            from: "tmp/job/presentation".to_string(),
            to: "tmp/job/pdf.pdf".to_string(),
        }
    );

    let (job, action) = job.step(Event::Renamed);
    assert_eq!(job.stage(), Stage::Counting);
    assert_eq!(
        action,
        Action::CountPages {
            command: "pdfinfo tmp/job/pdf.pdf | grep --binary-files=text Pages | cut -f 2 -d \":\""
                .to_string(),
        }
    );

    let (job, action) =
        job.step(Event::Counted { code: Some(0), output: "           3\n".to_string() });
    assert_eq!(job.stage(), Stage::Splitting);
    assert_eq!(job.number_of_pages(), 3);
    assert_eq!(job.pages().len(), 3);
    assert_eq!(
        action,
        Action::SplitPages {
            command: "pdfseparate tmp/job/pdf.pdf tmp/job/%d.pdf".to_string(),
            files: vec![
                "tmp/job/1.pdf".to_string(),
                "tmp/job/2.pdf".to_string(),
                "tmp/job/3.pdf".to_string(),
            ],
        }
    );

    let (job, action) = job.step(Event::Split { code: Some(0), pages: 3 });
    assert_eq!(job.stage(), Stage::Processing);
    assert_eq!(
        action,
        Action::Process {
            workers: 10,
            renders: vec![
                Task {
                    index: 1,
                    command: "pdftocairo -singlefile -png -r 150 tmp/job/1.pdf  tmp/job/1"
                        .to_string(),
                },
                Task {
                    index: 2,
                    command: "pdftocairo -singlefile -png -r 150 tmp/job/2.pdf  tmp/job/2"
                        .to_string(),
                },
                Task {
                    index: 3,
                    command: "pdftocairo -singlefile -png -r 150 tmp/job/3.pdf  tmp/job/3"
                        .to_string(),
                },
            ],
            extracts: vec![
                Task { index: 1, command: "pdftotext -layout tmp/job/1.pdf -".to_string() },
                Task { index: 2, command: "pdftotext -layout tmp/job/2.pdf -".to_string() },
                Task { index: 3, command: "pdftotext -layout tmp/job/3.pdf -".to_string() },
            ],
        }
    );

    let (job, action) = job.step(Event::Processed {
        renders: vec![ok(2, ""), ok(1, ""), ok(3, "")],
        texts: vec![ok(3, " third \n"), ok(1, "first\x0c"), ok(2, "\tsecond")],
    });
    assert_eq!(job.stage(), Stage::Uploading);
    assert_eq!(job.texts(), vec!["first", "second", "third"]);
    for (i, page) in job.pages().iter().enumerate() {
        assert_eq!(page.index, i + 1);
        assert_eq!(page.image_path, Some(format!("tmp/job/{}.png", i + 1)));
        assert!(!page.text.is_empty());
        assert!(!page.render_failed);
        assert!(!page.extract_failed);
    }
    let form = |current: &str, text: &str| UploadForm {
        current: current.to_string(),
        total: "3".to_string(),
        slide_text: text.to_string(),
        file: format!("tmp/job/{}.png", current),
    };
    assert_eq!(
        action,
        Action::Upload {
            workers: 10,
            url: DESTINATION.to_string(),
            forms: vec![form("1", "first"), form("2", "second"), form("3", "third")],
        }
    );

    let (job, action) = job.step(Event::Uploaded { deliveries: vec![sent(1), sent(3), sent(2)] });
    assert_eq!(job.stage(), Stage::Notifying);
    assert_eq!(job.outcome(), Outcome::Succeeded);
    assert_eq!(action, notify("success"));

    let (job, action) = job.step(Event::Notified { status: 200 });
    assert_eq!(job.stage(), Stage::CleaningUp);
    assert_eq!(action, cleanup("job"));

    let (job, action) = job.step(Event::CleanedUp);
    assert_eq!(job.stage(), Stage::Done);
    assert_eq!(action, Action::Finish { message: "Successfully extracted 3 slides".to_string() });
    assert_eq!(job.response(), "Successfully extracted 3 slides");
    assert_eq!(job.outcome(), Outcome::Succeeded);
    assert!(job.errors().is_empty());
}

#[test]
fn a_smooth_run_asks_for_each_thing_once() {
    let (job, actions) = drive("pdf", "job", smooth_run());
    assert_eq!(job.stage(), Stage::Done);
    assert_eq!(actions.len(), 9);
    assert_eq!(count(&actions, is_cleanup), 1);
    assert_eq!(count(&actions, is_notify), 1);
    assert_eq!(count(&actions, is_upload), 1);
    assert!(matches!(actions[0], Action::Download { .. }));
    assert!(matches!(actions[6], Action::Notify { .. }));
    assert!(matches!(actions[7], Action::Cleanup { .. }));
    assert!(matches!(actions[8], Action::Finish { .. }));
}

#[test]
fn an_unparseable_page_count_aborts_before_splitting() {
    let (job, actions) = drive(
        "pdf",
        "job",
        vec![
            Event::Downloaded { status: 200 },
            Event::Renamed,
            Event::Counted { code: Some(0), output: "Syntax Error: no pages\n".to_string() },
            Event::Notified { status: 200 },
            Event::CleanedUp,
        ],
    );
    assert_eq!(job.stage(), Stage::Done);
    assert_eq!(job.outcome(), Outcome::Failed(JobError::PageCount));
    assert_eq!(job.number_of_pages(), 0);
    assert!(job.pages().is_empty());
    assert_eq!(actions.len(), 6);
    assert_eq!(actions[3], notify("error"));
    assert_eq!(actions[4], cleanup("job"));
    assert_eq!(actions[5], finish_error());
    assert_eq!(count(&actions, is_notify), 1);
    assert_eq!(count(&actions, is_cleanup), 1);
    assert_eq!(count(&actions, is_upload), 0);
    assert_eq!(count(&actions, |a| matches!(a, Action::SplitPages { .. })), 0);
    assert_eq!(job.errors(), vec![JobError::PageCount]);
}

#[test]
fn an_empty_page_count_is_no_page_count() {
    let (job, _) = inject(2, Event::Counted { code: Some(0), output: "\n".to_string() });
    assert_eq!(job.outcome(), Outcome::Failed(JobError::PageCount));
    let (job, _) = inject(2, Event::Counted { code: Some(0), output: "-3".to_string() });
    assert_eq!(job.outcome(), Outcome::Failed(JobError::PageCount));
    let (job, _) = inject(2, Event::Counted { code: Some(0), output: "3 pages".to_string() });
    assert_eq!(job.outcome(), Outcome::Failed(JobError::PageCount));
}

#[test]
fn an_unsupported_format_fails_before_any_tool_runs() {
    let (job, actions) = drive(
        "docx",
        "job",
        vec![Event::Downloaded { status: 200 }, Event::Notified { status: 200 }, Event::CleanedUp],
    );
    assert_eq!(job.outcome(), Outcome::Failed(JobError::UnsupportedFormat));
    assert_eq!(job.stage(), Stage::Done);
    assert_eq!(count(&actions, is_tool), 0);
    assert_eq!(count(&actions, |a| matches!(a, Action::Rename { .. })), 0);
    assert_eq!(count(&actions, is_upload), 0);
    assert_eq!(actions.len(), 4);
    assert_eq!(actions[1], notify("error"));
    assert_eq!(actions[2], cleanup("job"));
    assert_eq!(actions[3], finish_error());
    assert_eq!(job.errors(), vec![JobError::UnsupportedFormat]);
}

#[test]
fn the_format_is_matched_letter_for_letter() {
    for format in ["PDF", "pdf ", "", "ppt x", "doc", "odt", "pptxx"] {
        let (job, _) = Presentation::start(request(format, None), "job".to_string());
        assert_eq!(job.convert_to_pdf(), Err(JobError::UnsupportedFormat), "{:?}", format);
    }
}

#[test]
fn office_formats_go_through_the_converter() {
    for format in ["ppt", "pptx", "odp"] {
        let (job, _) = Presentation::start(request(format, None), "job".to_string());
        assert_eq!(
            job.convert_to_pdf(),
            Ok(Action::Convert {
                command: "unoconv -f pdf -o \"tmp/job/pdf.pdf\" \"tmp/job/presentation\""
                    .to_string(),
            })
        );
        let (job, action) = job.step(Event::Downloaded { status: 200 });
        assert!(matches!(action, Action::Convert { .. }));
        let (job, action) = job.step(Event::Converted { code: Some(0) });
        assert_eq!(job.stage(), Stage::Counting);
        assert!(matches!(action, Action::CountPages { .. }));
    }
}

#[test]
fn a_canonical_document_is_only_renamed() {
    let (job, _) = Presentation::start(request("pdf", None), "job".to_string());
    assert_eq!(
        job.convert_to_pdf(),
        Ok(Action::Rename {
            from: "tmp/job/presentation".to_string(),
            to: "tmp/job/pdf.pdf".to_string(),
        })
    );
    let (_, actions) = drive("pdf", "job", smooth_run());
    assert_eq!(count(&actions, |a| matches!(a, Action::Convert { .. })), 0);
    assert_eq!(count(&actions, |a| matches!(a, Action::Rename { .. })), 1);
}

#[test]
fn a_failed_download_fails_the_job() {
    let (job, actions) = inject(0, Event::Failed);
    assert_failed_with(&job, &actions, JobError::Download);
    assert_eq!(actions.len(), 4);
    let (job, actions) = inject(0, Event::Downloaded { status: 404 });
    assert_failed_with(&job, &actions, JobError::Download);
    let (job, actions) = inject(0, Event::Downloaded { status: 500 });
    assert_failed_with(&job, &actions, JobError::Download);
    let (job, actions) = inject(0, Event::Downloaded { status: 302 });
    assert_failed_with(&job, &actions, JobError::Download);
}

#[test]
fn a_failed_normalization_fails_the_job() {
    let (job, actions) = inject(1, Event::Failed);
    assert_failed_with(&job, &actions, JobError::ConversionTool);
    assert_eq!(count(&actions, |a| matches!(a, Action::CountPages { .. })), 0);

    let (job, _) = Presentation::start(request("pptx", None), "job".to_string());
    let (job, _) = job.step(Event::Downloaded { status: 200 });
    let (job, action) = job.step(Event::Converted { code: Some(1) });
    assert_eq!(job.outcome(), Outcome::Failed(JobError::ConversionTool));
    assert_eq!(action, notify("error"));

    let (job, _) = Presentation::start(request("odp", None), "job".to_string());
    let (job, _) = job.step(Event::Downloaded { status: 200 });
    let (job, _) = job.step(Event::Converted { code: None });
    assert_eq!(job.outcome(), Outcome::Failed(JobError::ConversionTool));

    let (job, _) = Presentation::start(request("ppt", None), "job".to_string());
    let (job, _) = job.step(Event::Downloaded { status: 200 });
    let (job, _) = job.step(Event::Renamed);
    assert_eq!(job.outcome(), Outcome::Failed(JobError::ConversionTool));
}

#[test]
fn a_failed_page_count_fails_the_job() {
    let (job, actions) = inject(2, Event::Failed);
    assert_failed_with(&job, &actions, JobError::PageCount);
    let (job, actions) = inject(2, Event::Counted { code: Some(1), output: "3".to_string() });
    assert_failed_with(&job, &actions, JobError::PageCount);
    assert_eq!(job.number_of_pages(), 0);
    let (job, actions) = inject(2, Event::Counted { code: None, output: "3".to_string() });
    assert_failed_with(&job, &actions, JobError::PageCount);
}

#[test]
fn a_failed_or_partial_split_fails_the_job() {
    let (job, actions) = inject(3, Event::Failed);
    assert_failed_with(&job, &actions, JobError::PageSplit);
    let (job, actions) = inject(3, Event::Split { code: Some(1), pages: 3 });
    assert_failed_with(&job, &actions, JobError::PageSplit);
    let (job, actions) = inject(3, Event::Split { code: Some(0), pages: 2 });
    assert_failed_with(&job, &actions, JobError::PageSplit);
    let (job, actions) = inject(3, Event::Split { code: Some(0), pages: 4 });
    assert_failed_with(&job, &actions, JobError::PageSplit);
    assert_eq!(count(&actions, |a| matches!(a, Action::Process { .. })), 0);
    assert_eq!(job.number_of_pages(), 3);
}

#[test]
fn a_failed_render_fails_the_job_and_skips_the_upload() {
    let (job, actions) = inject(
        4,
        Event::Processed {
            renders: vec![ok(1, ""), Completion::exited(2, Some(1), String::new()), ok(3, "")],
            texts: vec![ok(1, "a"), ok(2, "b"), ok(3, "c")],
        },
    );
    assert_failed_with(&job, &actions, JobError::Render);
    assert_eq!(count(&actions, is_upload), 0);
    assert_eq!(job.pages().len(), 3);
    assert!(job.pages()[1].render_failed);
    assert_eq!(job.pages()[1].image_path, None);
    assert!(!job.pages()[0].render_failed);
    assert_eq!(job.pages()[0].image_path, Some("tmp/job/1.png".to_string()));
    assert_eq!(job.pages()[2].image_path, Some("tmp/job/3.png".to_string()));
    assert_eq!(job.texts(), vec!["a", "b", "c"]);
}

#[test]
fn a_failed_extraction_fails_the_job_and_skips_the_upload() {
    let (job, actions) = inject(
        4,
        Event::Processed {
            renders: vec![ok(3, ""), ok(2, ""), ok(1, "")],
            texts: vec![ok(1, "a"), ok(2, "b"), Completion::exited(3, None, String::new())],
        },
    );
    assert_failed_with(&job, &actions, JobError::Extract);
    assert_eq!(count(&actions, is_upload), 0);
    assert!(job.pages()[2].extract_failed);
    assert!(!job.pages()[2].render_failed);
    assert_eq!(job.texts(), vec!["a", "b", ""]);
}

#[test]
fn a_page_that_never_reported_fails_the_job() {
    let (job, actions) = inject(
        4,
        Event::Processed {
            renders: vec![ok(1, ""), ok(3, "")],
            texts: vec![ok(1, "a"), ok(2, "b"), ok(3, "c")],
        },
    );
    assert_failed_with(&job, &actions, JobError::Render);
    let (job, actions) = inject(
        4,
        Event::Processed { renders: vec![ok(1, ""), ok(2, ""), ok(3, "")], texts: vec![] },
    );
    assert_failed_with(&job, &actions, JobError::Extract);
    let (job, actions) = inject(4, Event::Failed);
    assert_failed_with(&job, &actions, JobError::Render);
    assert_eq!(count(&actions, is_upload), 0);
}

#[test]
fn a_failed_upload_fails_the_job() {
    let (job, actions) = inject(5, Event::Failed);
    assert_failed_with(&job, &actions, JobError::Upload);
    assert_eq!(count(&actions, is_upload), 1);
    let (job, actions) = inject(
        5,
        Event::Uploaded {
            deliveries: vec![sent(1), Completion::answered(2, Some(500)), sent(3)],
        },
    );
    assert_failed_with(&job, &actions, JobError::Upload);
    let (job, actions) = inject(
        5,
        Event::Uploaded { deliveries: vec![sent(1), Completion::answered(2, None), sent(3)] },
    );
    assert_failed_with(&job, &actions, JobError::Upload);
    let (job, actions) = inject(5, Event::Uploaded { deliveries: vec![sent(1), sent(2)] });
    assert_failed_with(&job, &actions, JobError::Upload);
}

#[test]
fn a_failed_notification_does_not_change_the_outcome() {
    for fault in [Event::Failed, Event::Notified { status: 500 }, Event::CleanedUp] {
        let mut events = smooth_run();
        events[6] = fault;
        let (job, actions) = drive("pdf", "job", events);
        assert_eq!(job.stage(), Stage::Done);
        assert_eq!(job.outcome(), Outcome::Succeeded);
        assert_eq!(job.errors(), vec![JobError::Notify]);
        assert_eq!(count(&actions, is_notify), 1);
        assert_eq!(count(&actions, is_cleanup), 1);
        assert_eq!(actions[7], cleanup("job"));
        assert_eq!(
            actions[8],
            Action::Finish { message: "Successfully extracted 3 slides".to_string() }
        );
    }
}

#[test]
fn a_failed_cleanup_does_not_change_the_outcome() {
    let mut events = smooth_run();
    events[7] = Event::Failed;
    let (job, actions) = drive("pdf", "job", events);
    assert_eq!(job.stage(), Stage::Done);
    assert_eq!(job.outcome(), Outcome::Succeeded);
    assert_eq!(job.errors(), vec![JobError::Cleanup]);
    assert_eq!(count(&actions, is_cleanup), 1);
    assert_eq!(job.response(), "Successfully extracted 3 slides");

    let (job, actions) = inject(2, Event::Failed);
    assert_eq!(job.errors(), vec![JobError::PageCount, JobError::Notify, JobError::Cleanup]);
    assert_eq!(count(&actions, is_cleanup), 1);
    assert_eq!(job.response(), "Error happened in the extraction");
}

#[test]
fn cleanup_is_asked_for_once_wherever_the_fault_is() {
    for at in 0..8 {
        let (job, actions) = inject(at, Event::Failed);
        assert_eq!(job.stage(), Stage::Done, "fault at {}", at);
        assert_eq!(count(&actions, is_cleanup), 1, "fault at {}", at);
        assert_eq!(count(&actions, is_notify), 1, "fault at {}", at);
        let notified = actions.iter().position(is_notify).unwrap();
        let cleaned = actions.iter().position(is_cleanup).unwrap();
        assert_eq!(cleaned, notified + 1, "fault at {}", at);
        assert_eq!(count(&actions, is_upload), if at >= 5 { 1 } else { 0 }, "fault at {}", at);
    }
}

#[test]
fn a_finished_job_only_repeats_its_answer() {
    let (job, _) = drive("pdf", "job", smooth_run());
    let (job, action) = job.step(Event::Downloaded { status: 200 });
    assert_eq!(job.stage(), Stage::Done);
    assert_eq!(action, Action::Finish { message: "Successfully extracted 3 slides".to_string() });
    let (job, action) = job.step(Event::Failed);
    assert_eq!(job.stage(), Stage::Done);
    assert_eq!(job.outcome(), Outcome::Succeeded);
    assert!(job.errors().is_empty());
    assert_eq!(action, Action::Finish { message: "Successfully extracted 3 slides".to_string() });
}

#[test]
fn an_event_out_of_turn_fails_the_stage() {
    let (job, _) = Presentation::start(request("pdf", None), "job".to_string());
    let (job, action) = job.step(Event::CleanedUp);
    assert_eq!(job.outcome(), Outcome::Failed(JobError::Download));
    assert_eq!(action, notify("error"));

    let (job, _) = Presentation::start(request("pdf", None), "job".to_string());
    let (job, _) = job.step(Event::Downloaded { status: 200 });
    let (job, _) = job.step(Event::Converted { code: Some(0) });
    assert_eq!(job.outcome(), Outcome::Failed(JobError::ConversionTool));
}

#[test]
fn completion_order_does_not_change_the_upload() {
    let mut shuffled = smooth_run();
    shuffled[4] = Event::Processed {
        renders: vec![ok(3, ""), ok(2, ""), ok(1, "")],
        texts: vec![ok(2, "\tsecond"), ok(3, " third \n"), ok(1, "first\x0c")],
    };
    let mut straight = smooth_run();
    straight[4] = Event::Processed {
        renders: vec![ok(1, ""), ok(2, ""), ok(3, "")],
        texts: vec![ok(1, "first\x0c"), ok(2, "\tsecond"), ok(3, " third \n")],
    };
    let (a, actions_a) = drive("pdf", "job", shuffled);
    let (b, actions_b) = drive("pdf", "job", straight);
    assert_eq!(actions_a, actions_b);
    assert_eq!(a.pages(), b.pages());
    assert_eq!(a.texts(), vec!["first", "second", "third"]);
}

#[test]
fn transparency_defaults_to_false() {
    assert!(!request("pdf", None).preserve_transparency());
    assert!(!request("pdf", Some(None)).preserve_transparency());
    assert!(!request("pdf", Some(Some(false))).preserve_transparency());
    assert!(request("pdf", Some(Some(true))).preserve_transparency());
}

#[test]
fn transparency_selects_the_renderer_option() {
    let (job, _) = Presentation::start(request("pdf", Some(Some(true))), "job".to_string());
    let (job, _) = job.step(Event::Downloaded { status: 200 });
    let (job, _) = job.step(Event::Renamed);
    let (job, _) = job.step(Event::Counted { code: Some(0), output: "1".to_string() });
    let (job, action) = job.step(Event::Split { code: Some(0), pages: 1 });
    assert_eq!(
        action,
        Action::Process {
            workers: WORKERS,
            renders: vec![Task {
                index: 1,
                command: "pdftocairo -singlefile -png -r 150 tmp/job/1.pdf -transp tmp/job/1"
                    .to_string(),
            }],
            extracts: vec![Task {
                index: 1,
                command: "pdftotext -layout tmp/job/1.pdf -".to_string(),
            }],
        }
    );
    assert_eq!(
        job.generate_images(false)[0].command,
        "pdftocairo -singlefile -png -r 150 tmp/job/1.pdf  tmp/job/1"
    );
    assert_eq!(job.extract_texts().len(), 1);
}

#[test]
fn a_document_without_pages_succeeds_with_nothing_to_do() {
    let (job, actions) = drive(
        "pdf",
        "job",
        vec![
            Event::Downloaded { status: 204 },
            Event::Renamed,
            Event::Counted { code: Some(0), output: "0".to_string() },
            Event::Split { code: Some(0), pages: 0 },
            Event::Processed { renders: vec![], texts: vec![] },
            Event::Uploaded { deliveries: vec![] },
            Event::Notified { status: 200 },
            Event::CleanedUp,
        ],
    );
    assert_eq!(job.outcome(), Outcome::Succeeded);
    assert_eq!(job.response(), "Successfully extracted 0 slides");
    assert_eq!(
        actions[5],
        Action::Upload { workers: 10, url: DESTINATION.to_string(), forms: vec![] }
    );
}

#[test]
fn a_large_document_keeps_its_pages_in_order() {
    let n = 120;
    let mut renders: Vec<Completion> = (1..=n).map(|i| ok(i, "")).collect();
    renders.reverse();
    let mut texts: Vec<Completion> = (1..=n).map(|i| ok(i, &format!(" page {} ", i))).collect();
    texts.rotate_left(37);
    let (job, actions) = drive(
        "pdf",
        "job",
        vec![
            Event::Downloaded { status: 200 },
            Event::Renamed,
            Event::Counted { code: Some(0), output: " 120 ".to_string() },
            Event::Split { code: Some(0), pages: n },
            Event::Processed { renders, texts },
        ],
    );
    assert_eq!(job.stage(), Stage::Uploading);
    assert_eq!(job.pages().len(), n);
    for (i, page) in job.pages().iter().enumerate() {
        assert_eq!(page.index, i + 1);
        assert_eq!(page.text, format!("page {}", i + 1));
    }
    match &actions[5] {
        Action::Upload { forms, .. } => {
            assert_eq!(forms.len(), n);
            assert_eq!(forms[99].current, "100");
            assert_eq!(forms[99].total, "120");
            assert_eq!(forms[99].slide_text, "page 100");
            assert_eq!(forms[99].file, "tmp/job/100.png");
        }
        other => panic!("expected an upload, got {:?}", other),
    }
}

#[test]
fn plans_of_a_job_name_its_own_directory() {
    let (job, _) = Presentation::start(request("pdf", None), "0a1b".to_string());
    assert_eq!(
        job.download(),
        Action::Download {
            url: SOURCE.to_string(),
            dir: "tmp/0a1b".to_string(),
            file: "tmp/0a1b/presentation".to_string(),
        }
    );
    assert_eq!(
        job.extract_number_of_pages(),
        Action::CountPages {
            command:
                "pdfinfo tmp/0a1b/pdf.pdf | grep --binary-files=text Pages | cut -f 2 -d \":\""
                    .to_string(),
        }
    );
    assert_eq!(
        job.extract_pages(),
        Action::SplitPages {
            command: "pdfseparate tmp/0a1b/pdf.pdf tmp/0a1b/%d.pdf".to_string(),
            files: vec![],
        }
    );
    assert_eq!(job.cleanup(), Action::Cleanup { dir: "tmp/0a1b".to_string() });
    assert_eq!(
        job.send_ack("success", "message", "https://x.example".to_string()),
        Action::Notify {
            url: "https://x.example".to_string(),
            success: "success".to_string(),
            message: "message".to_string(),
        }
    );
    assert_eq!(
        job.send_slides("https://y.example".to_string()),
        Action::Upload { workers: 10, url: "https://y.example".to_string(), forms: vec![] }
    );
    assert!(job.generate_images(true).is_empty());
    assert!(job.extract_texts().is_empty());
}

#[test]
fn extract_starts_a_job_under_a_fresh_uuid() {
    let (job, first) = Presentation::extract(request("pdf", None));
    let id = job.presentation_tmp_file().clone();
    assert_eq!(id.len(), 36);
    for (i, c) in id.chars().enumerate() {
        if i == 8 || i == 13 || i == 18 || i == 23 {
            assert_eq!(c, '-');
        } else {
            assert!(c.is_ascii_digit() || ('a'..='f').contains(&c), "{:?} in {}", c, id);
        }
    }
    assert_eq!(job.stage(), Stage::Downloading);
    assert_eq!(
        first,
        Action::Download {
            url: SOURCE.to_string(),
            dir: format!("tmp/{}", id),
            file: format!("tmp/{}/presentation", id),
        }
    );
    let (other, _) = Presentation::extract(request("pdf", None));
    assert_ne!(other.presentation_tmp_file(), job.presentation_tmp_file());
}

#[test]
fn read_page_count_reads_what_the_counter_prints() {
    assert_eq!(read_page_count("          3\n"), Some(3));
    assert_eq!(read_page_count("12"), Some(12));
    assert_eq!(read_page_count(" 0 "), Some(0));
    assert_eq!(read_page_count(""), None);
    assert_eq!(read_page_count("  \n"), None);
    assert_eq!(read_page_count("1 2"), None);
    assert_eq!(read_page_count("99999999999999999999999999"), None);
}
