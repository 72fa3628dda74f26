use presentation::pages::{
    allocate, answered_ok, exited_ok, place, place_all, stage_passes, Completion, PageArtifact,
    TaskKind,
};

fn report(index: usize, ok: bool, output: &str) -> Completion {
    Completion { index, ok, output: output.to_string() }
}

fn blank(index: usize) -> PageArtifact {
    PageArtifact {
        index,
        image_path: None,
        text: String::new(),
        render_failed: false,
        extract_failed: false,
    }
}

#[test]
fn allocate_numbers_the_slots_from_one() {
    let pages = allocate(4);
    assert_eq!(pages.len(), 4);
    for (i, page) in pages.iter().enumerate() {
        assert_eq!(page.index, i + 1);
        assert_eq!(*page, blank(i + 1));
    }
    assert!(allocate(0).is_empty());
}

#[test]
fn a_tool_succeeds_only_with_exit_code_zero() {
    assert!(exited_ok(Some(0)));
    assert!(!exited_ok(Some(1)));
    assert!(!exited_ok(Some(-1)));
    assert!(!exited_ok(None));
    assert_eq!(Completion::exited(3, Some(0), "x".to_string()), report(3, true, "x"));
    assert_eq!(Completion::exited(3, Some(2), "x".to_string()), report(3, false, "x"));
    assert_eq!(Completion::exited(3, None, String::new()), report(3, false, ""));
}

#[test]
fn a_request_succeeds_only_with_a_success_status() {
    assert!(answered_ok(Some(200)));
    assert!(answered_ok(Some(204)));
    assert!(answered_ok(Some(299)));
    assert!(!answered_ok(Some(199)));
    assert!(!answered_ok(Some(300)));
    assert!(!answered_ok(Some(404)));
    assert!(!answered_ok(Some(500)));
    assert!(!answered_ok(None));
    assert_eq!(Completion::answered(2, Some(201)), report(2, true, ""));
    assert_eq!(Completion::answered(2, Some(503)), report(2, false, ""));
    assert_eq!(Completion::answered(2, None), report(2, false, ""));
}

#[test]
fn a_render_report_sets_the_image_of_its_page() {
    let mut pages = allocate(3);
    place(&mut pages, "abc", TaskKind::Render, &report(2, true, ""));
    assert_eq!(pages[0], blank(1));
    assert_eq!(pages[1].image_path, Some("tmp/abc/2.png".to_string()));
    assert!(!pages[1].render_failed);
    assert_eq!(pages[2], blank(3));
}

#[test]
fn a_failed_render_marks_its_page_and_no_other() {
    let mut pages = allocate(3);
    place(&mut pages, "abc", TaskKind::Render, &report(3, false, ""));
    assert_eq!(pages[0], blank(1));
    assert_eq!(pages[1], blank(2));
    assert!(pages[2].render_failed);
    assert!(!pages[2].extract_failed);
    assert_eq!(pages[2].image_path, None);
}

#[test]
fn a_text_report_sets_the_trimmed_text_of_its_page() {
    let mut pages = allocate(2);
    place(&mut pages, "abc", TaskKind::Extract, &report(1, true, "\n  Title  \n\x0c"));
    assert_eq!(pages[0].text, "Title");
    assert!(!pages[0].extract_failed);
    assert_eq!(pages[1], blank(2));
}

#[test]
fn a_failed_extraction_marks_its_page_and_keeps_the_text_empty() {
    let mut pages = allocate(2);
    place(&mut pages, "abc", TaskKind::Extract, &report(2, false, "half a page"));
    assert!(pages[1].extract_failed);
    assert!(!pages[1].render_failed);
    assert_eq!(pages[1].text, "");
    assert_eq!(pages[0], blank(1));
}

#[test]
fn a_report_for_no_page_changes_nothing() {
    let mut pages = allocate(2);
    place(&mut pages, "abc", TaskKind::Extract, &report(0, true, "zero"));
    place(&mut pages, "abc", TaskKind::Extract, &report(3, true, "three"));
    place(&mut pages, "abc", TaskKind::Render, &report(usize::MAX, false, ""));
    assert_eq!(pages, allocate(2));
}

#[test]
fn reports_in_reverse_order_land_in_the_same_slots() {
    let forward = vec![
        report(1, true, "one"),
        report(2, true, "two"),
        report(3, false, ""),
        report(4, true, "four"),
    ];
    let mut backward = forward.clone();
    backward.reverse();
    let mut a = allocate(4);
    let mut b = allocate(4);
    place_all(&mut a, "abc", TaskKind::Extract, &forward);
    place_all(&mut b, "abc", TaskKind::Extract, &backward);
    assert_eq!(a, b);
    assert_eq!(a[0].text, "one");
    assert_eq!(a[1].text, "two");
    assert_eq!(a[2].text, "");
    assert!(a[2].extract_failed);
    assert_eq!(a[3].text, "four");
    for (i, page) in b.iter().enumerate() {
        assert_eq!(page.index, i + 1);
    }
}

#[test]
fn reports_in_any_order_land_in_the_same_slots() {
    let orders: Vec<Vec<usize>> = vec![
        vec![1, 2, 3],
        vec![1, 3, 2],
        vec![2, 1, 3],
        vec![2, 3, 1],
        vec![3, 1, 2],
        vec![3, 2, 1],
    ];
    let mut expected = allocate(3);
    place_all(
        &mut expected,
        "abc",
        TaskKind::Render,
        &vec![report(1, true, ""), report(2, false, ""), report(3, true, "")],
    );
    for order in orders {
        let reports: Vec<Completion> = order.iter().map(|&i| report(i, i != 2, "")).collect();
        let mut pages = allocate(3);
        place_all(&mut pages, "abc", TaskKind::Render, &reports);
        assert_eq!(pages, expected);
    }
    assert_eq!(expected[0].image_path, Some("tmp/abc/1.png".to_string()));
    assert!(expected[1].render_failed);
    assert_eq!(expected[2].image_path, Some("tmp/abc/3.png".to_string()));
}

#[test]
fn render_and_text_reports_write_different_fields() {
    let mut pages = allocate(1);
    place(&mut pages, "abc", TaskKind::Extract, &report(1, true, " text "));
    place(&mut pages, "abc", TaskKind::Render, &report(1, true, "ignored"));
    assert_eq!(
        pages[0],
        PageArtifact {
            index: 1,
            image_path: Some("tmp/abc/1.png".to_string()),
            text: "text".to_string(),
            render_failed: false,
            extract_failed: false,
        }
    );
}

#[test]
fn a_stage_passes_when_every_page_reported_success() {
    assert!(stage_passes(0, &vec![]));
    assert!(stage_passes(2, &vec![report(2, true, ""), report(1, true, "")]));
    assert!(stage_passes(1, &vec![report(1, true, ""), report(1, true, "")]));
}

#[test]
fn a_stage_fails_when_a_task_failed() {
    assert!(!stage_passes(2, &vec![report(1, true, ""), report(2, false, "")]));
    assert!(!stage_passes(2, &vec![report(1, false, ""), report(2, true, "")]));
    assert!(!stage_passes(0, &vec![report(1, false, "")]));
    assert!(!stage_passes(1, &vec![report(1, true, ""), report(7, false, "")]));
}

#[test]
fn a_stage_fails_when_a_page_never_reported() {
    assert!(!stage_passes(1, &vec![]));
    assert!(!stage_passes(3, &vec![report(1, true, ""), report(3, true, "")]));
    assert!(!stage_passes(2, &vec![report(1, true, ""), report(1, true, "")]));
    assert!(!stage_passes(2, &vec![report(0, true, ""), report(1, true, ""), report(3, true, "")]));
}
