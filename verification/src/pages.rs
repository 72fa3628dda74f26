//! The per-page slots of a job. They are allocated once, when the number of
//! pages is known, and written by page index: what a task reports lands in the
//! slot of its page, whenever it arrives.

use crate::paths::{image_path, page_image};
use crate::text::{trim, trimmed};
use vstd::prelude::*;

verus! {

/// What a job knows of one page.
#[derive(Clone, Debug, PartialEq, Eq)]
pub struct PageArtifact {
    /// Position of the page in the document, counted from 1.
    pub index: usize,
    /// The rendered image, once the page is rendered.
    pub image_path: Option<String>,
    /// The page's text; empty until it is extracted.
    pub text: String,
    /// Whether rendering this page failed.
    pub render_failed: bool,
    /// Whether extracting this page's text failed.
    pub extract_failed: bool,
}

/// The mathematical value of a [`PageArtifact`].
pub struct PageView {
    pub index: nat,
    pub image_path: Option<Seq<char>>,
    pub text: Seq<char>,
    pub render_failed: bool,
    pub extract_failed: bool,
}

impl View for PageArtifact {
    type V = PageView;

    open spec fn view(&self) -> PageView {
        PageView {
            index: self.index as nat,
            image_path: match self.image_path {
                Some(p) => Some(p@),
                None => None,
            },
            text: self.text@,
            render_failed: self.render_failed,
            extract_failed: self.extract_failed,
        }
    }
}

impl DeepView for PageArtifact {
    type V = PageView;

    open spec fn deep_view(&self) -> PageView {
        self@
    }
}

/// The two kinds of work done on every page.
#[derive(Clone, Copy, Debug, PartialEq, Eq)]
pub enum TaskKind {
    Render,
    Extract,
}

/// What one task reported when it ended.
#[derive(Clone, Debug, PartialEq, Eq)]
pub struct Completion {
    /// The page that the task worked on, counted from 1.
    pub index: usize,
    /// Whether the task did its work.
    pub ok: bool,
    /// What the task printed.
    pub output: String,
}

/// The mathematical value of a [`Completion`].
pub struct CompletionView {
    pub index: nat,
    pub ok: bool,
    pub output: Seq<char>,
}

impl View for Completion {
    type V = CompletionView;

    open spec fn view(&self) -> CompletionView {
        CompletionView { index: self.index as nat, ok: self.ok, output: self.output@ }
    }
}

impl DeepView for Completion {
    type V = CompletionView;

    open spec fn deep_view(&self) -> CompletionView {
        self@
    }
}

/// A tool did its work when it exited with code 0; a tool that was killed has no code.
pub open spec fn exit_ok(code: Option<i32>) -> bool {
    code == Some(0i32)
}

/// A request was served when the answer's status is one of 200 to 299; a
/// request that got no answer has no status.
pub open spec fn status_ok(status: Option<u16>) -> bool {
    match status {
        Some(s) => 200 <= s <= 299,
        None => false,
    }
}

/// Executable test for [`exit_ok`].
pub fn exited_ok(code: Option<i32>) -> (r: bool)
    ensures
        r == exit_ok(code),
{
    match code {
        Some(c) => c == 0,
        None => false,
    }
}

/// Executable test for [`status_ok`].
pub fn answered_ok(status: Option<u16>) -> (r: bool)
    ensures
        r == status_ok(status),
{
    match status {
        Some(s) => 200 <= s && s <= 299,
        None => false,
    }
}

impl Completion {
    /// The report of a tool that ran on page `index`, exited with `code` and printed `output`.
    pub fn exited(index: usize, code: Option<i32>, output: String) -> (r: Completion)
        ensures
            r@ == (CompletionView { index: index as nat, ok: exit_ok(code), output: output@ }),
    {
        Completion { index, ok: exited_ok(code), output }
    }

    /// The report of a request made for page `index` that was answered with `status`.
    pub fn answered(index: usize, status: Option<u16>) -> (r: Completion)
        ensures
            r@ == (CompletionView {
                index: index as nat,
                ok: status_ok(status),
                output: Seq::empty(),
            }),
    {
        Completion { index, ok: answered_ok(status), output: String::new() }
    }
}

/// The slot of page `index` before any task has reported.
pub open spec fn blank_page(index: nat) -> PageView {
    PageView {
        index,
        image_path: None,
        text: Seq::empty(),
        render_failed: false,
        extract_failed: false,
    }
}

/// The slots of a document of `n` pages before any task has reported.
pub open spec fn blank_pages(n: nat) -> Seq<PageView> {
    Seq::new(n, |i: int| blank_page((i + 1) as nat))
}

/// Every slot stands at the place that its page has in the document.
pub open spec fn numbered(pages: Seq<PageView>) -> bool {
    forall|i: int| 0 <= i < pages.len() ==> (#[trigger] pages[i]).index == i + 1
}

/// The slot `page` after a task of kind `kind` has reported `c` for it.
pub open spec fn marked(
    page: PageView,
    id: Seq<char>,
    kind: TaskKind,
    c: CompletionView,
) -> PageView {
    match kind {
        TaskKind::Render => if c.ok {
            PageView { image_path: Some(page_image(id, page.index)), ..page }
        } else {
            PageView { render_failed: true, ..page }
        },
        TaskKind::Extract => if c.ok {
            PageView { text: trimmed(c.output), ..page }
        } else {
            PageView { extract_failed: true, ..page }
        },
    }
}

/// The slots after one report: the slot of the page that the report names
/// is marked, and no other. A report that names no page of the document
/// changes nothing.
pub open spec fn placed(
    pages: Seq<PageView>,
    id: Seq<char>,
    kind: TaskKind,
    c: CompletionView,
) -> Seq<PageView> {
    if 1 <= c.index <= pages.len() {
        pages.update(c.index - 1, marked(pages[c.index - 1], id, kind, c))
    } else {
        pages
    }
}

/// The slots after the reports `cs`, taken in the order in which they arrived.
pub open spec fn placed_all(
    pages: Seq<PageView>,
    id: Seq<char>,
    kind: TaskKind,
    cs: Seq<CompletionView>,
) -> Seq<PageView>
    decreases cs.len(),
{
    if cs.len() == 0 {
        pages
    } else {
        placed(placed_all(pages, id, kind, cs.drop_last()), id, kind, cs.last())
    }
}

/// Allocates the slots of a document of `n` pages.
pub fn allocate(n: usize) -> (r: Vec<PageArtifact>)
    ensures
        r.deep_view() == blank_pages(n as nat),
{
    let mut r: Vec<PageArtifact> = Vec::new();
    let mut i: usize = 0;
    while i < n
        invariant
            i <= n,
            r.deep_view() == blank_pages(i as nat),
        decreases n - i,
    {
        let ghost before = r.deep_view();
        r.push(
            PageArtifact {
                index: i + 1,
                image_path: None,
                text: String::new(),
                render_failed: false,
                extract_failed: false,
            },
        );
        i = i + 1;
        assert(r.deep_view() =~= blank_pages(i as nat)) by {
            assert(r.deep_view() =~= before.push(blank_page(i as nat)));
        }
    }
    r
}

/// Writes one report into the slot of its page.
pub fn place(pages: &mut Vec<PageArtifact>, id: &str, kind: TaskKind, c: &Completion)
    ensures
        final(pages).deep_view() == placed(old(pages).deep_view(), id@, kind, c@),
{
    if 1 <= c.index && c.index <= pages.len() {
        let i = c.index - 1;
        match kind {
            TaskKind::Render => {
                if c.ok {
                    let path = image_path(id, pages[i].index);
                    pages[i].image_path = Some(path);
                } else {
                    pages[i].render_failed = true;
                }
            },
            TaskKind::Extract => {
                if c.ok {
                    pages[i].text = trim(c.output.as_str()).to_owned();
                } else {
                    pages[i].extract_failed = true;
                }
            },
        }
        assert(pages.deep_view() =~= placed(old(pages).deep_view(), id@, kind, c@));
    } else {
        assert(pages.deep_view() =~= old(pages).deep_view());
    }
}

/// Writes the reports `cs` into the slots of their pages, in the order given.
pub fn place_all(pages: &mut Vec<PageArtifact>, id: &str, kind: TaskKind, cs: &Vec<Completion>)
    ensures
        final(pages).deep_view() == placed_all(old(pages).deep_view(), id@, kind, cs.deep_view()),
{
    let mut k: usize = 0;
    assert(cs.deep_view().subrange(0, 0) =~= Seq::<CompletionView>::empty());
    while k < cs.len()
        invariant
            k <= cs.len(),
            pages.deep_view() == placed_all(
                old(pages).deep_view(),
                id@,
                kind,
                cs.deep_view().subrange(0, k as int),
            ),
        decreases cs.len() - k,
    {
        place(pages, id, kind, &cs[k]);
        proof {
            let upto = cs.deep_view().subrange(0, k + 1);
            assert(upto.drop_last() =~= cs.deep_view().subrange(0, k as int));
            assert(upto.last() == cs[k as int]@);
        }
        k = k + 1;
    }
    assert(cs.deep_view().subrange(0, k as int) =~= cs.deep_view());
}

/// No two reports name the same page: every page has one task of a kind.
pub open spec fn distinct_indices(cs: Seq<CompletionView>) -> bool {
    forall|a: int, b: int| 0 <= a < b < cs.len() ==> cs[a].index != cs[b].index
}

/// Reports are written into slots that exist already: the number of slots
/// and the page that each stands for never change.
pub proof fn law_slots_are_fixed(
    pages: Seq<PageView>,
    id: Seq<char>,
    kind: TaskKind,
    cs: Seq<CompletionView>,
)
    ensures
        placed_all(pages, id, kind, cs).len() == pages.len(),
        forall|i: int|
            0 <= i < pages.len() ==> (#[trigger] placed_all(pages, id, kind, cs)[i]).index
                == pages[i].index,
        numbered(pages) ==> numbered(placed_all(pages, id, kind, cs)),
    decreases cs.len(),
{
    if cs.len() > 0 {
        law_slots_are_fixed(pages, id, kind, cs.drop_last());
    }
}

/// A report lands in the slot of the page it names, wherever it stands among
/// the reports; a slot that no report names is left as it was.
pub proof fn law_placed_by_index(
    pages: Seq<PageView>,
    id: Seq<char>,
    kind: TaskKind,
    cs: Seq<CompletionView>,
    i: int,
)
    requires
        distinct_indices(cs),
        0 <= i < pages.len(),
    ensures
        placed_all(pages, id, kind, cs).len() == pages.len(),
        forall|k: int|
            0 <= k < cs.len() && (#[trigger] cs[k]).index == i + 1 ==> placed_all(
                pages,
                id,
                kind,
                cs,
            )[i] == marked(pages[i], id, kind, cs[k]),
        (forall|k: int| 0 <= k < cs.len() ==> (#[trigger] cs[k]).index != i + 1) ==> placed_all(
            pages,
            id,
            kind,
            cs,
        )[i] == pages[i],
    decreases cs.len(),
{
    if cs.len() > 0 {
        let init = cs.drop_last();
        assert forall|a: int, b: int| 0 <= a < b < init.len() implies init[a].index
            != init[b].index by {
            assert(init[a] == cs[a] && init[b] == cs[b]);
        }
        law_placed_by_index(pages, id, kind, init, i);
        let last = cs.last();
        if last.index == i + 1 {
            assert forall|k: int| 0 <= k < init.len() implies (#[trigger] init[k]).index != i
                + 1 by {
                assert(init[k] == cs[k]);
                assert(cs[cs.len() - 1].index == i + 1);
            }
            assert forall|k: int| 0 <= k < cs.len() && (#[trigger] cs[k]).index == i
                + 1 implies k == cs.len() - 1 by {
                if k < cs.len() - 1 {
                    assert(cs[k].index != cs[cs.len() - 1].index);
                }
            }
        } else {
            assert forall|k: int| 0 <= k < cs.len() && (#[trigger] cs[k]).index == i
                + 1 implies placed_all(pages, id, kind, cs)[i] == marked(
                pages[i],
                id,
                kind,
                cs[k],
            ) by {
                assert(k < init.len());
                assert(init[k] == cs[k]);
            }
            if forall|k: int| 0 <= k < cs.len() ==> (#[trigger] cs[k]).index != i + 1 {
                assert forall|k: int| 0 <= k < init.len() implies (#[trigger] init[k]).index
                    != i + 1 by {
                    assert(init[k] == cs[k]);
                }
            }
        }
    }
}

/// The order in which the tasks end does not matter: the same reports, in
/// whatever order they arrive, leave the same slots.
pub proof fn law_any_order(
    pages: Seq<PageView>,
    id: Seq<char>,
    kind: TaskKind,
    a: Seq<CompletionView>,
    b: Seq<CompletionView>,
)
    requires
        distinct_indices(a),
        distinct_indices(b),
        forall|c: CompletionView| a.contains(c) <==> b.contains(c),
    ensures
        placed_all(pages, id, kind, a) == placed_all(pages, id, kind, b),
{
    let x = placed_all(pages, id, kind, a);
    let y = placed_all(pages, id, kind, b);
    law_slots_are_fixed(pages, id, kind, a);
    law_slots_are_fixed(pages, id, kind, b);
    assert forall|i: int| 0 <= i < pages.len() implies x[i] == y[i] by {
        law_placed_by_index(pages, id, kind, a, i);
        law_placed_by_index(pages, id, kind, b, i);
        if exists|k: int| 0 <= k < a.len() && (#[trigger] a[k]).index == i + 1 {
            let k = choose|k: int| 0 <= k < a.len() && (#[trigger] a[k]).index == i + 1;
            assert(a.contains(a[k]));
            assert(b.contains(a[k]));
            let j = choose|j: int| 0 <= j < b.len() && b[j] == a[k];
            assert(b[j].index == i + 1);
        } else {
            assert forall|j: int| 0 <= j < b.len() implies (#[trigger] b[j]).index != i + 1 by {
                if b[j].index == i + 1 {
                    assert(b.contains(b[j]));
                    assert(a.contains(b[j]));
                    let k = choose|k: int| 0 <= k < a.len() && a[k] == b[j];
                    assert(a[k].index == i + 1);
                }
            }
        }
    }
    assert(x =~= y);
}

/// Reports that arrive last page first leave the same slots as reports that
/// arrive first page first.
pub proof fn law_reverse_order(
    pages: Seq<PageView>,
    id: Seq<char>,
    kind: TaskKind,
    cs: Seq<CompletionView>,
)
    requires
        distinct_indices(cs),
    ensures
        placed_all(pages, id, kind, cs.reverse()) == placed_all(pages, id, kind, cs),
{
    let r = cs.reverse();
    assert forall|a: int, b: int| 0 <= a < b < r.len() implies r[a].index != r[b].index by {
        assert(r[a] == cs[cs.len() - 1 - a]);
        assert(r[b] == cs[cs.len() - 1 - b]);
    }
    assert forall|c: CompletionView| r.contains(c) <==> cs.contains(c) by {
        if r.contains(c) {
            let k = choose|k: int| 0 <= k < r.len() && r[k] == c;
            assert(cs[cs.len() - 1 - k] == c);
        }
        if cs.contains(c) {
            let k = choose|k: int| 0 <= k < cs.len() && cs[k] == c;
            assert(r[cs.len() - 1 - k] == c);
        }
    }
    law_any_order(pages, id, kind, r, cs);
}

/// No task reported a failure.
pub open spec fn none_failed(cs: Seq<CompletionView>) -> bool {
    forall|k: int| 0 <= k < cs.len() ==> (#[trigger] cs[k]).ok
}

/// Some task reported on page `index`.
pub open spec fn reported(cs: Seq<CompletionView>, index: nat) -> bool {
    exists|k: int| 0 <= k < cs.len() && (#[trigger] cs[k]).index == index
}

/// A fan-out stage over `n` pages has passed: no task failed, and every page
/// was reported on. A page whose task never reported counts as failed.
pub open spec fn stage_passed(n: nat, cs: Seq<CompletionView>) -> bool {
    none_failed(cs) && forall|index: nat| 1 <= index <= n ==> reported(cs, index)
}

/// Decides [`stage_passed`] at the join of a fan-out stage.
pub fn stage_passes(n: usize, cs: &Vec<Completion>) -> (r: bool)
    ensures
        r == stage_passed(n as nat, cs.deep_view()),
{
    let mut seen: Vec<bool> = Vec::new();
    let mut i: usize = 0;
    while i < n
        invariant
            i <= n,
            seen.len() == i,
            forall|j: int| 0 <= j < i ==> !seen[j],
        decreases n - i,
    {
        seen.push(false);
        i = i + 1;
    }
    let mut k: usize = 0;
    while k < cs.len()
        invariant
            k <= cs.len(),
            seen.len() == n,
            none_failed(cs.deep_view().subrange(0, k as int)),
            forall|j: int|
                0 <= j < n ==> (#[trigger] seen[j] <==> reported(
                    cs.deep_view().subrange(0, k as int),
                    (j + 1) as nat,
                )),
        decreases cs.len() - k,
    {
        let ghost before = cs.deep_view().subrange(0, k as int);
        let ghost after = cs.deep_view().subrange(0, k + 1);
        if !cs[k].ok {
            assert(!cs.deep_view()[k as int].ok);
            return false;
        }
        let index = cs[k].index;
        if 1 <= index && index <= n {
            seen.set(index - 1, true);
        }
        proof {
            assert(after[k as int] == cs[k as int]@);
            assert forall|m: int| 0 <= m < after.len() implies (#[trigger] after[m]).ok by {
                if m < k {
                    assert(before[m] == after[m]);
                }
            }
            assert forall|j: int| 0 <= j < n implies (#[trigger] seen[j] <==> reported(
                after,
                (j + 1) as nat,
            )) by {
                if reported(before, (j + 1) as nat) {
                    let m = choose|m: int|
                        0 <= m < before.len() && (#[trigger] before[m]).index == j + 1;
                    assert(after[m] == before[m]);
                }
                if reported(after, (j + 1) as nat) && j + 1 != index {
                    let m = choose|m: int|
                        0 <= m < after.len() && (#[trigger] after[m]).index == j + 1;
                    assert(m < k);
                    assert(before[m] == after[m]);
                }
            }
        }
        k = k + 1;
    }
    assert(cs.deep_view().subrange(0, k as int) =~= cs.deep_view());
    let mut j: usize = 0;
    while j < n
        invariant
            j <= n,
            seen.len() == n,
            forall|m: int|
                0 <= m < n ==> (#[trigger] seen[m] <==> reported(cs.deep_view(), (m + 1) as nat)),
            forall|index: nat| 1 <= index <= j ==> reported(cs.deep_view(), index),
        decreases n - j,
    {
        if !seen[j] {
            assert(!reported(cs.deep_view(), (j + 1) as nat));
            return false;
        }
        assert forall|index: nat| 1 <= index <= j + 1 implies reported(cs.deep_view(), index) by {
            if index == j + 1 {
                assert(seen[j as int]);
            }
        }
        j = j + 1;
    }
    true
}

} // verus!
