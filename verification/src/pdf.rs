//! The plain PDF pipeline: one document, rendered as a whole and read as a
//! whole, its text cut into pages at the form feeds.

use crate::ident::{is_alphanumeric_name, random_name};
use crate::paths::{work_dir, work_dir_path};
use crate::protocol::{Action, ActionView, FormView, UploadForm};
use crate::text::{decimal, decimal_string, split, split_on, trim, trimmed};
use vstd::prelude::*;

verus! {

/// How many characters the name of a working directory has.
pub const NAME_LENGTH: usize = 20;

/// The character that ends a page in the text extractor's output.
pub const FORM_FEED: char = '\x0c';

/// A PDF document on its way through the pipeline.
#[derive(Debug)]
pub struct Pdf {
    /// Where the document is.
    pub pdf_file: String,
    /// The name of the working directory; empty until the download is planned.
    pub pdf_tmp_file: String,
    /// The text of every page.
    pub texts: Vec<String>,
}

/// The mathematical value of a [`Pdf`].
pub struct PdfView {
    pub file: Seq<char>,
    pub name: Seq<char>,
    pub texts: Seq<Seq<char>>,
}

impl View for Pdf {
    type V = PdfView;

    open spec fn view(&self) -> PdfView {
        PdfView { file: self.pdf_file@, name: self.pdf_tmp_file@, texts: self.texts.deep_view() }
    }
}

/// The downloaded document.
pub open spec fn document_file(name: Seq<char>) -> Seq<char> {
    work_dir(name) + "/pdf"@
}

/// The name that the renderer's images are derived from.
pub open spec fn slides_file(name: Seq<char>) -> Seq<char> {
    work_dir(name) + "/slide.png"@
}

/// The image of the page at position `i`, counted from 0.
pub open spec fn slide_file(name: Seq<char>, i: nat) -> Seq<char> {
    work_dir(name) + "/slide-"@ + decimal(i) + ".png"@
}

/// The renderer's word for the alpha channel: kept or removed.
pub open spec fn alpha_word(transparent: bool) -> Seq<char> {
    if transparent {
        "on"@
    } else {
        "remove"@
    }
}

/// The line that renders the whole document.
pub open spec fn images_line(name: Seq<char>, transparent: bool) -> Seq<char> {
    "convert "@ + document_file(name) + " -alpha "@ + alpha_word(transparent) + " "@ + slides_file(
        name,
    )
}

/// The line that prints the whole document's text.
pub open spec fn texts_line(name: Seq<char>) -> Seq<char> {
    "pdftotext -layout "@ + document_file(name) + " -"@
}

/// The texts of the pages in what the text extractor printed: the output
/// without the white space around it, cut at every form feed.
pub open spec fn texts_of(output: Seq<char>) -> Seq<Seq<char>> {
    split_on(trimmed(output), FORM_FEED)
}

/// The download of a document into the working directory `name`.
pub open spec fn document_download(file: Seq<char>, name: Seq<char>) -> ActionView {
    ActionView::Download { url: file, dir: work_dir(name), file: document_file(name) }
}

/// The form that delivers the page at position `i`.
pub open spec fn slide_form(name: Seq<char>, texts: Seq<Seq<char>>, i: int) -> FormView {
    FormView {
        current: decimal((i + 1) as nat),
        total: decimal(texts.len()),
        slide_text: texts[i],
        file: slide_file(name, i as nat),
    }
}

/// One form per page, first page first.
pub open spec fn slide_forms(name: Seq<char>, texts: Seq<Seq<char>>) -> Seq<FormView> {
    Seq::new(texts.len(), |i: int| slide_form(name, texts, i))
}

/// Cuts the text extractor's output into the texts of the pages.
pub fn page_texts(output: &str) -> (r: Vec<String>)
    ensures
        r.deep_view() == texts_of(output@),
{
    split(trim(output), FORM_FEED)
}

fn document_path(name: &str) -> (r: String)
    ensures
        r@ == document_file(name@),
{
    let mut r = work_dir_path(name);
    r.append("/pdf");
    r
}

fn slide_path(name: &str, i: usize) -> (r: String)
    ensures
        r@ == slide_file(name@, i as nat),
{
    let mut r = work_dir_path(name);
    r.append("/slide-");
    r.append(decimal_string(i).as_str());
    r.append(".png");
    r
}

impl Pdf {
    /// A document at `pdf_file`, with no working directory and no text yet.
    pub fn new(pdf_file: String) -> (r: Pdf)
        ensures
            r@ == (PdfView { file: pdf_file@, name: Seq::empty(), texts: Seq::empty() }),
    {
        let r = Pdf { pdf_file, pdf_tmp_file: String::new(), texts: Vec::new() };
        assert(r.texts.deep_view() =~= Seq::<Seq<char>>::empty());
        r
    }

    /// Gives the document a working directory with a random name, and plans
    /// the download into it.
    pub fn download(&mut self) -> (r: Action)
        ensures
            is_alphanumeric_name(final(self)@.name, NAME_LENGTH as nat),
            final(self)@ == (PdfView { name: final(self)@.name, ..old(self)@ }),
            r@ == document_download(old(self)@.file, final(self)@.name),
    {
        let name = random_name(NAME_LENGTH);
        self.download_into(name)
    }

    /// Gives the document the working directory `name`, and plans the download into it.
    pub fn download_into(&mut self, name: String) -> (r: Action)
        ensures
            final(self)@ == (PdfView { name: name@, ..old(self)@ }),
            r@ == document_download(old(self)@.file, name@),
    {
        self.pdf_tmp_file = name;
        Action::Download {
            url: self.pdf_file.clone(),
            dir: work_dir_path(self.pdf_tmp_file.as_str()),
            file: document_path(self.pdf_tmp_file.as_str()),
        }
    }

    /// The command that renders the document.
    pub fn generate_images(&self, transparent: bool) -> (r: String)
        ensures
            r@ == images_line(self@.name, transparent),
    {
        let alpha = if transparent {
            "on"
        } else {
            "remove"
        };
        let mut r = String::from_str("convert ");
        r.append(document_path(self.pdf_tmp_file.as_str()).as_str());
        r.append(" -alpha ");
        r.append(alpha);
        r.append(" ");
        r.append(work_dir_path(self.pdf_tmp_file.as_str()).as_str());
        r.append("/slide.png");
        r
    }

    /// The command that prints the document's text.
    pub fn extract_texts(&self) -> (r: String)
        ensures
            r@ == texts_line(self@.name),
    {
        let mut r = String::from_str("pdftotext -layout ");
        r.append(document_path(self.pdf_tmp_file.as_str()).as_str());
        r.append(" -");
        r
    }

    /// The delivery of every page to `callback`, one request after the other.
    pub fn send_slides(&self, callback: String) -> (r: Action)
        ensures
            r@ == (ActionView::Upload {
                workers: 1,
                url: callback@,
                forms: slide_forms(self@.name, self@.texts),
            }),
    {
        let n = self.texts.len();
        let mut forms: Vec<UploadForm> = Vec::new();
        let mut i: usize = 0;
        while i < n
            invariant
                i <= n,
                n == self.texts.len(),
                forms.deep_view() == slide_forms(self@.name, self@.texts).subrange(0, i as int),
            decreases n - i,
        {
            let ghost before = forms.deep_view();
            let form = UploadForm {
                current: decimal_string(i + 1),
                total: decimal_string(n),
                slide_text: self.texts[i].clone(),
                file: slide_path(self.pdf_tmp_file.as_str(), i),
            };
            let ghost added = form@;
            assert(added == slide_form(self@.name, self@.texts, i as int));
            forms.push(form);
            i = i + 1;
            assert(forms.deep_view() =~= slide_forms(self@.name, self@.texts).subrange(
                0,
                i as int,
            )) by {
                assert(forms.deep_view() =~= before.push(added));
            }
        }
        assert(slide_forms(self@.name, self@.texts).subrange(0, n as int) =~= slide_forms(
            self@.name,
            self@.texts,
        ));
        Action::Upload { workers: 1, url: callback, forms }
    }

    /// The removal of the working directory.
    pub fn cleanup(&self) -> (r: Action)
        ensures
            r@ == (ActionView::Cleanup { dir: work_dir(self@.name) }),
    {
        Action::Cleanup { dir: work_dir_path(self.pdf_tmp_file.as_str()) }
    }
}

} // verus!
