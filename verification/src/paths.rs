//! Where a job keeps its files. Every job works below a directory of its own,
//! named after the job's identifier.

use crate::text::{decimal, decimal_string};
use vstd::prelude::*;

verus! {

/// The directory that the job `id` owns.
pub open spec fn work_dir(id: Seq<char>) -> Seq<char> {
    "tmp/"@ + id
}

/// The file that the download is written to.
pub open spec fn download_file(id: Seq<char>) -> Seq<char> {
    work_dir(id) + "/presentation"@
}

/// The document in canonical form.
pub open spec fn canonical_file(id: Seq<char>) -> Seq<char> {
    work_dir(id) + "/pdf.pdf"@
}

/// The pattern after which the splitter names the single pages.
pub open spec fn page_pattern(id: Seq<char>) -> Seq<char> {
    work_dir(id) + "/%d.pdf"@
}

/// What the files of page `index` have in common: the directory and the page's number.
pub open spec fn page_stem(id: Seq<char>, index: nat) -> Seq<char> {
    work_dir(id) + "/"@ + decimal(index)
}

/// The single-page document of page `index`.
pub open spec fn page_file(id: Seq<char>, index: nat) -> Seq<char> {
    page_stem(id, index) + ".pdf"@
}

/// The rendered image of page `index`.
pub open spec fn page_image(id: Seq<char>, index: nat) -> Seq<char> {
    page_stem(id, index) + ".png"@
}

/// Jobs with different identifiers work in different directories.
pub proof fn law_jobs_do_not_share_directories(a: Seq<char>, b: Seq<char>)
    requires
        a != b,
    ensures
        work_dir(a) != work_dir(b),
{
    let prefix = "tmp/"@;
    if work_dir(a) == work_dir(b) {
        assert((prefix + a).subrange(prefix.len() as int, (prefix + a).len() as int) =~= a);
        assert((prefix + b).subrange(prefix.len() as int, (prefix + b).len() as int) =~= b);
        assert(a =~= b);
    }
}

/// Every file of a job lies below the job's working directory.
pub proof fn law_files_lie_in_work_dir(id: Seq<char>, index: nat)
    ensures
        work_dir(id).is_prefix_of(download_file(id)),
        work_dir(id).is_prefix_of(canonical_file(id)),
        work_dir(id).is_prefix_of(page_pattern(id)),
        work_dir(id).is_prefix_of(page_file(id, index)),
        work_dir(id).is_prefix_of(page_image(id, index)),
{
    let dir = work_dir(id);
    assert(download_file(id).subrange(0, dir.len() as int) =~= dir);
    assert(canonical_file(id).subrange(0, dir.len() as int) =~= dir);
    assert(page_pattern(id).subrange(0, dir.len() as int) =~= dir);
    assert(page_file(id, index).subrange(0, dir.len() as int) =~= dir);
    assert(page_image(id, index).subrange(0, dir.len() as int) =~= dir);
}

/// Builds [`work_dir`].
pub fn work_dir_path(id: &str) -> (r: String)
    ensures
        r@ == work_dir(id@),
{
    let mut r = String::from_str("tmp/");
    r.append(id);
    r
}

/// Builds [`download_file`].
pub fn download_path(id: &str) -> (r: String)
    ensures
        r@ == download_file(id@),
{
    let mut r = work_dir_path(id);
    r.append("/presentation");
    r
}

/// Builds [`canonical_file`].
pub fn canonical_path(id: &str) -> (r: String)
    ensures
        r@ == canonical_file(id@),
{
    let mut r = work_dir_path(id);
    r.append("/pdf.pdf");
    r
}

/// Builds [`page_pattern`].
pub fn pattern_path(id: &str) -> (r: String)
    ensures
        r@ == page_pattern(id@),
{
    let mut r = work_dir_path(id);
    r.append("/%d.pdf");
    r
}

/// Builds [`page_stem`].
pub fn stem_path(id: &str, index: usize) -> (r: String)
    ensures
        r@ == page_stem(id@, index as nat),
{
    let mut r = work_dir_path(id);
    r.append("/");
    let number = decimal_string(index);
    r.append(number.as_str());
    r
}

/// Builds [`page_file`].
pub fn page_path(id: &str, index: usize) -> (r: String)
    ensures
        r@ == page_file(id@, index as nat),
{
    let mut r = stem_path(id, index);
    r.append(".pdf");
    r
}

/// Builds [`page_image`].
pub fn image_path(id: &str, index: usize) -> (r: String)
    ensures
        r@ == page_image(id@, index as nat),
{
    let mut r = stem_path(id, index);
    r.append(".png");
    r
}

} // verus!
