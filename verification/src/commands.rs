//! The command lines of the outside tools. Each is handed to a shell as one
//! line; this module only writes the lines.

use crate::paths::{
    canonical_file, canonical_path, download_file, download_path, page_file, page_path,
    page_pattern, page_stem, pattern_path, stem_path,
};
use vstd::prelude::*;

verus! {

/// The line that converts the downloaded office document to canonical form.
pub open spec fn convert_line(id: Seq<char>) -> Seq<char> {
    "unoconv -f pdf -o \""@ + canonical_file(id) + "\" \""@ + download_file(id) + "\""@
}

/// The line that prints the number of pages of the canonical document.
pub open spec fn count_line(id: Seq<char>) -> Seq<char> {
    "pdfinfo "@ + canonical_file(id) + " | grep --binary-files=text Pages | cut -f 2 -d \":\""@
}

/// The line that splits the canonical document into single pages.
pub open spec fn split_line(id: Seq<char>) -> Seq<char> {
    "pdfseparate "@ + canonical_file(id) + " "@ + page_pattern(id)
}

/// The renderer's option for the alpha channel: kept or removed.
pub open spec fn alpha_option(transparent: bool) -> Seq<char> {
    if transparent {
        "-transp"@
    } else {
        ""@
    }
}

/// The line that renders page `index` at 150 dpi.
pub open spec fn render_line(id: Seq<char>, index: nat, transparent: bool) -> Seq<char> {
    "pdftocairo -singlefile -png -r 150 "@ + page_file(id, index) + " "@ + alpha_option(
        transparent,
    ) + " "@ + page_stem(id, index)
}

/// The line that prints the text of page `index`.
pub open spec fn text_line(id: Seq<char>, index: nat) -> Seq<char> {
    "pdftotext -layout "@ + page_file(id, index) + " -"@
}

/// Builds [`convert_line`].
pub fn convert_command(id: &str) -> (r: String)
    ensures
        r@ == convert_line(id@),
{
    let to = canonical_path(id);
    let from = download_path(id);
    let mut r = String::from_str("unoconv -f pdf -o \"");
    r.append(to.as_str());
    r.append("\" \"");
    r.append(from.as_str());
    r.append("\"");
    r
}

/// Builds [`count_line`].
pub fn count_command(id: &str) -> (r: String)
    ensures
        r@ == count_line(id@),
{
    let file = canonical_path(id);
    let mut r = String::from_str("pdfinfo ");
    r.append(file.as_str());
    r.append(" | grep --binary-files=text Pages | cut -f 2 -d \":\"");
    r
}

/// Builds [`split_line`].
pub fn split_command(id: &str) -> (r: String)
    ensures
        r@ == split_line(id@),
{
    let file = canonical_path(id);
    let pattern = pattern_path(id);
    let mut r = String::from_str("pdfseparate ");
    r.append(file.as_str());
    r.append(" ");
    r.append(pattern.as_str());
    r
}

/// Builds [`render_line`].
pub fn render_command(id: &str, index: usize, transparent: bool) -> (r: String)
    ensures
        r@ == render_line(id@, index as nat, transparent),
{
    let file = page_path(id, index);
    let stem = stem_path(id, index);
    let alpha = if transparent {
        "-transp"
    } else {
        ""
    };
    let mut r = String::from_str("pdftocairo -singlefile -png -r 150 ");
    r.append(file.as_str());
    r.append(" ");
    r.append(alpha);
    r.append(" ");
    r.append(stem.as_str());
    r
}

/// Builds [`text_line`].
pub fn text_command(id: &str, index: usize) -> (r: String)
    ensures
        r@ == text_line(id@, index as nat),
{
    let file = page_path(id, index);
    let mut r = String::from_str("pdftotext -layout ");
    r.append(file.as_str());
    r.append(" -");
    r
}

} // verus!
