//! The request that starts a conversion.

use vstd::prelude::*;

verus! {

/// Where the source document is and what format it is declared to have.
#[derive(Clone, Debug, PartialEq, Eq)]
pub struct DownloadData {
    pub _type: String,
    pub url: String,
}

/// Where the final notification goes.
#[derive(Clone, Debug, PartialEq, Eq)]
pub struct Callback {
    pub url: String,
}

/// Where the page artifacts go.
#[derive(Clone, Debug, PartialEq, Eq)]
pub struct UploadData {
    pub url: String,
    pub callback: Callback,
}

/// Options of the conversion.
#[derive(Clone, Debug, PartialEq, Eq)]
#[allow(non_snake_case)]
pub struct ConversionParams {
    pub preserveTransparency: Option<bool>,
}

/// One conversion request.
#[derive(Clone, Debug, PartialEq, Eq)]
#[allow(non_snake_case)]
pub struct RequestBody {
    pub downloadData: DownloadData,
    pub uploadData: UploadData,
    pub conversionParams: Option<ConversionParams>,
}

/// A request as mathematics sees it: texts as sequences of characters.
pub struct RequestView {
    pub format: Seq<char>,
    pub source: Seq<char>,
    pub destination: Seq<char>,
    pub callback: Seq<char>,
    pub preserve_transparency: bool,
}

/// The transparency option of a request: `false` unless it says `true`.
pub open spec fn transparency(params: Option<ConversionParams>) -> bool {
    match params {
        Some(p) => p.preserveTransparency == Some(true),
        None => false,
    }
}

impl View for RequestBody {
    type V = RequestView;

    open spec fn view(&self) -> RequestView {
        RequestView {
            format: self.downloadData._type@,
            source: self.downloadData.url@,
            destination: self.uploadData.url@,
            callback: self.uploadData.callback.url@,
            preserve_transparency: transparency(self.conversionParams),
        }
    }
}

impl RequestBody {
    /// Whether the renderer is to keep the alpha channel.
    pub fn preserve_transparency(&self) -> (r: bool)
        ensures
            r == self@.preserve_transparency,
    {
        match &self.conversionParams {
            Some(p) => match p.preserveTransparency {
                Some(b) => b,
                None => false,
            },
            None => false,
        }
    }
}

} // verus!
