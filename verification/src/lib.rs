//! Conversion of a remotely hosted slide deck or PDF into per-page
//! artifacts, a rendered image and the extracted text of every page, which
//! are delivered to a destination and followed by one notification.
//!
//! The library holds everything that is decided on the way, and nothing
//! that is done: it never opens a connection, starts a tool or touches a
//! file. A [`Presentation`] hands out one action at a time and is told what
//! came of it; `protocol` defines both. The modules, from the leaves up:
//!
//! - `text`: trimming, decimal numbers, cutting at a separator;
//! - `ident`: fresh names for working directories;
//! - `paths`, `commands`: the files of a job and the command lines of the tools;
//! - `request`: the request that starts a job;
//! - `pages`: the per-page slots, written by page index, and the verdict at
//!   the join of a fan-out stage;
//! - `protocol`: actions, events, outcomes and errors;
//! - `job`: the job and its decisions;
//! - `runs`: what holds of every run of a job;
//! - `pdf`: the plain pipeline for a single PDF.

pub mod commands;
pub mod ident;
pub mod job;
pub mod pages;
pub mod paths;
pub mod pdf;
pub mod protocol;
pub mod request;
pub mod runs;
pub mod text;

pub use job::Presentation;
pub use pdf::Pdf;
pub use request::{Callback, ConversionParams, DownloadData, RequestBody, UploadData};
