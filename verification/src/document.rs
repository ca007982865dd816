//! The record under which an added issue is announced to the host.

use crate::naming::LocalArtifact;
use crate::notices::{FILE_KIND, PUBLISHER};
use crate::period::ResolvedPeriod;
use vstd::prelude::*;

verus! {

/// What the host is told of an added issue.
#[derive(Debug)]
pub struct Document {
    pub title: String,
    pub author: String,
    pub year: i32,
    pub publisher: String,
    pub identifier: String,
    /// The file's path under the library root.
    pub path: String,
    pub kind: String,
    /// The file's size in bytes.
    pub size: u64,
}

/// The size that is announced: the one that was read, or 0.
pub open spec fn announced_size(size: Option<u64>) -> u64 {
    match size {
        Some(n) => n,
        None => 0,
    }
}

/// Describes an added issue: title and year are the issue's own, author,
/// publisher and kind are fixed, and a size that could not be read is 0.
pub fn describe(
    artifact: &LocalArtifact,
    period: ResolvedPeriod,
    identifier: String,
    path: String,
    size: Option<u64>,
) -> (document: Document)
    ensures
        document.title@ == artifact.title@,
        document.author@ == PUBLISHER@,
        document.year == period.year,
        document.publisher@ == PUBLISHER@,
        document.identifier == identifier,
        document.path == path,
        document.kind@ == FILE_KIND@,
        document.size == announced_size(size),
{
    let size: u64 = match size {
        Some(n) => n,
        None => 0,
    };
    Document {
        title: artifact.title.clone(),
        author: PUBLISHER.to_owned(),
        year: period.year,
        publisher: PUBLISHER.to_owned(),
        identifier,
        path,
        kind: FILE_KIND.to_owned(),
        size,
    }
}

} // verus!
