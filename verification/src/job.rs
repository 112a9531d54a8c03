//! What to download, and where to.

use std::path::PathBuf;
use vstd::prelude::*;

verus! {

/// `std::path::PathBuf`, carried and never looked into.
#[verifier::external_type_specification]
#[verifier::external_body]
pub struct ExPathBuf(std::path::PathBuf);

/// The clone of a path is a duplicate of it.
pub assume_specification[ <std::path::PathBuf as Clone>::clone ](path: &std::path::PathBuf) -> (copy:
    std::path::PathBuf)
    ensures
        copy == *path,
;

/// The conversion of a value into its own type returns the value unchanged. This is what becomes
/// of an argument of `Job::new` or `Job::with_sha256` that is a `String` or a `PathBuf` already.
pub assume_specification<T>[ <T as From<T>>::from ](value: T) -> (same: T)
    ensures
        same == value,
;

/// One file to download.
#[derive(Clone, Debug)]
pub struct Job {
    pub url: String,
    pub dest: PathBuf,
    pub expected_sha256: Option<String>,
}

impl Job {
    /// A job without an expected digest. The address and the destination are what the conversions
    /// of the arguments return.
    pub fn new<U: Into<String>, D: Into<PathBuf>>(url: U, dest: D) -> (job: Self)
        ensures
            call_ensures(<U as Into<String>>::into, (url,), job.url),
            call_ensures(<D as Into<PathBuf>>::into, (dest,), job.dest),
            job.expected_sha256 is None,
    {
        Job { url: url.into(), dest: dest.into(), expected_sha256: None }
    }

    /// The same job with an expected digest, in place of any that it had.
    pub fn with_sha256<S: Into<String>>(self, sha256: S) -> (job: Self)
        ensures
            job.url == self.url,
            job.dest == self.dest,
            job.expected_sha256 is Some,
            call_ensures(<S as Into<String>>::into, (sha256,), job.expected_sha256->0),
    {
        Job { url: self.url, dest: self.dest, expected_sha256: Some(sha256.into()) }
    }
}

} // verus!
