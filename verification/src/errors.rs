//! The failures the library surfaces, and the page-level error wrapper that
//! the request pipeline turns into a server-error response.

use vstd::prelude::*;

verus! {

/// Why a repository scan failed.
#[derive(Clone, Copy, Debug, PartialEq, Eq, Structural)]
pub enum ScanError {
    /// The root does not exist.
    RootMissing,
    /// The root exists but is not a directory.
    RootNotDirectory,
    /// The root could not be read.
    RootUnreadable,
    /// One child's metadata could not be read; the whole scan aborts.
    ChildUnreadable,
}

/// A README file exists but could not be read.
#[derive(Clone, Copy, Debug, PartialEq, Eq, Structural)]
pub enum ReadmeReadError {
    Unreadable,
}

/// The visit store could not append or answer a query.
#[derive(Clone, Copy, Debug, PartialEq, Eq, Structural)]
pub enum StoreError {
    Insert,
    Query,
}

/// The text that names one scan failure.
pub open spec fn scan_error_text(e: ScanError) -> Seq<char> {
    match e {
        ScanError::RootMissing => "repository root does not exist"@,
        ScanError::RootNotDirectory => "repository root is not a directory"@,
        ScanError::RootUnreadable => "repository root could not be read"@,
        ScanError::ChildUnreadable => "an entry of the repository root could not be read"@,
    }
}

/// The text that names a failed README read.
pub open spec fn readme_error_text(e: ReadmeReadError) -> Seq<char> {
    match e {
        ReadmeReadError::Unreadable => "the README exists but could not be read"@,
    }
}

/// The text that names one store failure.
pub open spec fn store_error_text(e: StoreError) -> Seq<char> {
    match e {
        StoreError::Insert => "a visit could not be recorded"@,
        StoreError::Query => "the visit aggregate could not be computed"@,
    }
}

impl ScanError {
    pub fn message(&self) -> (r: String)
        ensures
            r@ == scan_error_text(*self),
    {
        match self {
            ScanError::RootMissing => "repository root does not exist".to_owned(),
            ScanError::RootNotDirectory => "repository root is not a directory".to_owned(),
            ScanError::RootUnreadable => "repository root could not be read".to_owned(),
            ScanError::ChildUnreadable => "an entry of the repository root could not be read".to_owned(),
        }
    }
}

impl ReadmeReadError {
    pub fn message(&self) -> (r: String)
        ensures
            r@ == readme_error_text(*self),
    {
        match self {
            ReadmeReadError::Unreadable => "the README exists but could not be read".to_owned(),
        }
    }
}

impl StoreError {
    pub fn message(&self) -> (r: String)
        ensures
            r@ == store_error_text(*self),
    {
        match self {
            StoreError::Insert => "a visit could not be recorded".to_owned(),
            StoreError::Query => "the visit aggregate could not be computed".to_owned(),
        }
    }
}

/// A page-level error: whatever failed while a page was being built. The
/// carried detail text is for out-of-band logging only; the response a
/// client sees is the generic body below and never holds the detail.
#[derive(Debug)]
pub struct AppError {
    pub detail: String,
}

/// The body of the server-error response that stands for every page-level
/// error: one generic text, the same whatever failed, so no internal detail
/// reaches the client.
pub open spec fn response_text() -> Seq<char> {
    "Something went wrong"@
}

impl AppError {
    pub fn new(detail: String) -> (r: AppError)
        ensures
            r.detail == detail,
    {
        AppError { detail }
    }

    pub fn from_scan(e: &ScanError) -> (r: AppError)
        ensures
            r.detail@ == scan_error_text(*e),
    {
        AppError { detail: e.message() }
    }

    pub fn from_readme(e: &ReadmeReadError) -> (r: AppError)
        ensures
            r.detail@ == readme_error_text(*e),
    {
        AppError { detail: e.message() }
    }

    pub fn from_store(e: &StoreError) -> (r: AppError)
        ensures
            r.detail@ == store_error_text(*e),
    {
        AppError { detail: e.message() }
    }

    /// The text of the response a page-level error produces: the generic
    /// body, independent of the carried detail, which stays out of band.
    pub fn response_body(&self) -> (r: String)
        ensures
            r@ == response_text(),
    {
        "Something went wrong".to_owned()
    }
}

} // verus!
