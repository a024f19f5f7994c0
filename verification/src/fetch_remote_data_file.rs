use vstd::prelude::*;

verus! {

/// What the downloader must do for one requested remote file.
#[derive(Clone, Copy, Debug, PartialEq, Eq, Structural)]
pub enum FetchPlan {
    /// The file already exists locally and no download was forced: short-
    /// circuit to the existing file.
    UseExisting,
    /// Fetch the remote file, writing to a temporary name and atomically
    /// renaming on success.
    Download,
}

/// Typed failures of the remote fetch.
#[derive(Clone, Copy, Debug, PartialEq, Eq, Structural)]
pub enum FetchError {
    /// The server answered with a status other than success.
    UnexpectedStatus(u16),
}

/// Decides whether a requested remote file must actually be fetched: an
/// existing local file short-circuits the fetch unless the force flag is
/// set.
pub fn plan_fetch(exists: bool, force: bool) -> (r: FetchPlan)
    ensures
        r == (if exists && !force {
            FetchPlan::UseExisting
        } else {
            FetchPlan::Download
        }),
{
    if exists && !force {
        FetchPlan::UseExisting
    } else {
        FetchPlan::Download
    }
}

/// Accepts exactly the HTTP OK status; any other status is a typed error
/// carrying the status that came back, for the caller to retry or surface.
pub fn check_http_status(status: u16) -> (r: Result<(), FetchError>)
    ensures
        status == 200 ==> r is Ok,
        status != 200 ==> r === Err(FetchError::UnexpectedStatus(status)),
{
    if status == 200 {
        Ok(())
    } else {
        Err(FetchError::UnexpectedStatus(status))
    }
}

/// The byte total to report download progress against: the announced content
/// length, or zero when the server did not announce one.
pub fn total_bytes(content_length: Option<u64>) -> (r: u64)
    ensures
        r == (match content_length {
            Some(n) => n,
            None => 0u64,
        }),
{
    match content_length {
        Some(n) => n,
        None => 0,
    }
}

} // verus!
