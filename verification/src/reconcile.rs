//! Per-file reconciliation: pure decisions over timestamps.
//!
//! Every function here is a pure function of the local file state, the
//! matched remote record (if any), and the caller's force flag.  Timestamps
//! are whole seconds; ties always mean the file is up to date.

use vstd::prelude::*;

verus! {

/// The decision produced for one (local path, optional matched remote record)
/// pair.  Exactly one verdict is produced per pair.
#[derive(Clone, Copy, Debug, PartialEq, Eq, Structural)]
pub enum Verdict {
    /// The local version must be pushed to the server.
    UploadNeeded,
    /// The server version must be fetched and written locally.
    DownloadNeeded,
    /// Both sides carry the same modification time; nothing to do.
    UpToDate,
    /// The server version is newer and the caller did not force the push.
    ConflictServerNewer,
    /// The local version is newer and the caller did not force the fetch.
    ConflictLocalNewer,
    /// The local file does not exist (or is not a regular file).
    NotFoundLocally,
    /// No remote record matches the local path.
    NotTrackedRemotely,
    /// A remote record already matches the path of a file being added.
    AlreadyTracked,
}

/// The informational status shown for one tracked file by the listing
/// command.
#[derive(Clone, Copy, Debug, PartialEq, Eq, Structural)]
pub enum FileListStatus {
    /// Local and remote modification times are equal.
    UpToDate,
    /// The local file is older than the server version.
    Outdated,
    /// The local file is newer than the server version.
    NotSynced,
    /// The local file does not exist (or is not a regular file).
    NotFoundLocally,
}

/// What the client knows about one local file, read fresh from filesystem
/// metadata on every command.  `modified_at` is a Unix timestamp in whole
/// seconds and is only meaningful when `exists` is true.
#[derive(Clone, Copy, Debug, PartialEq, Eq, Structural)]
pub struct LocalFileState {
    /// Whether the path names an existing regular file.
    pub exists: bool,
    /// The local modification time, in whole seconds.
    pub modified_at: i64,
}

/// Verdict of the bidirectional sweep for one tracked file: the server is
/// the sole source of truth when the local file is absent; otherwise the
/// newer side wins and ties are up to date.
pub open spec fn spec_generic_sync_verdict(local: LocalFileState, remote_modified: i64) -> Verdict {
    if !local.exists {
        Verdict::DownloadNeeded
    } else if local.modified_at > remote_modified {
        Verdict::UploadNeeded
    } else if local.modified_at == remote_modified {
        Verdict::UpToDate
    } else {
        Verdict::DownloadNeeded
    }
}

/// Verdict of an explicit "push local to server" request.
pub open spec fn spec_update_verdict(
    local: LocalFileState,
    remote_modified: Option<i64>,
    force: bool,
) -> Verdict {
    if !local.exists {
        Verdict::NotFoundLocally
    } else {
        match remote_modified {
            Option::None => Verdict::NotTrackedRemotely,
            Option::Some(rm) => {
                if local.modified_at < rm && !force {
                    Verdict::ConflictServerNewer
                } else if local.modified_at == rm {
                    Verdict::UpToDate
                } else {
                    Verdict::UploadNeeded
                }
            },
        }
    }
}

/// Verdict of an explicit "fetch server version" request.
pub open spec fn spec_download_verdict(
    local: LocalFileState,
    remote_modified: Option<i64>,
    force: bool,
) -> Verdict {
    match remote_modified {
        Option::None => Verdict::NotTrackedRemotely,
        Option::Some(rm) => {
            if !local.exists {
                Verdict::DownloadNeeded
            } else if local.modified_at > rm && !force {
                Verdict::ConflictLocalNewer
            } else if local.modified_at == rm {
                Verdict::UpToDate
            } else {
                Verdict::DownloadNeeded
            }
        },
    }
}

/// Verdict of a request to start tracking a file on the server.
pub open spec fn spec_add_verdict(local_exists: bool, already_tracked: bool) -> Verdict {
    if !local_exists {
        Verdict::NotFoundLocally
    } else if already_tracked {
        Verdict::AlreadyTracked
    } else {
        Verdict::UploadNeeded
    }
}

/// Status shown by the listing command for one tracked file.
pub open spec fn spec_list_status(local: LocalFileState, remote_modified: i64) -> FileListStatus {
    if !local.exists {
        FileListStatus::NotFoundLocally
    } else if local.modified_at < remote_modified {
        FileListStatus::Outdated
    } else if local.modified_at == remote_modified {
        FileListStatus::UpToDate
    } else {
        FileListStatus::NotSynced
    }
}

/// Decide the bidirectional sweep verdict for one tracked file.
pub fn generic_sync_verdict(local: &LocalFileState, remote_modified: i64) -> (r: Verdict)
    ensures
        r == spec_generic_sync_verdict(*local, remote_modified),
{
    if !local.exists {
        Verdict::DownloadNeeded
    } else if local.modified_at > remote_modified {
        Verdict::UploadNeeded
    } else if local.modified_at == remote_modified {
        Verdict::UpToDate
    } else {
        Verdict::DownloadNeeded
    }
}

/// Decide the verdict of an explicit single-file update (local to server).
/// A newer server version refuses the push unless forced; equal times are a
/// no-op; every other case uploads, forced or not.
pub fn update_verdict(local: &LocalFileState, remote_modified: Option<i64>, force: bool) -> (r:
    Verdict)
    ensures
        r == spec_update_verdict(*local, remote_modified, force),
{
    if !local.exists {
        Verdict::NotFoundLocally
    } else {
        match remote_modified {
            None => Verdict::NotTrackedRemotely,
            Some(rm) => {
                if local.modified_at < rm && !force {
                    Verdict::ConflictServerNewer
                } else if local.modified_at == rm {
                    Verdict::UpToDate
                } else {
                    Verdict::UploadNeeded
                }
            },
        }
    }
}

/// Decide the verdict of an explicit single-file download (server to local).
/// A newer local version refuses the fetch unless forced; equal times are a
/// no-op; an absent local file always downloads.
pub fn download_verdict(local: &LocalFileState, remote_modified: Option<i64>, force: bool) -> (r:
    Verdict)
    ensures
        r == spec_download_verdict(*local, remote_modified, force),
{
    match remote_modified {
        None => Verdict::NotTrackedRemotely,
        Some(rm) => {
            if !local.exists {
                Verdict::DownloadNeeded
            } else if local.modified_at > rm && !force {
                Verdict::ConflictLocalNewer
            } else if local.modified_at == rm {
                Verdict::UpToDate
            } else {
                Verdict::DownloadNeeded
            }
        },
    }
}

/// Decide the verdict of a request to start tracking a file: the file must
/// exist locally and must not already have a remote record.
pub fn add_verdict(local_exists: bool, already_tracked: bool) -> (r: Verdict)
    ensures
        r == spec_add_verdict(local_exists, already_tracked),
{
    if !local_exists {
        Verdict::NotFoundLocally
    } else if already_tracked {
        Verdict::AlreadyTracked
    } else {
        Verdict::UploadNeeded
    }
}

/// Decide the informational listing status for one tracked file.
pub fn list_status(local: &LocalFileState, remote_modified: i64) -> (r: FileListStatus)
    ensures
        r == spec_list_status(*local, remote_modified),
{
    if !local.exists {
        FileListStatus::NotFoundLocally
    } else if local.modified_at < remote_modified {
        FileListStatus::Outdated
    } else if local.modified_at == remote_modified {
        FileListStatus::UpToDate
    } else {
        FileListStatus::NotSynced
    }
}

/// Equal whole-second modification times always mean up to date, in every
/// comparing operation and regardless of the force flag.
pub proof fn lemma_equal_timestamps_up_to_date(t: i64, force: bool)
    ensures
        spec_generic_sync_verdict((LocalFileState { exists: true, modified_at: t }), t)
            == Verdict::UpToDate,
        spec_update_verdict((LocalFileState { exists: true, modified_at: t }), Some(t), force)
            == Verdict::UpToDate,
        spec_download_verdict((LocalFileState { exists: true, modified_at: t }), Some(t), force)
            == Verdict::UpToDate,
        spec_list_status((LocalFileState { exists: true, modified_at: t }), t)
            == FileListStatus::UpToDate,
{
}

} // verus!
