//! Orchestration: locating matched records and turning verdicts into
//! planned transfer actions.
//!
//! The functions here decide; they never perform network or filesystem work.
//! The embedding binary fetches the remote snapshot once per command, reads
//! local metadata fresh per file, asks these functions what to do, and then
//! performs exactly the calls the plan names.

use vstd::prelude::*;

use crate::models::InfoFile;
use crate::models::InfoServer;
use crate::reconcile::LocalFileState;
use crate::reconcile::Verdict;
use crate::reconcile::generic_sync_verdict;
use crate::reconcile::spec_generic_sync_verdict;
use crate::reconcile::spec_update_verdict;

verus! {

/// The action the sweep takes for one tracked file.
#[derive(Clone, Copy, Debug, PartialEq, Eq, Structural)]
pub enum SyncAction {
    /// Push the local version to the server (one mutating call).
    UploadFile,
    /// Fetch the server version and overwrite the local file (one mutating
    /// call).
    DownloadFile,
    /// Do nothing: the file is up to date (no network call).
    SkipFile,
}

/// The kind of mutating network call a verdict demands, if any.
#[derive(Clone, Copy, Debug, PartialEq, Eq, Structural)]
pub enum CallKind {
    /// A signed upload of the local file contents.
    Upload,
    /// A signed download of the server file contents.
    Download,
}

/// The mutating call that executing a verdict issues: uploads and downloads
/// each issue exactly one; every other verdict issues none.
pub open spec fn spec_verdict_call(v: Verdict) -> Option<CallKind> {
    match v {
        Verdict::UploadNeeded => Some(CallKind::Upload),
        Verdict::DownloadNeeded => Some(CallKind::Download),
        _ => None,
    }
}

/// The sweep action for one tracked file, derived from the bidirectional
/// verdict.
pub open spec fn spec_sweep_action(local: LocalFileState, remote_modified: i64) -> SyncAction {
    match spec_generic_sync_verdict(local, remote_modified) {
        Verdict::UploadNeeded => SyncAction::UploadFile,
        Verdict::DownloadNeeded => SyncAction::DownloadFile,
        _ => SyncAction::SkipFile,
    }
}

/// Decide the sweep action for one tracked file.
pub fn sweep_action(local: &LocalFileState, remote_modified: i64) -> (r: SyncAction)
    ensures
        r == spec_sweep_action(*local, remote_modified),
{
    match generic_sync_verdict(local, remote_modified) {
        Verdict::UploadNeeded => SyncAction::UploadFile,
        Verdict::DownloadNeeded => SyncAction::DownloadFile,
        _ => SyncAction::SkipFile,
    }
}

/// The plan of a full sweep: one action per tracked file, in snapshot order.
pub open spec fn spec_sweep_plan(files: Seq<InfoFile>, locals: Seq<LocalFileState>) -> Seq<
    SyncAction,
> {
    Seq::new(files.len(), |i: int| spec_sweep_action(locals[i], files[i].last_modified))
}

/// Plan a full sweep over the snapshot: for the file at each position, the
/// action demanded by its remote modification time and the local state read
/// for it.
pub fn plan_sweep(files: &Vec<InfoFile>, locals: &Vec<LocalFileState>) -> (r: Vec<SyncAction>)
    requires
        files@.len() == locals@.len(),
    ensures
        r@ == spec_sweep_plan(files@, locals@),
{
    let n = files.len();
    let mut plan: Vec<SyncAction> = Vec::new();
    for i in 0..n
        invariant
            n == files@.len(),
            files@.len() == locals@.len(),
            plan@.len() == i,
            forall|j: int|
                0 <= j < i ==> plan@[j] == spec_sweep_action(locals@[j], files@[j].last_modified),
    {
        let a = sweep_action(&locals[i], files[i].last_modified);
        plan.push(a);
    }
    proof {
        assert(plan@ =~= spec_sweep_plan(files@, locals@));
    }
    plan
}

/// How many mutating network calls one sweep action issues.
pub open spec fn spec_action_calls(a: SyncAction) -> nat {
    if a == SyncAction::SkipFile {
        0
    } else {
        1
    }
}

/// How many mutating network calls a whole plan issues.
pub open spec fn spec_mutating_calls(plan: Seq<SyncAction>) -> nat
    decreases plan.len(),
{
    if plan.len() == 0 {
        0
    } else {
        spec_action_calls(plan[0]) + spec_mutating_calls(plan.drop_first())
    }
}

proof fn lemma_mutating_calls_le_len(plan: Seq<SyncAction>)
    ensures
        spec_mutating_calls(plan) <= plan.len(),
    decreases plan.len(),
{
    if plan.len() > 0 {
        lemma_mutating_calls_le_len(plan.drop_first());
    }
}

/// A full sweep over N tracked files issues at most one mutating call per
/// file — so at most N in total — and skips a file, issuing no call, exactly
/// when the file is up to date.  (The snapshot itself is fetched in a single
/// read call before the sweep.)
pub proof fn lemma_sweep_issues_bounded_calls(files: Seq<InfoFile>, locals: Seq<LocalFileState>)
    requires
        files.len() == locals.len(),
    ensures
        spec_sweep_plan(files, locals).len() == files.len(),
        forall|i: int|
            0 <= i < files.len() ==> spec_action_calls(#[trigger] spec_sweep_plan(files, locals)[i])
                <= 1,
        spec_mutating_calls(spec_sweep_plan(files, locals)) <= files.len(),
        forall|i: int|
            0 <= i < files.len() ==> ((#[trigger] spec_sweep_plan(files, locals)[i]
                == SyncAction::SkipFile) <==> spec_generic_sync_verdict(
                locals[i],
                files[i].last_modified,
            ) == Verdict::UpToDate),
{
    lemma_mutating_calls_le_len(spec_sweep_plan(files, locals));
}

/// The remote record after a successful upload: the server persists the
/// local modification time that the upload call attached, and keeps the
/// identifier and path.
pub open spec fn spec_remote_after_upload(f: InfoFile, local_modified: i64) -> InfoFile {
    InfoFile { last_modified: local_modified, ..f }
}

/// Uploading a file and immediately re-running the bidirectional sync
/// verdict for it, with no further local edits, yields up to date.
pub proof fn lemma_upload_then_sync_up_to_date(local: LocalFileState, f: InfoFile)
    requires
        local.exists,
    ensures
        spec_generic_sync_verdict(
            local,
            spec_remote_after_upload(f, local.modified_at).last_modified,
        ) == Verdict::UpToDate,
{
}

/// An explicit update against a strictly newer server version, without the
/// force flag, is refused with the server-newer conflict, and no mutating
/// call is issued for it.
pub proof fn lemma_update_refused_when_server_newer(local: LocalFileState, remote_modified: i64)
    requires
        local.exists,
        local.modified_at < remote_modified,
    ensures
        spec_update_verdict(local, Some(remote_modified), false) == Verdict::ConflictServerNewer,
        spec_verdict_call(spec_update_verdict(local, Some(remote_modified), false)) is None,
{
}

/// An explicit update with the force flag always issues the upload call,
/// whichever side is newer — except the equal case, which stays up to date
/// and issues no call.
pub proof fn lemma_forced_update_always_pushes(local: LocalFileState, remote_modified: i64)
    requires
        local.exists,
    ensures
        local.modified_at != remote_modified ==> spec_update_verdict(
            local,
            Some(remote_modified),
            true,
        ) == Verdict::UploadNeeded,
        local.modified_at != remote_modified ==> spec_verdict_call(
            spec_update_verdict(local, Some(remote_modified), true),
        ) == Some(CallKind::Upload),
        local.modified_at == remote_modified ==> spec_update_verdict(
            local,
            Some(remote_modified),
            true,
        ) == Verdict::UpToDate,
{
}

/// The local state after a download is applied: the file exists and its
/// modification time equals the value reported by the server response — not
/// the request time — preserving time-based comparability for future runs.
pub fn apply_download(server_modified: i64) -> (r: LocalFileState)
    ensures
        r.exists,
        r.modified_at == server_modified,
{
    LocalFileState { exists: true, modified_at: server_modified }
}

/// Find the first tracked file whose server-side path equals the given local
/// path, by exact string equality and with no path normalization.
pub fn find_tracked(files: &Vec<InfoFile>, path: &String) -> (r: Option<usize>)
    ensures
        match r {
            Some(i) => i < files@.len() && files@[i as int].path@ == path@ && (forall|j: int|
                0 <= j < i ==> files@[j].path@ != path@),
            None => forall|j: int| 0 <= j < files@.len() ==> files@[j].path@ != path@,
        },
{
    let n = files.len();
    for i in 0..n
        invariant
            n == files@.len(),
            forall|j: int| 0 <= j < i ==> files@[j].path@ != path@,
    {
        if files[i].path == *path {
            return Some(i);
        }
    }
    None
}

/// Find the first connected server with the given hostname, by exact string
/// equality.
pub fn find_server(servers: &Vec<InfoServer>, hostname: &String) -> (r: Option<usize>)
    ensures
        match r {
            Some(i) => i < servers@.len() && servers@[i as int].hostname@ == hostname@ && (
            forall|j: int| 0 <= j < i ==> servers@[j].hostname@ != hostname@),
            None => forall|j: int| 0 <= j < servers@.len() ==> servers@[j].hostname@ != hostname@,
        },
{
    let n = servers.len();
    for i in 0..n
        invariant
            n == servers@.len(),
            forall|j: int| 0 <= j < i ==> servers@[j].hostname@ != hostname@,
    {
        if servers[i].hostname == *hostname {
            return Some(i);
        }
    }
    None
}

/// The decision of a request to confirm a remote server.
#[derive(Clone, Copy, Debug, PartialEq, Eq, Structural)]
pub enum ServerVerifyPlan {
    /// The matched server is already verified here; nothing to do.
    AlreadyConfirmed,
    /// The matched server awaits confirmation: issue the accept call.
    Accept,
    /// No connected server carries that hostname.
    NotKnown,
}

/// Decide a server-confirmation request: the first server matching the
/// hostname is accepted if it is not yet verified, reported as already
/// confirmed if it is, and an unknown hostname is refused.
pub fn verify_server_plan(servers: &Vec<InfoServer>, hostname: &String) -> (r: ServerVerifyPlan)
    ensures
        (r == ServerVerifyPlan::NotKnown) <==> (forall|j: int|
            0 <= j < servers@.len() ==> servers@[j].hostname@ != hostname@),
        forall|i: int|
            (0 <= i < servers@.len() && (#[trigger] servers@[i].hostname@) == hostname@ && (
            forall|j: int| 0 <= j < i ==> servers@[j].hostname@ != hostname@)) ==> r == (
            if servers@[i].is_verified {
                ServerVerifyPlan::AlreadyConfirmed
            } else {
                ServerVerifyPlan::Accept
            }),
{
    match find_server(servers, hostname) {
        Some(i) => {
            if servers[i].is_verified {
                ServerVerifyPlan::AlreadyConfirmed
            } else {
                ServerVerifyPlan::Accept
            }
        },
        None => ServerVerifyPlan::NotKnown,
    }
}

/// The decision of a request to add a new remote server.
#[derive(Clone, Copy, Debug, PartialEq, Eq, Structural)]
pub enum ServerNewPlan {
    /// A connected server already carries that hostname; nothing to do.
    AlreadyAdded,
    /// No connected server matches: issue the add call.
    Add,
}

/// Decide a server-addition request: a hostname already connected is a
/// no-op; otherwise the add call is issued.
pub fn new_server_plan(servers: &Vec<InfoServer>, hostname: &String) -> (r: ServerNewPlan)
    ensures
        (r == ServerNewPlan::Add) <==> (forall|j: int|
            0 <= j < servers@.len() ==> servers@[j].hostname@ != hostname@),
{
    match find_server(servers, hostname) {
        Some(_) => ServerNewPlan::AlreadyAdded,
        None => ServerNewPlan::Add,
    }
}

} // verus!
