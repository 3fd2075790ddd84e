use skb_cli::models::InfoFile;
use skb_cli::models::InfoServer;
use skb_cli::reconcile::LocalFileState;
use skb_cli::reconcile::Verdict;
use skb_cli::reconcile::generic_sync_verdict;
use skb_cli::sync::ServerNewPlan;
use skb_cli::sync::ServerVerifyPlan;
use skb_cli::sync::SyncAction;
use skb_cli::sync::apply_download;
use skb_cli::sync::find_server;
use skb_cli::sync::find_tracked;
use skb_cli::sync::new_server_plan;
use skb_cli::sync::plan_sweep;
use skb_cli::sync::sweep_action;
use skb_cli::sync::verify_server_plan;

fn remote_file(id: &str, path: &str, last_modified: i64) -> InfoFile {
    InfoFile { id: id.to_string(), path: path.to_string(), last_modified }
}

fn server(hostname: &str, is_verified: bool, is_confirmed: bool) -> InfoServer {
    InfoServer {
        hostname: hostname.to_string(),
        old_hostnames: vec![],
        owner: "owner".to_string(),
        block_size: 512,
        free_blocks: 10,
        used_blocks: 2,
        healthcheck_percent: 10,
        healthcheck_interval: 60,
        is_verified,
        is_confirmed,
        healthy: true,
    }
}

#[test]
fn sweep_plan_one_action_per_file() {
    // a sweep over N files yields exactly N planned actions, each issuing at
    // most one mutating call, and skips exactly the up-to-date files
    let files = vec![
        remote_file("a", "/a", 1000),
        remote_file("b", "/b", 1000),
        remote_file("c", "/c", 1000),
        remote_file("d", "/d", 1000),
    ];
    let locals = vec![
        LocalFileState { exists: true, modified_at: 2000 },
        LocalFileState { exists: true, modified_at: 1000 },
        LocalFileState { exists: true, modified_at: 500 },
        LocalFileState { exists: false, modified_at: 0 },
    ];
    let plan = plan_sweep(&files, &locals);
    assert_eq!(plan.len(), files.len());
    assert_eq!(
        plan,
        vec![
            SyncAction::UploadFile,
            SyncAction::SkipFile,
            SyncAction::DownloadFile,
            SyncAction::DownloadFile,
        ]
    );
    let mutating = plan.iter().filter(|a| **a != SyncAction::SkipFile).count();
    assert!(mutating <= files.len());
    for (i, action) in plan.iter().enumerate() {
        let up_to_date = generic_sync_verdict(&locals[i], files[i].last_modified) == Verdict::UpToDate;
        assert_eq!(*action == SyncAction::SkipFile, up_to_date);
    }
}

#[test]
fn upload_then_resync_is_up_to_date() {
    // upload pushes the local modification time to the server; re-running the
    // generic verdict with no further local edits yields up to date
    let local = LocalFileState { exists: true, modified_at: 4242 };
    let before = remote_file("a", "/a", 1000);
    assert_eq!(sweep_action(&local, before.last_modified), SyncAction::UploadFile);
    let after = InfoFile { last_modified: local.modified_at, ..before };
    assert_eq!(generic_sync_verdict(&local, after.last_modified), Verdict::UpToDate);
    assert_eq!(sweep_action(&local, after.last_modified), SyncAction::SkipFile);
}

#[test]
fn absent_local_downloads_and_takes_server_time() {
    // local file absent, remote record modified at 1000: the verdict is a
    // download, and the applied download carries the server time of 1000
    let local = LocalFileState { exists: false, modified_at: 0 };
    assert_eq!(generic_sync_verdict(&local, 1000), Verdict::DownloadNeeded);
    assert_eq!(sweep_action(&local, 1000), SyncAction::DownloadFile);
    let applied = apply_download(1000);
    assert!(applied.exists);
    assert_eq!(applied.modified_at, 1000);
}

#[test]
fn find_tracked_matches_exact_path_only() {
    let files = vec![
        remote_file("a", "/home/a.txt", 1),
        remote_file("b", "/home/b.txt", 2),
        remote_file("c", "/home/b.txt", 3),
    ];
    assert_eq!(find_tracked(&files, &"/home/a.txt".to_string()), Some(0));
    // the first match wins
    assert_eq!(find_tracked(&files, &"/home/b.txt".to_string()), Some(1));
    // no normalization: a differing representation never matches
    assert_eq!(find_tracked(&files, &"/home/./a.txt".to_string()), None);
    assert_eq!(find_tracked(&files, &"/home/a.txt/".to_string()), None);
    assert_eq!(find_tracked(&files, &"a.txt".to_string()), None);
}

#[test]
fn find_server_by_hostname() {
    let servers = vec![server("one", true, true), server("two", false, true)];
    assert_eq!(find_server(&servers, &"one".to_string()), Some(0));
    assert_eq!(find_server(&servers, &"two".to_string()), Some(1));
    assert_eq!(find_server(&servers, &"three".to_string()), None);
}

#[test]
fn verify_plan_cases() {
    let servers = vec![server("done", true, true), server("pending", false, true)];
    assert_eq!(
        verify_server_plan(&servers, &"done".to_string()),
        ServerVerifyPlan::AlreadyConfirmed
    );
    assert_eq!(
        verify_server_plan(&servers, &"pending".to_string()),
        ServerVerifyPlan::Accept
    );
    assert_eq!(
        verify_server_plan(&servers, &"nowhere".to_string()),
        ServerVerifyPlan::NotKnown
    );
}

#[test]
fn new_server_plan_cases() {
    let servers = vec![server("one", true, true)];
    assert_eq!(new_server_plan(&servers, &"one".to_string()), ServerNewPlan::AlreadyAdded);
    assert_eq!(new_server_plan(&servers, &"two".to_string()), ServerNewPlan::Add);
}
