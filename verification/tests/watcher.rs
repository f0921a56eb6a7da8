use lead_reconciler::watcher::{
    check_deadline, snapshot_files, find_new_download, Poll, WatchError, PARTIAL_SUFFIX,
    POLL_INTERVAL_MS,
};

fn names(list: &[&str]) -> Vec<String> {
    list.iter().map(|n| n.to_string()).collect()
}

#[test]
fn snapshot_holds_every_name_of_the_listing() {
    let baseline = snapshot_files(&names(&["a.txt", "b.csv", "a.txt"]));
    assert!(baseline.contains("a.txt"));
    assert!(baseline.contains("b.csv"));
    assert!(!baseline.contains("c.csv"));
    assert!(!baseline.contains("A.txt"));
    assert!(!snapshot_files(&Vec::new()).contains(""));
}

#[test]
fn a_new_file_completes_the_download() {
    let baseline = snapshot_files(&names(&["old.csv"]));
    let listing = names(&["old.csv", "table.csv"]);
    assert_eq!(find_new_download(&listing, &baseline), Poll::Completed { index: 1 });
}

#[test]
fn a_partial_download_is_not_complete() {
    let baseline = snapshot_files(&names(&["old.csv"]));
    let listing = names(&["table.csv.crdownload", "old.csv"]);
    assert_eq!(
        find_new_download(&listing, &baseline),
        Poll::Retry { sleep_ms: POLL_INTERVAL_MS }
    );
    assert_eq!(POLL_INTERVAL_MS, 250);
    assert_eq!(PARTIAL_SUFFIX, ".crdownload");
}

#[test]
fn the_suffix_counts_only_at_the_end() {
    let baseline = snapshot_files(&Vec::new());
    assert_eq!(
        find_new_download(&names(&[".crdownload.csv"]), &baseline),
        Poll::Completed { index: 0 }
    );
    assert_eq!(
        find_new_download(&names(&[".crdownload"]), &baseline),
        Poll::Retry { sleep_ms: 250 }
    );
    assert_eq!(
        find_new_download(&names(&["x.CRDOWNLOAD"]), &baseline),
        Poll::Completed { index: 0 }
    );
    assert_eq!(
        find_new_download(&names(&["crdownload"]), &baseline),
        Poll::Completed { index: 0 }
    );
}

#[test]
fn the_first_qualifying_entry_is_returned() {
    let baseline = snapshot_files(&names(&["old.csv"]));
    let listing = names(&["x.crdownload", "old.csv", "one.csv", "two.csv"]);
    assert_eq!(find_new_download(&listing, &baseline), Poll::Completed { index: 2 });
}

#[test]
fn nothing_new_means_retry() {
    let baseline = snapshot_files(&names(&["a", "b"]));
    assert_eq!(
        find_new_download(&names(&["b", "a"]), &baseline),
        Poll::Retry { sleep_ms: 250 }
    );
    assert_eq!(find_new_download(&Vec::new(), &baseline), Poll::Retry { sleep_ms: 250 });
}

#[test]
fn a_file_of_the_baseline_never_completes_even_if_rewritten() {
    let baseline = snapshot_files(&names(&["table.csv"]));
    assert_eq!(
        find_new_download(&names(&["table.csv"]), &baseline),
        Poll::Retry { sleep_ms: 250 }
    );
}

#[test]
fn the_watcher_goes_on_before_the_deadline() {
    assert_eq!(check_deadline(0, 60_000), Ok(()));
    assert_eq!(check_deadline(59_999, 60_000), Ok(()));
}

#[test]
fn the_watcher_gives_up_at_the_deadline_with_the_elapsed_time() {
    assert_eq!(check_deadline(60_000, 60_000), Err(WatchError::TimedOut { elapsed_ms: 60_000 }));
    assert_eq!(check_deadline(60_250, 60_000), Err(WatchError::TimedOut { elapsed_ms: 60_250 }));
    assert_eq!(check_deadline(0, 0), Err(WatchError::TimedOut { elapsed_ms: 0 }));
    assert_eq!(
        check_deadline(u64::MAX, u64::MAX),
        Err(WatchError::TimedOut { elapsed_ms: u64::MAX })
    );
}

#[test]
fn a_scripted_watch_returns_the_file_once_it_is_whole() {
    let baseline = snapshot_files(&names(&["old.csv"]));
    let polls = [
        names(&["old.csv"]),
        names(&["old.csv", "table.csv.crdownload"]),
        names(&["old.csv", "table.csv"]),
    ];
    let mut elapsed = 0;
    let mut found = None;
    for listing in polls.iter() {
        assert_eq!(check_deadline(elapsed, 60_000), Ok(()));
        match find_new_download(listing, &baseline) {
            Poll::Completed { index } => {
                found = Some(listing[index].clone());
                break;
            }
            Poll::Retry { sleep_ms } => elapsed += sleep_ms,
        }
    }
    assert_eq!(found, Some("table.csv".to_string()));
    assert_eq!(elapsed, 500);
}
