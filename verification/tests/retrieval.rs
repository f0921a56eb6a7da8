use lead_reconciler::dates::CalendarDate;
use lead_reconciler::retrieval::{
    advance, steps_from, BrowserStep, Credentials, RetrievalError, RetrievalState, StepsResult,
    DOWNLOAD_TIMEOUT_MS,
};
use lead_reconciler::watcher::WatchError;

fn credentials() -> Credentials {
    Credentials { username: "user".to_string(), password: "secret".to_string() }
}

fn today() -> CalendarDate {
    CalendarDate::new(2024, 2, 14).unwrap()
}

fn fill(selector: &str, text: &str, wait: bool) -> BrowserStep {
    BrowserStep::Fill { selector: selector.to_string(), text: text.to_string(), wait }
}

fn click(selector: &str, wait: bool) -> BrowserStep {
    BrowserStep::Click { selector: selector.to_string(), wait }
}

#[test]
fn login_configures_downloads_before_it_opens_the_portal() {
    let steps = steps_from(RetrievalState::Unauthenticated, &credentials(), today());
    assert_eq!(
        steps,
        vec![
            BrowserStep::AllowDownloads,
            BrowserStep::Navigate {
                url: "https://sarel.mangotopsrv.com/reports/search/".to_string()
            },
            BrowserStep::WaitUntilNavigated,
            fill("input#id_username", "user", false),
            fill("input#id_password", "secret", false),
            click("button#btn", false),
        ]
    );
}

#[test]
fn the_date_window_is_the_current_month() {
    let steps = steps_from(RetrievalState::LoggedIn, &credentials(), today());
    assert_eq!(
        steps,
        vec![
            fill("input[name='from_date']", "01/02/24", true),
            fill("input[name=to_date]", "29/02/24", false),
        ]
    );
}

#[test]
fn the_date_window_in_december() {
    let december = CalendarDate::new(2025, 12, 3).unwrap();
    let steps = steps_from(RetrievalState::LoggedIn, &credentials(), december);
    assert_eq!(
        steps,
        vec![
            fill("input[name='from_date']", "01/12/25", true),
            fill("input[name=to_date]", "31/12/25", false),
        ]
    );
}

#[test]
fn the_snapshot_follows_the_search_and_precedes_the_export() {
    let search = steps_from(RetrievalState::DateRangeSet, &credentials(), today());
    assert_eq!(search, vec![click("button[type=submit]", false), BrowserStep::SnapshotDirectory]);
    let export = steps_from(RetrievalState::ExportTriggered, &credentials(), today());
    assert_eq!(
        export,
        vec![
            click("button[class=table-csv-export-btn]", true),
            BrowserStep::AwaitDownload { timeout_ms: 60_000 },
        ]
    );
    assert_eq!(DOWNLOAD_TIMEOUT_MS, 60_000);
}

#[test]
fn nothing_is_left_to_do_once_downloaded() {
    assert!(steps_from(RetrievalState::Downloaded, &credentials(), today()).is_empty());
}

#[test]
fn the_states_follow_one_another() {
    let mut state = RetrievalState::Unauthenticated;
    let mut visited = vec![state];
    while state != RetrievalState::Downloaded {
        state = advance(state, StepsResult::Completed).unwrap();
        visited.push(state);
    }
    assert_eq!(
        visited,
        vec![
            RetrievalState::Unauthenticated,
            RetrievalState::LoggedIn,
            RetrievalState::DateRangeSet,
            RetrievalState::ExportTriggered,
            RetrievalState::Downloaded,
        ]
    );
    assert_eq!(
        advance(RetrievalState::Downloaded, StepsResult::Completed),
        Ok(RetrievalState::Downloaded)
    );
}

#[test]
fn a_browser_failure_aborts_the_session() {
    for state in [
        RetrievalState::Unauthenticated,
        RetrievalState::LoggedIn,
        RetrievalState::DateRangeSet,
        RetrievalState::ExportTriggered,
    ] {
        assert_eq!(
            advance(state, StepsResult::BrowserFailed { detail: "no such element".to_string() }),
            Err(RetrievalError::Browser { state, detail: "no such element".to_string() })
        );
    }
}

#[test]
fn the_watchers_timeout_is_handed_on_unchanged() {
    let error = WatchError::TimedOut { elapsed_ms: 60_012 };
    assert_eq!(
        advance(RetrievalState::ExportTriggered, StepsResult::WatchFailed { error }),
        Err(RetrievalError::Download { error })
    );
}

#[test]
fn a_whole_session_in_order() {
    let mut state = RetrievalState::Unauthenticated;
    let mut session = Vec::new();
    while state != RetrievalState::Downloaded {
        session.extend(steps_from(state, &credentials(), today()));
        state = advance(state, StepsResult::Completed).unwrap();
    }
    assert_eq!(session.len(), 12);
    let position = |wanted: &BrowserStep| session.iter().position(|s| s == wanted).unwrap();
    let allow = position(&BrowserStep::AllowDownloads);
    let navigate = session.iter().position(|s| matches!(s, BrowserStep::Navigate { .. })).unwrap();
    let search = position(&click("button[type=submit]", false));
    let snapshot = position(&BrowserStep::SnapshotDirectory);
    let export = position(&click("button[class=table-csv-export-btn]", true));
    let wait = position(&BrowserStep::AwaitDownload { timeout_ms: 60_000 });
    assert!(allow < navigate);
    assert!(search < snapshot && snapshot < export && export < wait);
}
