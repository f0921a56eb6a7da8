//! The retrieval state machine: the scripted browser session that logs in,
//! sets the date window, triggers the export and awaits the download.
//!
//! The machine decides what the browser is to do in each state and where a
//! transition leads; performing the steps is left to the caller, who hands
//! back how the transition went.

use vstd::prelude::*;
use vstd::string::StringExecFns;
use crate::dates::{
    date_formatter, days_in_month, first_and_last_day_of_month, formatted, CalendarDate, MAX_YEAR,
};
use crate::watcher::WatchError;

verus! {

/// Address of the portal's report search.
pub const PORTAL_URL: &'static str = "https://sarel.mangotopsrv.com/reports/search/";

/// Selector of the field for the account name.
pub const USERNAME_FIELD: &'static str = "input#id_username";

/// Selector of the field for the password.
pub const PASSWORD_FIELD: &'static str = "input#id_password";

/// Selector of the control that sends the login form.
pub const LOGIN_BUTTON: &'static str = "button#btn";

/// Selector of the field for the first day of the window.
pub const FROM_DATE_FIELD: &'static str = "input[name='from_date']";

/// Selector of the field for the last day of the window.
pub const TO_DATE_FIELD: &'static str = "input[name=to_date]";

/// Selector of the control that sends the search.
pub const SEARCH_BUTTON: &'static str = "button[type=submit]";

/// Selector of the control that triggers the export.
pub const EXPORT_BUTTON: &'static str = "button[class=table-csv-export-btn]";

/// Milliseconds the watcher is given to see the download complete.
pub const DOWNLOAD_TIMEOUT_MS: u64 = 60000;

/// Where the session stands.
#[derive(Debug, Clone, Copy, PartialEq, Eq, Structural)]
pub enum RetrievalState {
    Unauthenticated,
    LoggedIn,
    DateRangeSet,
    ExportTriggered,
    Downloaded,
}

/// The portal account.
#[derive(Debug, PartialEq, Eq)]
pub struct Credentials {
    pub username: String,
    pub password: String,
}

/// One thing for the browser to do.
#[derive(Debug, PartialEq, Eq)]
pub enum BrowserStep {
    /// Make downloads land in the working directory, without a prompt.
    AllowDownloads,
    /// Open `url`.
    Navigate { url: String },
    /// Wait until the navigation has finished.
    WaitUntilNavigated,
    /// Find the element `selector`, waiting for it to appear if `wait`
    /// says so, click it and type `text` into it.
    Fill { selector: String, text: String, wait: bool },
    /// Find the element `selector`, waiting for it to appear if `wait`
    /// says so, and click it.
    Click { selector: String, wait: bool },
    /// Record the names now in the working directory as the watcher's
    /// baseline.
    SnapshotDirectory,
    /// Run the watcher against the baseline for at most `timeout_ms`
    /// milliseconds.
    AwaitDownload { timeout_ms: u64 },
}

/// A step with its texts as sequences of characters.
pub enum StepView {
    AllowDownloads,
    Navigate { url: Seq<char> },
    WaitUntilNavigated,
    Fill { selector: Seq<char>, text: Seq<char>, wait: bool },
    Click { selector: Seq<char>, wait: bool },
    SnapshotDirectory,
    AwaitDownload { timeout_ms: u64 },
}

impl View for BrowserStep {
    type V = StepView;

    open spec fn view(&self) -> StepView {
        match *self {
            BrowserStep::AllowDownloads => StepView::AllowDownloads,
            BrowserStep::Navigate { url } => StepView::Navigate { url: url@ },
            BrowserStep::WaitUntilNavigated => StepView::WaitUntilNavigated,
            BrowserStep::Fill { selector, text, wait } => StepView::Fill {
                selector: selector@,
                text: text@,
                wait,
            },
            BrowserStep::Click { selector, wait } => StepView::Click { selector: selector@, wait },
            BrowserStep::SnapshotDirectory => StepView::SnapshotDirectory,
            BrowserStep::AwaitDownload { timeout_ms } => StepView::AwaitDownload { timeout_ms },
        }
    }
}

/// The views of a sequence of steps.
pub open spec fn views_of(steps: Seq<BrowserStep>) -> Seq<StepView> {
    Seq::new(steps.len(), |i: int| steps[i]@)
}

/// Logging in: downloads are configured before anything is opened, then
/// the portal is opened, the credentials are entered and the form is sent.
pub open spec fn login_steps(username: Seq<char>, password: Seq<char>) -> Seq<StepView> {
    seq![
        StepView::AllowDownloads,
        StepView::Navigate { url: PORTAL_URL@ },
        StepView::WaitUntilNavigated,
        StepView::Fill { selector: USERNAME_FIELD@, text: username, wait: false },
        StepView::Fill { selector: PASSWORD_FIELD@, text: password, wait: false },
        StepView::Click { selector: LOGIN_BUTTON@, wait: false },
    ]
}

/// Setting the date window to the month `month` of `year`: from its first
/// day to its last.
pub open spec fn date_range_steps(year: int, month: int) -> Seq<StepView> {
    seq![
        StepView::Fill { selector: FROM_DATE_FIELD@, text: formatted(year, month, 1), wait: true },
        StepView::Fill {
            selector: TO_DATE_FIELD@,
            text: formatted(year, month, days_in_month(year, month)),
            wait: false,
        },
    ]
}

/// Sending the search, then taking the snapshot that the watcher compares
/// against.
pub open spec fn search_steps() -> Seq<StepView> {
    seq![StepView::Click { selector: SEARCH_BUTTON@, wait: false }, StepView::SnapshotDirectory]
}

/// Clicking the export control, then awaiting the download.
pub open spec fn export_steps() -> Seq<StepView> {
    seq![
        StepView::Click { selector: EXPORT_BUTTON@, wait: true },
        StepView::AwaitDownload { timeout_ms: DOWNLOAD_TIMEOUT_MS },
    ]
}

/// What the browser does to leave `state`.
pub open spec fn steps_of(
    state: RetrievalState,
    username: Seq<char>,
    password: Seq<char>,
    year: int,
    month: int,
) -> Seq<StepView> {
    match state {
        RetrievalState::Unauthenticated => login_steps(username, password),
        RetrievalState::LoggedIn => date_range_steps(year, month),
        RetrievalState::DateRangeSet => search_steps(),
        RetrievalState::ExportTriggered => export_steps(),
        RetrievalState::Downloaded => Seq::empty(),
    }
}

/// The whole session, from the first step to the last.
pub open spec fn session_steps(
    username: Seq<char>,
    password: Seq<char>,
    year: int,
    month: int,
) -> Seq<StepView> {
    login_steps(username, password) + date_range_steps(year, month) + search_steps()
        + export_steps()
}

/// The state that follows `state`; the last state follows itself.
pub open spec fn successor(state: RetrievalState) -> RetrievalState {
    match state {
        RetrievalState::Unauthenticated => RetrievalState::LoggedIn,
        RetrievalState::LoggedIn => RetrievalState::DateRangeSet,
        RetrievalState::DateRangeSet => RetrievalState::ExportTriggered,
        RetrievalState::ExportTriggered => RetrievalState::Downloaded,
        RetrievalState::Downloaded => RetrievalState::Downloaded,
    }
}

/// How the steps of a transition went.
#[derive(Debug, PartialEq, Eq)]
pub enum StepsResult {
    /// Every step was carried out.
    Completed,
    /// The browser failed: a control was not found, a page did not load,
    /// text could not be entered.
    BrowserFailed { detail: String },
    /// The watcher gave up.
    WatchFailed { error: WatchError },
}

/// Why a session was abandoned.
#[derive(Debug, PartialEq, Eq)]
pub enum RetrievalError {
    /// The browser failed while the session was leaving `state`.
    Browser { state: RetrievalState, detail: String },
    /// No download appeared in time.
    Download { error: WatchError },
}

/// The steps the browser takes to leave `state`, for the month of `today`.
pub fn steps_from(state: RetrievalState, credentials: &Credentials, today: CalendarDate) -> (steps:
    Vec<BrowserStep>)
    requires
        state == RetrievalState::LoggedIn ==> today.ymd().0 < MAX_YEAR || today.ymd().1 < 12,
    ensures
        views_of(steps@) == steps_of(
            state,
            credentials.username@,
            credentials.password@,
            today.ymd().0,
            today.ymd().1,
        ),
{
    let mut steps: Vec<BrowserStep> = Vec::new();
    match state {
        RetrievalState::Unauthenticated => {
            steps.push(BrowserStep::AllowDownloads);
            steps.push(BrowserStep::Navigate { url: String::from_str(PORTAL_URL) });
            steps.push(BrowserStep::WaitUntilNavigated);
            steps.push(
                BrowserStep::Fill {
                    selector: String::from_str(USERNAME_FIELD),
                    text: credentials.username.clone(),
                    wait: false,
                },
            );
            steps.push(
                BrowserStep::Fill {
                    selector: String::from_str(PASSWORD_FIELD),
                    text: credentials.password.clone(),
                    wait: false,
                },
            );
            steps.push(
                BrowserStep::Click { selector: String::from_str(LOGIN_BUTTON), wait: false },
            );
        },
        RetrievalState::LoggedIn => {
            let (first_day, last_day) = first_and_last_day_of_month(today);
            steps.push(
                BrowserStep::Fill {
                    selector: String::from_str(FROM_DATE_FIELD),
                    text: date_formatter(first_day),
                    wait: true,
                },
            );
            steps.push(
                BrowserStep::Fill {
                    selector: String::from_str(TO_DATE_FIELD),
                    text: date_formatter(last_day),
                    wait: false,
                },
            );
        },
        RetrievalState::DateRangeSet => {
            steps.push(
                BrowserStep::Click { selector: String::from_str(SEARCH_BUTTON), wait: false },
            );
            steps.push(BrowserStep::SnapshotDirectory);
        },
        RetrievalState::ExportTriggered => {
            steps.push(
                BrowserStep::Click { selector: String::from_str(EXPORT_BUTTON), wait: true },
            );
            steps.push(BrowserStep::AwaitDownload { timeout_ms: DOWNLOAD_TIMEOUT_MS });
        },
        RetrievalState::Downloaded => {},
    }
    assert(views_of(steps@) =~= steps_of(
        state,
        credentials.username@,
        credentials.password@,
        today.ymd().0,
        today.ymd().1,
    ));
    steps
}

/// Where the session goes once the steps of `state` have been tried: on to
/// the next state if all of them were carried out, and nowhere otherwise.
/// Nothing is tried again.
pub fn advance(state: RetrievalState, result: StepsResult) -> (next: Result<
    RetrievalState,
    RetrievalError,
>)
    ensures
        match result {
            StepsResult::Completed => next == Ok::<RetrievalState, RetrievalError>(
                successor(state),
            ),
            StepsResult::BrowserFailed { detail } => next matches Err(
                RetrievalError::Browser { state: during, detail: reason },
            ) && during == state && reason@ == detail@,
            StepsResult::WatchFailed { error } => next matches Err(
                RetrievalError::Download { error: cause },
            ) && cause == error,
        },
{
    match result {
        StepsResult::Completed => Ok(
            match state {
                RetrievalState::Unauthenticated => RetrievalState::LoggedIn,
                RetrievalState::LoggedIn => RetrievalState::DateRangeSet,
                RetrievalState::DateRangeSet => RetrievalState::ExportTriggered,
                RetrievalState::ExportTriggered => RetrievalState::Downloaded,
                RetrievalState::Downloaded => RetrievalState::Downloaded,
            },
        ),
        StepsResult::BrowserFailed { detail } => Err(RetrievalError::Browser { state, detail }),
        StepsResult::WatchFailed { error } => Err(RetrievalError::Download { error }),
    }
}

/// In a session, downloads are configured before the portal is opened, the
/// search is sent before the snapshot is taken, and the snapshot is taken
/// before the export control is clicked, which in turn precedes the wait
/// for the download.
pub proof fn lemma_session_order(username: Seq<char>, password: Seq<char>, year: int, month: int)
    ensures
        ({
            let session = session_steps(username, password, year, month);
            &&& session.len() == 12
            &&& session[0] == StepView::AllowDownloads
            &&& forall|i: int, url: Seq<char>|
                0 <= i < session.len() && session[i] == (StepView::Navigate { url }) ==> 0 < i
            &&& session[8] == (StepView::Click { selector: SEARCH_BUTTON@, wait: false })
            &&& session[9] == StepView::SnapshotDirectory
            &&& session[10] == (StepView::Click { selector: EXPORT_BUTTON@, wait: true })
            &&& session[11] == (StepView::AwaitDownload { timeout_ms: DOWNLOAD_TIMEOUT_MS })
            &&& forall|i: int|
                0 <= i < session.len() && session[i] == StepView::SnapshotDirectory ==> i == 9
        }),
{
}

} // verus!
