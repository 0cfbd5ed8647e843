use crate::config::AppConfig;
use crate::models::{GeneralResponse, LoginResponse, Token, UpdateCheckResponse};
use crate::process::scan_is_clear;
use vstd::prelude::*;

verus! {

/// Pause after a pending login or a transport failure, in seconds.
pub const SHORT_RETRY_SECS: u64 = 30;

/// Pause after credentials were written or the server reported an error, in seconds.
pub const LONG_RETRY_SECS: u64 = 1800;

/// Why the service refuses to start.
#[derive(Clone, Copy, Debug, PartialEq, Eq, Structural)]
pub enum ServiceError {
    /// No token is cached: the service has nothing to log in with.
    MissingToken,
}

/// The token the service runs with: the cached one, which it requires.
pub fn service_token(config: AppConfig) -> (r: Result<String, ServiceError>)
    ensures
        match config.token {
            Some(t) => r == Ok::<String, ServiceError>(t),
            None => r == Err::<String, ServiceError>(ServiceError::MissingToken),
        },
{
    match config.token {
        Some(t) => Ok(t),
        None => Err(ServiceError::MissingToken),
    }
}

/// What the service does at startup about updates.
#[derive(Debug)]
pub enum UpdatePlan {
    /// Download `url`, install it as `version`, and retire this instance if that works.
    Install { url: String, version: String },
    /// A forced update without a download address: go on with this version.
    MissingDownloadUrl { version: String },
    /// A forced update without a version: go on with this version.
    MissingVersion,
    /// No forced update.
    UpToDate,
    /// The server answered with an error payload.
    Rejected(String),
    /// The check itself failed.
    CheckFailed,
}

/// Decides what the forced-update check's answer (`None`: the call failed)
/// asks of the service before it enters its loop.
pub fn update_plan(check: Option<GeneralResponse<UpdateCheckResponse>>) -> (r: UpdatePlan)
    ensures
        match check {
            None => r is CheckFailed,
            Some(GeneralResponse::Error(e)) => r == UpdatePlan::Rejected(e.error),
            Some(GeneralResponse::Success(u)) => match (u.force_update, u.latest_version) {
                (Some(true), Some(v)) => match u.download_url {
                    Some(url) => r == (UpdatePlan::Install { url, version: v }),
                    None => r == (UpdatePlan::MissingDownloadUrl { version: v }),
                },
                (Some(true), None) => r is MissingVersion,
                _ => r is UpToDate,
            },
        },
{
    match check {
        None => UpdatePlan::CheckFailed,
        Some(GeneralResponse::Error(e)) => UpdatePlan::Rejected(e.error),
        Some(GeneralResponse::Success(u)) => match (u.force_update, u.latest_version) {
            (Some(true), Some(v)) => match u.download_url {
                Some(url) => UpdatePlan::Install { url, version: v },
                None => UpdatePlan::MissingDownloadUrl { version: v },
            },
            (Some(true), None) => UpdatePlan::MissingVersion,
            _ => UpdatePlan::UpToDate,
        },
    }
}

/// A download is used only when the HTTP status is a success (2xx).
pub fn download_succeeded(status: u16) -> (r: bool)
    ensures
        r == (200 <= status < 300),
{
    200 <= status && status < 300
}

/// What happened since the service loop's last action.
#[derive(Debug)]
pub enum ServiceEvent {
    /// The wait for the editor to exit returned.
    TargetAppClosed,
    /// The login call answered.
    LoginAnswered(LoginResponse),
    /// The login call failed in transport.
    LoginFailed,
    /// The editor was scanned for again after a successful login (`None`:
    /// the scan failed).
    TargetAppRescanned { token: Token, scan: Option<Vec<u32>> },
    /// The attempt to write credentials into the editor's store ended,
    /// successfully or not (failures are logged).
    CredentialsWritten,
    /// The empty credential was written after expiry.
    CredentialsCleared,
    /// A pause ended.
    Slept,
}

/// What the service loop does next.
#[derive(Debug)]
pub enum ServiceAction {
    /// Wait, polling slowly and silently, until the editor has exited.
    WaitTargetApp,
    /// Exchange the cached token for fresh credentials.
    Login,
    /// Check that the editor has not been relaunched since the wait.
    RescanTargetApp(Token),
    /// Write the credentials into the editor's store (and its machine id, if given).
    WriteCredentials(Token),
    /// Write the empty credential: the subscription has ended.
    ClearCredentials,
    /// Pause for this many seconds.
    Sleep(u64),
    /// Leave the loop: the one normal end of the service.
    Stop,
}

pub open spec fn service_step_spec(e: ServiceEvent) -> ServiceAction {
    match e {
        ServiceEvent::TargetAppClosed => ServiceAction::Login,
        ServiceEvent::LoginAnswered(LoginResponse::Token(t)) => ServiceAction::RescanTargetApp(t),
        ServiceEvent::LoginAnswered(LoginResponse::Pending(_)) => ServiceAction::Sleep(SHORT_RETRY_SECS),
        ServiceEvent::LoginAnswered(LoginResponse::Expired(_)) => ServiceAction::ClearCredentials,
        ServiceEvent::LoginAnswered(LoginResponse::Error(_)) => ServiceAction::Sleep(LONG_RETRY_SECS),
        ServiceEvent::LoginFailed => ServiceAction::Sleep(SHORT_RETRY_SECS),
        ServiceEvent::TargetAppRescanned { token, scan } => if scan_is_clear(scan) {
            ServiceAction::WriteCredentials(token)
        } else {
            ServiceAction::WaitTargetApp
        },
        ServiceEvent::CredentialsWritten => ServiceAction::Sleep(LONG_RETRY_SECS),
        ServiceEvent::CredentialsCleared => ServiceAction::Stop,
        ServiceEvent::Slept => ServiceAction::WaitTargetApp,
    }
}

/// The service loop's transition: from what just happened to what to do.
/// Transient failures only ever lead to a pause; the loop stops only after
/// an expired subscription has been recorded.
pub fn service_step(e: ServiceEvent) -> (r: ServiceAction)
    ensures
        r == service_step_spec(e),
{
    match e {
        ServiceEvent::TargetAppClosed => ServiceAction::Login,
        ServiceEvent::LoginAnswered(LoginResponse::Token(t)) => ServiceAction::RescanTargetApp(t),
        ServiceEvent::LoginAnswered(LoginResponse::Pending(_)) => ServiceAction::Sleep(SHORT_RETRY_SECS),
        ServiceEvent::LoginAnswered(LoginResponse::Expired(_)) => ServiceAction::ClearCredentials,
        ServiceEvent::LoginAnswered(LoginResponse::Error(_)) => ServiceAction::Sleep(LONG_RETRY_SECS),
        ServiceEvent::LoginFailed => ServiceAction::Sleep(SHORT_RETRY_SECS),
        ServiceEvent::TargetAppRescanned { token, scan } => {
            let clear = match &scan {
                None => true,
                Some(pids) => pids.len() == 0,
            };
            if clear {
                ServiceAction::WriteCredentials(token)
            } else {
                ServiceAction::WaitTargetApp
            }
        },
        ServiceEvent::CredentialsWritten => ServiceAction::Sleep(LONG_RETRY_SECS),
        ServiceEvent::CredentialsCleared => ServiceAction::Stop,
        ServiceEvent::Slept => ServiceAction::WaitTargetApp,
    }
}

/// Key in the editor's storage file that holds its machine identifier.
pub const MACHINE_ID_KEY: &'static str = "telemetry.macMachineId";

pub const ACCESS_TOKEN_KEY: &'static str = "cursorAuth/accessToken";

pub const REFRESH_TOKEN_KEY: &'static str = "cursorAuth/refreshToken";

pub const CACHED_EMAIL_KEY: &'static str = "cursorAuth/cachedEmail";

pub const SIGN_UP_TYPE_KEY: &'static str = "cursorAuth/cachedSignUpType";

pub const MEMBERSHIP_TYPE_KEY: &'static str = "cursorAuth/stripeMembershipType";

pub const SIGN_UP_TYPE: &'static str = "Auth_0";

pub const MEMBERSHIP_TYPE: &'static str = "free_trial";

/// The key/value pairs upserted into the editor's state store for a
/// credential, in the order they are written.
pub open spec fn credential_entries_spec(t: Token) -> Seq<(Seq<char>, Seq<char>)> {
    seq![
        (ACCESS_TOKEN_KEY@, t.access_token@),
        (REFRESH_TOKEN_KEY@, t.refresh_token@),
        (CACHED_EMAIL_KEY@, t.email@),
        (SIGN_UP_TYPE_KEY@, SIGN_UP_TYPE@),
        (MEMBERSHIP_TYPE_KEY@, MEMBERSHIP_TYPE@),
    ]
}

pub fn credential_entries(t: &Token) -> (r: Vec<(String, String)>)
    ensures
        r@.len() == 5,
        forall|i: int| 0 <= i < 5 ==> (#[trigger] r@[i].0@, r@[i].1@) == credential_entries_spec(*t)[i],
{
    let mut r: Vec<(String, String)> = Vec::new();
    r.push((String::from_str(ACCESS_TOKEN_KEY), t.access_token.clone()));
    r.push((String::from_str(REFRESH_TOKEN_KEY), t.refresh_token.clone()));
    r.push((String::from_str(CACHED_EMAIL_KEY), t.email.clone()));
    r.push((String::from_str(SIGN_UP_TYPE_KEY), String::from_str(SIGN_UP_TYPE)));
    r.push((String::from_str(MEMBERSHIP_TYPE_KEY), String::from_str(MEMBERSHIP_TYPE)));
    r
}

} // verus!
