//! The rules that the interception script follows for each request of the
//! page, stated over plain values: which requests are answered locally,
//! which are observed, and what the page reports to the host once a
//! response is in.

use crate::model::Command;
use crate::scraper::HostCall;
use crate::script::{ScrapeTask, TaskModel};
use crate::text::{
    ascii_lowered, chars_of, contains_chars, contains_text, lowered_chars_of, text_contains,
};
use vstd::prelude::*;

verus! {

/// Image and font extensions whose requests are not let through.
pub open spec fn blocked_extensions() -> Seq<Seq<char>> {
    seq![
        ".png"@,
        ".jpg"@,
        ".jpeg"@,
        ".gif"@,
        ".svg"@,
        ".webp"@,
        ".woff"@,
        ".woff2"@,
        ".ttf"@,
    ]
}

/// The texts of a list of strings.
pub open spec fn texts_of(items: Seq<&'static str>) -> Seq<Seq<char>> {
    items.map_values(|item: &'static str| item@)
}

/// The [`blocked_extensions`], as the script lists them and the filter
/// tries them.
pub fn blocked_extension_list() -> (list: Vec<&'static str>)
    ensures
        texts_of(list@) == blocked_extensions(),
{
    let mut list: Vec<&'static str> = Vec::new();
    list.push(".png");
    list.push(".jpg");
    list.push(".jpeg");
    list.push(".gif");
    list.push(".svg");
    list.push(".webp");
    list.push(".woff");
    list.push(".woff2");
    list.push(".ttf");
    assert(texts_of(list@) =~= blocked_extensions());
    list
}

/// The URL contains one of the [`blocked_extensions`], in any case of its
/// ASCII letters.
pub open spec fn is_static_asset(url: Seq<char>) -> bool {
    exists|k: int|
        0 <= k < blocked_extensions().len() && contains_text(
            ascii_lowered(url),
            #[trigger] blocked_extensions()[k],
        )
}

/// The response status is one of the two authentication failures.
pub open spec fn is_auth_failure(status: u16) -> bool {
    status == 401 || status == 403
}

/// Text that the page logs in front of the reason when a response body is
/// no JSON.
pub const PARSE_FAULT_PREFIX: &'static str = "Failed to capture JSON: ";

/// What the tap does with one request.
#[derive(Debug, Clone, Copy, PartialEq, Eq, Structural)]
pub enum TapVerdict {
    /// Answered at once with an empty response of status 200; the request
    /// does not reach the network and is never captured.
    Suppressed,
    /// Sent on unchanged, and not observed.
    PassedThrough,
    /// Observed; the response is an authentication failure.
    AuthRequired,
    /// Observed; the response body is to be read as JSON.
    Captured,
}

/// The verdict on a request to `url`, given the task's pattern and the status of the
/// response. Suppression comes first; the status counts only for matched requests.
pub open spec fn tap_verdict(url: Seq<char>, pattern: Seq<char>, status: u16) -> TapVerdict {
    if is_static_asset(url) {
        TapVerdict::Suppressed
    } else if !contains_text(url, pattern) {
        TapVerdict::PassedThrough
    } else if is_auth_failure(status) {
        TapVerdict::AuthRequired
    } else {
        TapVerdict::Captured
    }
}

/// What the page reports to the host for one exchange: nothing for a
/// request that is suppressed or passed through, the authentication
/// failure with the request's URL, the parsed body with the task's token,
/// or, for a body that is no JSON, a diagnostic line and no result.
pub open spec fn page_report(
    task: TaskModel,
    url: Seq<char>,
    status: u16,
    body: Result<serde_json::Value, Seq<char>>,
) -> Option<Command> {
    match tap_verdict(url, task.intercept_api, status) {
        TapVerdict::Suppressed => None,
        TapVerdict::PassedThrough => None,
        TapVerdict::AuthRequired => Some(
            Command::ReportAuthRequired { source_id: task.source_id, target_url: url },
        ),
        TapVerdict::Captured => match body {
            Ok(data) => Some(
                Command::ReportResult {
                    source_id: task.source_id,
                    secret_key: task.secret_key,
                    data,
                },
            ),
            Err(reason) => Some(Command::Log { message: PARSE_FAULT_PREFIX@ + reason }),
        },
    }
}

/// A request for a static asset is reported to the host under no pattern,
/// status or body.
pub proof fn lemma_static_asset_is_never_reported(
    task: TaskModel,
    url: Seq<char>,
    status: u16,
    body: Result<serde_json::Value, Seq<char>>,
)
    requires
        is_static_asset(url),
    ensures
        tap_verdict(url, task.intercept_api, status) == TapVerdict::Suppressed,
        page_report(task, url, status, body) is None,
{
}

/// A request whose URL does not contain the task's pattern is reported to
/// the host under no status or body.
pub proof fn lemma_unmatched_is_never_reported(
    task: TaskModel,
    url: Seq<char>,
    status: u16,
    body: Result<serde_json::Value, Seq<char>>,
)
    requires
        !contains_text(url, task.intercept_api),
    ensures
        page_report(task, url, status, body) is None,
{
}

/// The mathematical value of an optional call.
pub open spec fn call_model(call: Option<HostCall>) -> Option<Command> {
    match call {
        Some(c) => Some(c@),
        None => None,
    }
}

/// The mathematical value of a body that was parsed or not.
pub open spec fn body_model(body: Result<serde_json::Value, String>) -> Result<
    serde_json::Value,
    Seq<char>,
> {
    match body {
        Ok(data) => Ok(data),
        Err(reason) => Err(reason@),
    }
}

fn holds(lowered: &Vec<char>, extension: &str) -> (found: bool)
    ensures
        found == contains_text(lowered@, extension@),
{
    let needle = chars_of(extension);
    contains_chars(lowered, &needle)
}

/// Whether a request to `url` is for a static asset.
pub fn is_static_asset_url(url: &str) -> (blocked: bool)
    ensures
        blocked == is_static_asset(url@),
{
    let lowered = lowered_chars_of(url);
    let list = blocked_extension_list();
    let mut k: usize = 0;
    while k < list.len()
        invariant
            k <= list@.len(),
            texts_of(list@) == blocked_extensions(),
            lowered@ == ascii_lowered(url@),
            forall|j: int|
                0 <= j < k ==> !contains_text(lowered@, #[trigger] blocked_extensions()[j]),
        decreases list@.len() - k,
    {
        assert(texts_of(list@)[k as int] == list@[k as int]@);
        if holds(&lowered, list[k]) {
            return true;
        }
        k += 1;
    }
    assert(texts_of(list@).len() == list@.len());
    false
}

/// The verdict of the tap on one exchange.
pub fn judge_exchange(url: &str, pattern: &str, status: u16) -> (verdict: TapVerdict)
    ensures
        verdict == tap_verdict(url@, pattern@, status),
{
    if is_static_asset_url(url) {
        TapVerdict::Suppressed
    } else if !text_contains(url, pattern) {
        TapVerdict::PassedThrough
    } else if status == 401 || status == 403 {
        TapVerdict::AuthRequired
    } else {
        TapVerdict::Captured
    }
}

/// The call that the page makes into the host for one exchange of `task`'s
/// page: a request to `url` answered with `status` and a body that parsed
/// as JSON to `Ok(data)` or failed to parse for `Err(reason)`.
pub fn page_call(task: &ScrapeTask, url: &str, status: u16, body: Result<serde_json::Value, String>) -> (call:
    Option<HostCall>)
    ensures
        call_model(call) == page_report(task@, url@, status, body_model(body)),
{
    match judge_exchange(url, task.intercept_api.as_str(), status) {
        TapVerdict::Suppressed => None,
        TapVerdict::PassedThrough => None,
        TapVerdict::AuthRequired => Some(
            HostCall::ReportAuthRequired {
                source_id: task.source_id.clone(),
                target_url: String::from_str(url),
            },
        ),
        TapVerdict::Captured => match body {
            Ok(data) => Some(
                HostCall::ReportResult {
                    source_id: task.source_id.clone(),
                    secret_key: task.secret_key.clone(),
                    data,
                },
            ),
            Err(reason) => {
                let mut message = String::from_str(PARSE_FAULT_PREFIX);
                message.append(reason.as_str());
                Some(HostCall::Log { message })
            },
        },
    }
}

} // verus!
