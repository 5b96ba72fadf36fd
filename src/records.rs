use vstd::prelude::*;

verus! {

/// Most error-log entries kept on disk; older ones are dropped first.
pub const MAX_ERROR_LOGS: usize = 100;

/// Outcome of minting one short link.
pub struct UrlLinkResult {
    pub path: String,
    pub query: String,
    pub link: String,
    pub err_msg: String,
}

/// One configured mini-program application and its credentials.
pub struct MiniAppConfig {
    pub id: String,
    pub name: String,
    pub appid: String,
    pub secret: String,
    pub created_at: u64,
}

/// The persisted settings: the configured applications and the default one.
pub struct AppSettings {
    pub mini_apps: Vec<MiniAppConfig>,
    pub default_app_id: Option<String>,
}

/// A page and query string to mint a short link for.
pub struct ShortLinkItem {
    pub path: String,
    pub query: String,
}

/// One recorded error.
pub struct ErrorLogEntry {
    pub timestamp: String,
    pub level: String,
    pub message: String,
    pub stack_trace: Option<String>,
    pub source: String,
}

impl AppSettings {
    /// The settings used when none were saved yet: no applications, no default.
    pub fn empty() -> (r: AppSettings)
        ensures
            r.mini_apps@.len() == 0,
            r.default_app_id is None,
    {
        AppSettings { mini_apps: Vec::new(), default_app_id: None }
    }
}

/// The result for `item` from the fields of the endpoint's answer: the link,
/// or the empty string when none was given, and the error message, or `"ok"`
/// when none was given.
pub fn link_result(item: ShortLinkItem, url_link: Option<String>, err_msg: Option<String>) -> (r:
    UrlLinkResult)
    ensures
        r.path == item.path,
        r.query == item.query,
        url_link is Some ==> r.link == url_link->0,
        url_link is None ==> r.link@ == Seq::<char>::empty(),
        err_msg is Some ==> r.err_msg == err_msg->0,
        err_msg is None ==> r.err_msg@ == "ok"@,
{
    let link = match url_link {
        Some(l) => l,
        None => String::new(),
    };
    let err_msg = match err_msg {
        Some(m) => m,
        None => "ok".to_string(),
    };
    UrlLinkResult { path: item.path, query: item.query, link, err_msg }
}

/// The last `MAX_ERROR_LOGS` elements of `s` (all of them when fewer).
pub open spec fn most_recent<T>(s: Seq<T>) -> Seq<T> {
    if s.len() > MAX_ERROR_LOGS {
        s.subrange(s.len() - MAX_ERROR_LOGS, s.len() as int)
    } else {
        s
    }
}

/// Appends `entry` to `logs` and keeps only the `MAX_ERROR_LOGS` most recent.
pub fn record_error(logs: Vec<ErrorLogEntry>, entry: ErrorLogEntry) -> (r: Vec<ErrorLogEntry>)
    requires
        logs@.len() < usize::MAX,
    ensures
        r@ == most_recent(logs@.push(entry)),
{
    let mut logs = logs;
    logs.push(entry);
    if logs.len() > MAX_ERROR_LOGS {
        let keep_from = logs.len() - MAX_ERROR_LOGS;
        logs.split_off(keep_from)
    } else {
        logs
    }
}

} // verus!
