//! The page-side interception script: a fixed text with five places. Three
//! take escaped literals, one the list of blocked extensions, and one the
//! caller's page logic.

use crate::escape::{escape_js, escape_text};
use crate::tap::{blocked_extension_list, blocked_extensions, texts_of};
use vstd::prelude::*;

verus! {

/// One scrape task, as its caller describes it.
#[derive(Debug, PartialEq)]
pub struct ScrapeTask {
    /// Caller-assigned identity of the source; results are de-duplicated by it.
    pub source_id: String,
    /// Page to load.
    pub url: String,
    /// Page logic of the caller, run once the taps are installed.
    pub inject_script: String,
    /// Requests whose URL contains this text are captured.
    pub intercept_api: String,
    /// Token handed back with the result, unread.
    pub secret_key: String,
}

/// The mathematical value of a [`ScrapeTask`].
pub struct TaskModel {
    pub source_id: Seq<char>,
    pub url: Seq<char>,
    pub inject_script: Seq<char>,
    pub intercept_api: Seq<char>,
    pub secret_key: Seq<char>,
}

impl View for ScrapeTask {
    type V = TaskModel;

    open spec fn view(&self) -> TaskModel {
        TaskModel {
            source_id: self.source_id@,
            url: self.url@,
            inject_script: self.inject_script@,
            intercept_api: self.intercept_api@,
            secret_key: self.secret_key@,
        }
    }
}

/// The script up to the opening quote of the intercept pattern.
pub const SCRIPT_OPENING: &'static str = "(function() {
    const tap = { pattern: '";

/// Closes the pattern literal and opens the source id literal.
pub const SCRIPT_AFTER_PATTERN: &'static str = "', sourceId: '";

/// Closes the source id literal and opens the secret key literal.
pub const SCRIPT_AFTER_SOURCE: &'static str = "', secretKey: '";

/// Closes the secret key literal, sets up the channel to the host, and
/// opens the list of extensions that the asset filter blocks.
pub const SCRIPT_FILTER: &'static str = "' };

    function callHost(command, payload) {
        try {
            Promise.resolve(window.__TAURI_INTERNALS__.invoke(command, payload)).catch(function() {});
        } catch(e) {}
    }
    function logDebug(msg) {
        callHost('scraper_log', { message: String(msg) });
    }
    logDebug('Scraper initialization started');

    // Static assets are answered locally and never reach the network.
    const blockExtensions = [";

/// Closes the list of extensions; installs the asset filter, the fetch and
/// XHR taps and the image observer; opens the guarded scope of the caller's
/// page logic, which runs in a function of its own.
pub const SCRIPT_TAP: &'static str = "];
    function isBlocked(url) {
        const lowered = String(url).toLowerCase();
        return blockExtensions.some(ext => lowered.includes(ext));
    }
    function isTarget(url) {
        return String(url).includes(tap.pattern);
    }
    function isAuthFailure(status) {
        return status === 401 || status === 403;
    }
    function reportAuth(url) {
        logDebug('Auth required triggered');
        callHost('handle_scraper_auth', { sourceId: tap.sourceId, targetUrl: String(url) });
    }
    function reportData(data) {
        logDebug('JSON parse successful, sending scraped data');
        callHost('handle_scraped_data', { sourceId: tap.sourceId, secretKey: tap.secretKey, data: data });
    }

    // Fetch tap
    const originalFetch = window.fetch;
    window.fetch = async function(...args) {
        const first = args[0];
        const reqUrl = typeof first === 'string' ? first : String((first && first.url) || first || '');

        if (isBlocked(reqUrl)) {
            return new Response('', { status: 200, statusText: 'Blocked' });
        }

        if (isTarget(reqUrl)) {
            logDebug('Matched intercept API: ' + reqUrl);
            const response = await originalFetch.apply(this, args);
            logDebug('Response received with status: ' + response.status);
            if (isAuthFailure(response.status)) {
                reportAuth(reqUrl);
            } else {
                response.clone().json().then(reportData).catch(e => {
                    logDebug('Failed to capture JSON: ' + e);
                });
            }
            return response;
        }

        return originalFetch.apply(this, args);
    };

    // XHR tap, for pages that do not use fetch
    const originalXhrOpen = XMLHttpRequest.prototype.open;
    XMLHttpRequest.prototype.open = function(method, xUrl, ...rest) {
        this._url = String(xUrl);
        this._blocked = isBlocked(this._url);
        return originalXhrOpen.call(this, method, this._blocked ? 'data:,' : xUrl, ...rest);
    };

    const originalXhrSend = XMLHttpRequest.prototype.send;
    XMLHttpRequest.prototype.send = function(body) {
        if (!this._blocked && typeof this._url === 'string' && isTarget(this._url)) {
            this.addEventListener('load', function() {
                if (isAuthFailure(this.status)) {
                    reportAuth(this._url);
                } else {
                    try {
                        reportData(JSON.parse(this.responseText));
                    } catch(e) {
                        logDebug('Failed to capture JSON: ' + e);
                    }
                }
            });
        }
        return originalXhrSend.call(this, body);
    };

    // Inserted images are replaced by a 1x1 transparent placeholder.
    const placeholder = 'data:image/gif;base64,R0lGODlhAQABAAD/ACwAAAAAAQABAAACADs=';
    const observer = new MutationObserver(mutations => {
        for (const mutation of mutations) {
            for (const node of mutation.addedNodes) {
                if (node.tagName === 'IMG') {
                    node.src = placeholder;
                } else if (node.querySelectorAll) {
                    node.querySelectorAll('img').forEach(img => img.src = placeholder);
                }
            }
        }
    });

    if (document.documentElement) {
        observer.observe(document.documentElement, { childList: true, subtree: true });
    } else {
        document.addEventListener('DOMContentLoaded', () => {
            observer.observe(document.documentElement, { childList: true, subtree: true });
        });
    }

    // Caller-supplied page logic, in a scope of its own
    try {
        logDebug('Executing user inject script');
        (function() {
            ";

/// Closes the guarded scope and the script.
pub const SCRIPT_CLOSING: &'static str = "
        }).call(window);
        logDebug('User inject script executed cleanly');
    } catch(e) {
        logDebug('Inject script error: ' + String(e));
    }
})();
";

/// A text as a single-quoted literal.
pub open spec fn quoted(text: Seq<char>) -> Seq<char> {
    seq!['\''] + escape_text(text) + seq!['\'']
}

/// Texts as single-quoted literals, separated by a comma and a blank.
pub open spec fn quoted_list(items: Seq<Seq<char>>) -> Seq<char>
    decreases items.len(),
{
    if items.len() == 0 {
        Seq::empty()
    } else if items.len() == 1 {
        quoted(items[0])
    } else {
        quoted_list(items.drop_last()) + seq![',', ' '] + quoted(items.last())
    }
}

/// The interception script for a task: the fixed text, with the pattern, the
/// source id and the secret key escaped into their literals, the blocked
/// extensions listed, and the caller's page logic placed as it is.
pub open spec fn script_text(task: TaskModel) -> Seq<char> {
    SCRIPT_OPENING@ + escape_text(task.intercept_api) + SCRIPT_AFTER_PATTERN@ + escape_text(
        task.source_id,
    ) + SCRIPT_AFTER_SOURCE@ + escape_text(task.secret_key) + SCRIPT_FILTER@ + quoted_list(
        blocked_extensions(),
    ) + SCRIPT_TAP@ + task.inject_script + SCRIPT_CLOSING@
}

/// Writes `items` as single-quoted literals, separated by a comma and a
/// blank.
fn write_quoted_list(script: &mut String, items: &Vec<&'static str>)
    ensures
        final(script)@ == old(script)@ + quoted_list(texts_of(items@)),
{
    let ghost start = script@;
    let mut k: usize = 0;
    while k < items.len()
        invariant
            k <= items@.len(),
            script@ == start + quoted_list(texts_of(items@).take(k as int)),
        decreases items@.len() - k,
    {
        let ghost listed = texts_of(items@).take(k as int);
        let ghost before = script@;
        if k > 0 {
            script.push(',');
            script.push(' ');
        }
        script.push('\'');
        let escaped = escape_js(items[k]);
        script.append(escaped.as_str());
        script.push('\'');
        proof {
            let longer = texts_of(items@).take(k + 1);
            assert(longer.drop_last() =~= listed);
            assert(longer.last() == items@[k as int]@);
            assert(script@ =~= start + quoted_list(longer));
        }
        k += 1;
    }
    assert(texts_of(items@).take(items@.len() as int) =~= texts_of(items@));
}

/// Builds the interception script for `task`.
pub fn interception_script(task: &ScrapeTask) -> (script: String)
    ensures
        script@ == script_text(task@),
{
    let mut script = String::from_str(SCRIPT_OPENING);
    let pattern = escape_js(task.intercept_api.as_str());
    script.append(pattern.as_str());
    script.append(SCRIPT_AFTER_PATTERN);
    let source = escape_js(task.source_id.as_str());
    script.append(source.as_str());
    script.append(SCRIPT_AFTER_SOURCE);
    let secret = escape_js(task.secret_key.as_str());
    script.append(secret.as_str());
    script.append(SCRIPT_FILTER);
    let extensions = blocked_extension_list();
    write_quoted_list(&mut script, &extensions);
    script.append(SCRIPT_TAP);
    script.append(task.inject_script.as_str());
    script.append(SCRIPT_CLOSING);
    script
}

} // verus!
