use scraper_core::escape::escape_js;
use scraper_core::script::{
    SCRIPT_AFTER_PATTERN, SCRIPT_AFTER_SOURCE, SCRIPT_CLOSING, SCRIPT_FILTER, SCRIPT_OPENING,
    SCRIPT_TAP,
};
use scraper_core::tap::{
    blocked_extension_list, is_static_asset_url, judge_exchange, page_call, TapVerdict,
    PARSE_FAULT_PREFIX,
};
use scraper_core::text::{chars_of, contains_chars, lowered_chars_of, text_contains, to_ascii_lower};
use scraper_core::{
    dispatch, interception_script, push_scraper_task, Effect, HostCall, Phase, Reply, RevealPlan,
    ScrapeTask, ScraperEvent, ScraperState,
};
use serde_json::Value;

fn parsed(text: &str) -> Result<Value, String> {
    serde_json::from_str::<Value>(text).map_err(|e| e.to_string())
}

fn feed_task(source_id: &str) -> ScrapeTask {
    ScrapeTask {
        source_id: source_id.to_string(),
        url: "https://x/feed".to_string(),
        inject_script: String::new(),
        intercept_api: "https://x/feed".to_string(),
        secret_key: "key-1".to_string(),
    }
}

fn begin(state: &mut ScraperState, source_id: &str) -> Reply {
    let t = feed_task(source_id);
    push_scraper_task(state, t.source_id, t.url, t.inject_script, t.intercept_api, t.secret_key)
}

const PLAIN_SCRIPT: &str = "(function() {
    const tap = { pattern: '/api/feed', sourceId: 'source-1', secretKey: 'key-1' };

    function callHost(command, payload) {
        try {
            Promise.resolve(window.__TAURI_INTERNALS__.invoke(command, payload)).catch(function() {});
        } catch(e) {}
    }
    function logDebug(msg) {
        callHost('scraper_log', { message: String(msg) });
    }
    logDebug('Scraper initialization started');

    // Static assets are answered locally and never reach the network.
    const blockExtensions = ['.png', '.jpg', '.jpeg', '.gif', '.svg', '.webp', '.woff', '.woff2', '.ttf'];
    function isBlocked(url) {
        const lowered = String(url).toLowerCase();
        return blockExtensions.some(ext => lowered.includes(ext));
    }
    function isTarget(url) {
        return String(url).includes(tap.pattern);
    }
    function isAuthFailure(status) {
        return status === 401 || status === 403;
    }
    function reportAuth(url) {
        logDebug('Auth required triggered');
        callHost('handle_scraper_auth', { sourceId: tap.sourceId, targetUrl: String(url) });
    }
    function reportData(data) {
        logDebug('JSON parse successful, sending scraped data');
        callHost('handle_scraped_data', { sourceId: tap.sourceId, secretKey: tap.secretKey, data: data });
    }

    // Fetch tap
    const originalFetch = window.fetch;
    window.fetch = async function(...args) {
        const first = args[0];
        const reqUrl = typeof first === 'string' ? first : String((first && first.url) || first || '');

        if (isBlocked(reqUrl)) {
            return new Response('', { status: 200, statusText: 'Blocked' });
        }

        if (isTarget(reqUrl)) {
            logDebug('Matched intercept API: ' + reqUrl);
            const response = await originalFetch.apply(this, args);
            logDebug('Response received with status: ' + response.status);
            if (isAuthFailure(response.status)) {
                reportAuth(reqUrl);
            } else {
                response.clone().json().then(reportData).catch(e => {
                    logDebug('Failed to capture JSON: ' + e);
                });
            }
            return response;
        }

        return originalFetch.apply(this, args);
    };

    // XHR tap, for pages that do not use fetch
    const originalXhrOpen = XMLHttpRequest.prototype.open;
    XMLHttpRequest.prototype.open = function(method, xUrl, ...rest) {
        this._url = String(xUrl);
        this._blocked = isBlocked(this._url);
        return originalXhrOpen.call(this, method, this._blocked ? 'data:,' : xUrl, ...rest);
    };

    const originalXhrSend = XMLHttpRequest.prototype.send;
    XMLHttpRequest.prototype.send = function(body) {
        if (!this._blocked && typeof this._url === 'string' && isTarget(this._url)) {
            this.addEventListener('load', function() {
                if (isAuthFailure(this.status)) {
                    reportAuth(this._url);
                } else {
                    try {
                        reportData(JSON.parse(this.responseText));
                    } catch(e) {
                        logDebug('Failed to capture JSON: ' + e);
                    }
                }
            });
        }
        return originalXhrSend.call(this, body);
    };

    // Inserted images are replaced by a 1x1 transparent placeholder.
    const placeholder = 'data:image/gif;base64,R0lGODlhAQABAAD/ACwAAAAAAQABAAACADs=';
    const observer = new MutationObserver(mutations => {
        for (const mutation of mutations) {
            for (const node of mutation.addedNodes) {
                if (node.tagName === 'IMG') {
                    node.src = placeholder;
                } else if (node.querySelectorAll) {
                    node.querySelectorAll('img').forEach(img => img.src = placeholder);
                }
            }
        }
    });

    if (document.documentElement) {
        observer.observe(document.documentElement, { childList: true, subtree: true });
    } else {
        document.addEventListener('DOMContentLoaded', () => {
            observer.observe(document.documentElement, { childList: true, subtree: true });
        });
    }

    // Caller-supplied page logic, in a scope of its own
    try {
        logDebug('Executing user inject script');
        (function() {
            document.title = 'x';
        }).call(window);
        logDebug('User inject script executed cleanly');
    } catch(e) {
        logDebug('Inject script error: ' + String(e));
    }
})();
";

const TRICKY_SCRIPT: &str = "(function() {
    const tap = { pattern: '/api/\\'feed\\'\\\\', sourceId: 'a\\'); alert(1); (\\'', secretKey: 'k\\n\\r\\u2028\\u2029' };

    function callHost(command, payload) {
        try {
            Promise.resolve(window.__TAURI_INTERNALS__.invoke(command, payload)).catch(function() {});
        } catch(e) {}
    }
    function logDebug(msg) {
        callHost('scraper_log', { message: String(msg) });
    }
    logDebug('Scraper initialization started');

    // Static assets are answered locally and never reach the network.
    const blockExtensions = ['.png', '.jpg', '.jpeg', '.gif', '.svg', '.webp', '.woff', '.woff2', '.ttf'];
    function isBlocked(url) {
        const lowered = String(url).toLowerCase();
        return blockExtensions.some(ext => lowered.includes(ext));
    }
    function isTarget(url) {
        return String(url).includes(tap.pattern);
    }
    function isAuthFailure(status) {
        return status === 401 || status === 403;
    }
    function reportAuth(url) {
        logDebug('Auth required triggered');
        callHost('handle_scraper_auth', { sourceId: tap.sourceId, targetUrl: String(url) });
    }
    function reportData(data) {
        logDebug('JSON parse successful, sending scraped data');
        callHost('handle_scraped_data', { sourceId: tap.sourceId, secretKey: tap.secretKey, data: data });
    }

    // Fetch tap
    const originalFetch = window.fetch;
    window.fetch = async function(...args) {
        const first = args[0];
        const reqUrl = typeof first === 'string' ? first : String((first && first.url) || first || '');

        if (isBlocked(reqUrl)) {
            return new Response('', { status: 200, statusText: 'Blocked' });
        }

        if (isTarget(reqUrl)) {
            logDebug('Matched intercept API: ' + reqUrl);
            const response = await originalFetch.apply(this, args);
            logDebug('Response received with status: ' + response.status);
            if (isAuthFailure(response.status)) {
                reportAuth(reqUrl);
            } else {
                response.clone().json().then(reportData).catch(e => {
                    logDebug('Failed to capture JSON: ' + e);
                });
            }
            return response;
        }

        return originalFetch.apply(this, args);
    };

    // XHR tap, for pages that do not use fetch
    const originalXhrOpen = XMLHttpRequest.prototype.open;
    XMLHttpRequest.prototype.open = function(method, xUrl, ...rest) {
        this._url = String(xUrl);
        this._blocked = isBlocked(this._url);
        return originalXhrOpen.call(this, method, this._blocked ? 'data:,' : xUrl, ...rest);
    };

    const originalXhrSend = XMLHttpRequest.prototype.send;
    XMLHttpRequest.prototype.send = function(body) {
        if (!this._blocked && typeof this._url === 'string' && isTarget(this._url)) {
            this.addEventListener('load', function() {
                if (isAuthFailure(this.status)) {
                    reportAuth(this._url);
                } else {
                    try {
                        reportData(JSON.parse(this.responseText));
                    } catch(e) {
                        logDebug('Failed to capture JSON: ' + e);
                    }
                }
            });
        }
        return originalXhrSend.call(this, body);
    };

    // Inserted images are replaced by a 1x1 transparent placeholder.
    const placeholder = 'data:image/gif;base64,R0lGODlhAQABAAD/ACwAAAAAAQABAAACADs=';
    const observer = new MutationObserver(mutations => {
        for (const mutation of mutations) {
            for (const node of mutation.addedNodes) {
                if (node.tagName === 'IMG') {
                    node.src = placeholder;
                } else if (node.querySelectorAll) {
                    node.querySelectorAll('img').forEach(img => img.src = placeholder);
                }
            }
        }
    });

    if (document.documentElement) {
        observer.observe(document.documentElement, { childList: true, subtree: true });
    } else {
        document.addEventListener('DOMContentLoaded', () => {
            observer.observe(document.documentElement, { childList: true, subtree: true });
        });
    }

    // Caller-supplied page logic, in a scope of its own
    try {
        logDebug('Executing user inject script');
        (function() {
            throw new Error(\"boom\");
        }).call(window);
        logDebug('User inject script executed cleanly');
    } catch(e) {
        logDebug('Inject script error: ' + String(e));
    }
})();
";

#[test]
fn script_for_plain_values_is_the_fixed_text_with_the_values_in_place() {
    let task = ScrapeTask {
        source_id: "source-1".to_string(),
        url: "https://x/feed".to_string(),
        inject_script: "document.title = 'x';".to_string(),
        intercept_api: "/api/feed".to_string(),
        secret_key: "key-1".to_string(),
    };
    assert_eq!(interception_script(&task), PLAIN_SCRIPT);
}

#[test]
fn script_escapes_the_three_literals_and_not_the_page_logic() {
    let task = ScrapeTask {
        source_id: "a'); alert(1); ('".to_string(),
        url: "https://x/feed".to_string(),
        inject_script: "throw new Error(\"boom\");".to_string(),
        intercept_api: "/api/'feed'\\".to_string(),
        secret_key: "k\n\r\u{2028}\u{2029}".to_string(),
    };
    assert_eq!(interception_script(&task), TRICKY_SCRIPT);
}

#[test]
fn script_is_its_fixed_parts_around_the_values_and_the_list() {
    let task = feed_task("b");
    let expected = format!(
        "{}{}{}{}{}{}{}{}{}{}{}",
        SCRIPT_OPENING,
        "https://x/feed",
        SCRIPT_AFTER_PATTERN,
        "b",
        SCRIPT_AFTER_SOURCE,
        "key-1",
        SCRIPT_FILTER,
        "'.png', '.jpg', '.jpeg', '.gif', '.svg', '.webp', '.woff', '.woff2', '.ttf'",
        SCRIPT_TAP,
        "",
        SCRIPT_CLOSING
    );
    assert_eq!(interception_script(&task), expected);
    assert!(SCRIPT_OPENING.starts_with("(function() {"));
    assert!(SCRIPT_FILTER.ends_with("const blockExtensions = ["));
    assert!(SCRIPT_TAP.starts_with("];"));
    assert!(SCRIPT_CLOSING.ends_with("})();\n"));
}

#[test]
fn script_does_not_depend_on_the_url() {
    let mut other = feed_task("b");
    other.url = "https://elsewhere/".to_string();
    assert_eq!(interception_script(&other), interception_script(&feed_task("b")));
}

#[test]
fn script_lists_the_extensions_that_the_tap_rules_block() {
    assert_eq!(
        blocked_extension_list(),
        vec![".png", ".jpg", ".jpeg", ".gif", ".svg", ".webp", ".woff", ".woff2", ".ttf"]
    );
    let script = interception_script(&feed_task("a"));
    for ext in blocked_extension_list() {
        assert!(script.contains(&format!("'{}'", ext)), "{}", ext);
        assert!(is_static_asset_url(&format!("https://x/a{}", ext)), "{}", ext);
    }
    assert!(SCRIPT_TAP.contains("status === 401 || status === 403"));
    assert!(SCRIPT_TAP.contains(&format!("logDebug('{}' + e)", PARSE_FAULT_PREFIX)));
}

#[test]
fn escape_leaves_plain_text_alone() {
    for text in ["", "source-1", "https://x/feed?a=b&c=d", "\"double\" `back` ${x} </script>", "h\u{e9}llo \u{1f600}", "tab\there"] {
        assert_eq!(escape_js(text), text);
    }
}

#[test]
fn escape_writes_each_special_character_as_its_escape() {
    assert_eq!(escape_js("\\"), "\\\\");
    assert_eq!(escape_js("'"), "\\'");
    assert_eq!(escape_js("\n"), "\\n");
    assert_eq!(escape_js("\r"), "\\r");
    assert_eq!(escape_js("\u{2028}"), "\\u2028");
    assert_eq!(escape_js("\u{2029}"), "\\u2029");
    assert_eq!(escape_js("\0"), "\\x00");
    assert_eq!(escape_js("a\u{0}1"), "a\\x001");
    assert_eq!(escape_js("a'b\\c\nd"), "a\\'b\\\\c\\nd");
    assert_eq!(escape_js("''"), "\\'\\'");
    assert_eq!(escape_js("\\'"), "\\\\\\'");
}

#[test]
fn escaped_text_holds_no_bare_quote_or_line_end() {
    let escaped = escape_js("x' + alert(1) + '\n\r\u{2028}\u{2029}\0\\");
    let chars: Vec<char> = escaped.chars().collect();
    let mut i = 0;
    while i < chars.len() {
        if chars[i] == '\\' {
            i += 2;
        } else {
            assert!(!['\'', '\n', '\r', '\u{2028}', '\u{2029}', '\0'].contains(&chars[i]));
            i += 1;
        }
    }
    assert_eq!(i, chars.len());
}

#[test]
fn text_helpers_work_by_characters() {
    assert_eq!(chars_of("h\u{e9}!"), vec!['h', '\u{e9}', '!']);
    assert_eq!(chars_of(""), Vec::<char>::new());
    assert_eq!(lowered_chars_of("AbZ.\u{c9}[@"), vec!['a', 'b', 'z', '.', '\u{c9}', '[', '@']);
    assert_eq!(to_ascii_lower('A'), 'a');
    assert_eq!(to_ascii_lower('Z'), 'z');
    assert_eq!(to_ascii_lower('a'), 'a');
    assert_eq!(to_ascii_lower('@'), '@');
    assert_eq!(to_ascii_lower('['), '[');
    assert_eq!(to_ascii_lower('\u{130}'), '\u{130}');
}

#[test]
fn text_contains_finds_parts_anywhere() {
    assert!(text_contains("https://x/feed", "/feed"));
    assert!(text_contains("https://x/feed", "https"));
    assert!(text_contains("https://x/feed", "x"));
    assert!(text_contains("https://x/feed", "https://x/feed"));
    assert!(text_contains("https://x/feed", ""));
    assert!(text_contains("", ""));
    assert!(!text_contains("", "a"));
    assert!(!text_contains("https://x/feed", "/feeds"));
    assert!(!text_contains("https://x/feed", "FEED"));
    assert!(!text_contains("abc", "abcd"));
    assert!(text_contains("aab", "ab"));
    assert!(text_contains("caf\u{e9}/feed", "\u{e9}/f"));
    assert!(contains_chars(&vec!['a', 'b', 'c'], &vec!['b', 'c']));
    assert!(!contains_chars(&vec!['a', 'b', 'c'], &vec!['c', 'b']));
}

#[test]
fn static_assets_are_known_by_extension_in_any_case() {
    assert!(is_static_asset_url("https://x/logo.png"));
    assert!(is_static_asset_url("https://x/LOGO.PNG"));
    assert!(is_static_asset_url("https://x/a.Jpeg?x=1"));
    assert!(is_static_asset_url("https://x/font.woff2"));
    assert!(is_static_asset_url("https://x/.svg/feed"));
    assert!(!is_static_asset_url("https://x/feed"));
    assert!(!is_static_asset_url("https://x/logo.pn"));
    assert!(!is_static_asset_url("https://x/png"));
    assert!(!is_static_asset_url("https://x/a.g\u{130}f"));
    assert!(!is_static_asset_url(""));
}

#[test]
fn verdict_follows_suppression_then_pattern_then_status() {
    assert_eq!(judge_exchange("https://x/feed", "/feed", 200), TapVerdict::Captured);
    assert_eq!(judge_exchange("https://x/feed", "/feed", 500), TapVerdict::Captured);
    assert_eq!(judge_exchange("https://x/feed", "/feed", 404), TapVerdict::Captured);
    assert_eq!(judge_exchange("https://x/feed", "/feed", 401), TapVerdict::AuthRequired);
    assert_eq!(judge_exchange("https://x/feed", "/feed", 403), TapVerdict::AuthRequired);
    assert_eq!(judge_exchange("https://x/feed", "/feed", 402), TapVerdict::Captured);
    assert_eq!(judge_exchange("https://x/other", "/feed", 200), TapVerdict::PassedThrough);
    assert_eq!(judge_exchange("https://x/other", "/feed", 403), TapVerdict::PassedThrough);
    assert_eq!(judge_exchange("https://x/feed/logo.png", "/feed", 200), TapVerdict::Suppressed);
    assert_eq!(judge_exchange("https://x/feed/logo.png", "/feed", 403), TapVerdict::Suppressed);
    assert_eq!(judge_exchange("https://x/anything", "", 200), TapVerdict::Captured);
}

#[test]
fn auth_failure_yields_auth_required_and_a_visible_session() {
    let mut state = ScraperState::new();
    assert_eq!(begin(&mut state, "a").status, Ok(()));
    let call = page_call(&feed_task("a"), "https://x/feed", 403, parsed("denied"));
    assert_eq!(
        call,
        Some(HostCall::ReportAuthRequired {
            source_id: "a".to_string(),
            target_url: "https://x/feed".to_string()
        })
    );
    let reply = dispatch(&mut state, call.unwrap());
    assert_eq!(
        reply.effects,
        vec![
            Effect::Publish(ScraperEvent::AuthRequired {
                source_id: "a".to_string(),
                target_url: "https://x/feed".to_string()
            }),
            Effect::RevealSurface(RevealPlan {
                decorated: true,
                width: 800,
                height: 600,
                centered: true,
                focused: true
            }),
        ]
    );
    assert!(state.session().unwrap().revealed());
    assert_eq!(state.phase(), Phase::AuthRequired);
}

#[test]
fn json_reply_yields_one_result_and_the_session_is_destroyed() {
    let mut state = ScraperState::new();
    assert_eq!(begin(&mut state, "b").status, Ok(()));
    let by_fetch = page_call(&feed_task("b"), "https://x/feed", 200, parsed("{\"ok\":true}"));
    let by_xhr = page_call(&feed_task("b"), "https://x/feed", 200, parsed("{\"ok\":true}"));
    let mut ok = serde_json::Map::new();
    ok.insert("ok".to_string(), Value::Bool(true));
    assert_eq!(
        by_fetch,
        Some(HostCall::ReportResult {
            source_id: "b".to_string(),
            secret_key: "key-1".to_string(),
            data: Value::Object(ok.clone())
        })
    );
    let mut effects = dispatch(&mut state, by_fetch.unwrap()).effects;
    effects.extend(dispatch(&mut state, by_xhr.unwrap()).effects);
    assert_eq!(
        effects,
        vec![
            Effect::Publish(ScraperEvent::Result {
                source_id: "b".to_string(),
                secret_key: "key-1".to_string(),
                data: Value::Object(ok)
            }),
            Effect::CloseSurface,
        ]
    );
    assert_eq!(state.session(), None);
    assert_eq!(state.phase(), Phase::Closed);
}

#[test]
fn image_request_is_never_captured_and_never_fetched() {
    let mut state = ScraperState::new();
    let mut task = feed_task("a");
    task.intercept_api = "https://x/".to_string();
    begin(&mut state, "a");
    for status in [200u16, 401, 403, 500] {
        assert_eq!(judge_exchange("https://x/logo.png", "https://x/", status), TapVerdict::Suppressed);
        assert_eq!(page_call(&task, "https://x/logo.png", status, parsed("{\"ok\":true}")), None);
        assert_eq!(page_call(&task, "https://x/logo.png", status, parsed("<png>")), None);
    }
    assert!(!state.is_handled(&"a".to_string()));
    assert_eq!(state.phase(), Phase::Observing);
}

#[test]
fn unmatched_request_is_not_reported() {
    let task = feed_task("a");
    assert_eq!(page_call(&task, "https://x/other", 200, parsed("{}")), None);
    assert_eq!(page_call(&task, "https://x/other", 403, parsed("{}")), None);
}

#[test]
fn body_that_is_no_json_is_logged_and_not_delivered() {
    let mut state = ScraperState::new();
    begin(&mut state, "a");
    let call = page_call(&feed_task("a"), "https://x/feed", 200, Err("unexpected token".to_string()));
    assert_eq!(
        call,
        Some(HostCall::Log { message: "Failed to capture JSON: unexpected token".to_string() })
    );
    let reply = dispatch(&mut state, call.unwrap());
    assert_eq!(
        reply,
        Reply {
            status: Ok(()),
            effects: vec![Effect::Log(
                "[Scraper JS Debug] Failed to capture JSON: unexpected token".to_string()
            )]
        }
    );
    assert!(!state.is_handled(&"a".to_string()));
    assert_eq!(state.phase(), Phase::Observing);
    let later = page_call(&feed_task("a"), "https://x/feed", 200, parsed("[1]"));
    assert_eq!(dispatch(&mut state, later.unwrap()).effects.len(), 2);
}

#[test]
fn auth_failure_does_not_read_the_body() {
    let task = feed_task("a");
    let with_json = page_call(&task, "https://x/feed", 401, parsed("{\"error\":1}"));
    let without = page_call(&task, "https://x/feed", 401, parsed("<html>"));
    assert_eq!(with_json, without);
    assert!(matches!(with_json, Some(HostCall::ReportAuthRequired { .. })));
}
