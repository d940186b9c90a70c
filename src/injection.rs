//! Composition of the script injected into a page: the API shim, then every
//! stylesheet as a style element, then every content script in its own scope.

use vstd::prelude::*;
use crate::text::{chars_of, string_of};

verus! {

/// The text that stands for character `i` of `s` once it is embedded in a
/// template literal: a backslash and a backtick get a backslash before them,
/// and so does a `$` that opens `${`.
pub open spec fn escaped_char(s: Seq<char>, i: int) -> Seq<char> {
    if s[i] == '\\' {
        seq!['\\', '\\']
    } else if s[i] == '`' {
        seq!['\\', '`']
    } else if s[i] == '$' && i + 1 < s.len() && s[i + 1] == '{' {
        seq!['\\', '$']
    } else {
        seq![s[i]]
    }
}

/// The escaped form of the first `n` characters of `s`.
pub open spec fn escaped_prefix(s: Seq<char>, n: nat) -> Seq<char>
    decreases n,
{
    if n == 0 {
        Seq::empty()
    } else {
        escaped_prefix(s, (n - 1) as nat) + escaped_char(s, n - 1)
    }
}

/// `s` with `\` turned into `\\`, then `` ` `` into `` \` ``, then `${` into `\${`.
pub open spec fn escape_spec(s: Seq<char>) -> Seq<char> {
    escaped_prefix(s, s.len())
}

/// Escapes stylesheet text for a template literal.
pub fn escape_template_literal(text: &str) -> (r: String)
    ensures
        r@ == escape_spec(text@),
{
    let s = chars_of(text);
    let mut out: Vec<char> = Vec::new();
    let mut i: usize = 0;
    while i < s.len()
        invariant
            i <= s@.len(),
            out@ == escaped_prefix(s@, i as nat),
        decreases s@.len() - i,
    {
        let c = s[i];
        if c == '\\' {
            out.push('\\');
            out.push('\\');
        } else if c == '`' {
            out.push('\\');
            out.push('`');
        } else if c == '$' && i + 1 < s.len() && s[i + 1] == '{' {
            out.push('\\');
            out.push('$');
        } else {
            out.push(c);
        }
        proof {
            assert(out@ =~= escaped_prefix(s@, i as nat) + escaped_char(s@, i as int));
        }
        i = i + 1;
    }
    string_of(&out)
}

/// The statement that adds one stylesheet to the page.
pub open spec fn style_statement(escaped_css: Seq<char>) -> Seq<char> {
    "(function() { var s = document.createElement('style'); s.textContent = `"@ + escaped_css
        + "`; document.head.appendChild(s); })();\n"@
}

/// One content script, labelled with its extension and run in its own scope.
pub open spec fn script_statement(name: Seq<char>, id: Seq<char>, js: Seq<char>) -> Seq<char> {
    "// Extension: "@ + name + " ("@ + id + ")\n(function() {\n"@ + js + "\n})();\n"@
}

pub fn push_style_statement(script: &mut String, css: &str)
    ensures
        final(script)@ == old(script)@ + style_statement(escape_spec(css@)),
{
    let escaped = escape_template_literal(css);
    script.append("(function() { var s = document.createElement('style'); s.textContent = `");
    script.append(escaped.as_str());
    script.append("`; document.head.appendChild(s); })();\n");
}

pub fn push_script_statement(script: &mut String, name: &str, id: &str, js: &str)
    ensures
        final(script)@ == old(script)@ + script_statement(name@, id@, js@),
{
    script.append("// Extension: ");
    script.append(name);
    script.append(" (");
    script.append(id);
    script.append(")\n(function() {\n");
    script.append(js);
    script.append("\n})();\n");
}

/// Script run before any content script: provides `chrome.runtime` and
/// `chrome.storage.local` (mirrored to `browser.*`), the storage calls going
/// to `servo:ext-api/*` routes.
pub const CHROME_API_POLYFILL: &'static str = r#"
(function() {
    if (window.chrome && window.chrome.runtime) return;

    window.chrome = window.chrome || {};
    window.browser = window.browser || {};

    chrome.runtime = {
        id: 'servo-extension',
        getURL: function(path) {
            return 'servo:ext-res/' + path;
        },
        sendMessage: function(msg, callback) {
            if (callback) callback(undefined);
        },
        onMessage: {
            addListener: function() {},
            removeListener: function() {},
        },
    };

    chrome.storage = {
        local: {
            get: function(keys, callback) {
                var keyList = typeof keys === 'string' ? [keys] : (Array.isArray(keys) ? keys : Object.keys(keys || {}));
                var url = 'servo:ext-api/storage/get?keys=' + encodeURIComponent(keyList.join(','));
                fetch(url)
                .then(function(r) { return r.json(); })
                .then(function(data) { if (callback) callback(data); })
                .catch(function() { if (callback) callback({}); });
            },
            set: function(items, callback) {
                var promises = Object.keys(items).map(function(key) {
                    return fetch('servo:ext-api/storage/set?key=' + encodeURIComponent(key) + '&value=' + encodeURIComponent(JSON.stringify(items[key])));
                });
                Promise.all(promises)
                .then(function() { if (callback) callback(); })
                .catch(function() { if (callback) callback(); });
            },
            remove: function(keys, callback) {
                var keyList = typeof keys === 'string' ? [keys] : keys;
                fetch('servo:ext-api/storage/remove?keys=' + encodeURIComponent(keyList.join(',')))
                .then(function() { if (callback) callback(); })
                .catch(function() { if (callback) callback(); });
            },
            clear: function(callback) {
                fetch('servo:ext-api/storage/clear')
                .then(function() { if (callback) callback(); })
                .catch(function() { if (callback) callback(); });
            },
            onChanged: {
                addListener: function() {},
                removeListener: function() {},
            },
        },
    };

    // Mirror to browser.* for WebExtension compatibility.
    browser.runtime = chrome.runtime;
    browser.storage = chrome.storage;
})();
"#;

} // verus!
