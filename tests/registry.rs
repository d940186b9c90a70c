use servoshell::manifest::{declared_files, default_run_at, ContentScriptEntry, ExtensionManifest};
use servoshell::match_pattern::PageUrl;
use servoshell::registry::{ExtensionManager, FileRead, ScannedExtension};
use servoshell::injection::{escape_template_literal, CHROME_API_POLYFILL};

fn rule(matches: &[&str], js: &[&str], css: &[&str]) -> ContentScriptEntry {
    ContentScriptEntry {
        matches: matches.iter().map(|s| s.to_string()).collect(),
        js: js.iter().map(|s| s.to_string()).collect(),
        css: css.iter().map(|s| s.to_string()).collect(),
        run_at: default_run_at(),
    }
}

fn manifest(name: &str, rules: Vec<ContentScriptEntry>) -> ExtensionManifest {
    ExtensionManifest {
        manifest_version: 3,
        name: name.to_string(),
        version: "1.0".to_string(),
        description: String::new(),
        permissions: Vec::new(),
        content_scripts: rules,
        action: None,
        background: None,
    }
}

fn read(path: &str, contents: Option<&str>) -> FileRead {
    FileRead { path: path.to_string(), contents: contents.map(|c| c.to_string()) }
}

fn scanned(id: &str, m: ExtensionManifest, js: Vec<FileRead>, css: Vec<FileRead>, enabled: bool) -> ScannedExtension {
    ScannedExtension {
        id: id.to_string(),
        base_path: format!("/ext/{}", id),
        manifest: m,
        js_reads: js,
        css_reads: css,
        enabled,
    }
}

fn url(s: &str) -> PageUrl {
    PageUrl::parse(s).unwrap()
}

fn two_hosts() -> ExtensionManager {
    let mut mgr = ExtensionManager::new("/ext".to_string());
    mgr.load_all(vec![
        scanned(
            "ext_a",
            manifest("Alpha", vec![rule(&["*://a.test/*"], &["a.js"], &["a.css"])]),
            vec![read("a.js", Some("alpha_js();"))],
            vec![read("a.css", Some("body{color:red}"))],
            true,
        ),
        scanned(
            "ext_b",
            manifest("Beta", vec![rule(&["*://b.test/*"], &["b.js"], &["b.css"])]),
            vec![read("b.js", Some("beta_js();"))],
            vec![read("b.css", Some("p{margin:0}"))],
            true,
        ),
    ]);
    mgr
}

#[test]
fn script_for_host_includes_only_matching_extension() {
    let mgr = two_hosts();
    let script = mgr.build_injection_script(&url("https://a.test/page")).unwrap();
    assert!(script.starts_with(CHROME_API_POLYFILL));
    assert!(script.contains("alpha_js();"));
    assert!(script.contains("body{color:red}"));
    assert!(script.contains("// Extension: Alpha (ext_a)"));
    assert!(!script.contains("beta_js();"));
    assert!(!script.contains("p{margin:0}"));
}

#[test]
fn no_match_gives_no_script() {
    let mgr = two_hosts();
    assert!(mgr.build_injection_script(&url("https://c.test/")).is_none());
    assert!(mgr.get_content_scripts_for_url(&url("https://c.test/")).is_empty());
}

#[test]
fn disabling_removes_extension_without_reload() {
    let mut mgr = two_hosts();
    assert!(mgr.build_injection_script(&url("https://a.test/")).is_some());
    mgr.set_enabled("ext_a", false);
    assert!(mgr.build_injection_script(&url("https://a.test/")).is_none());
    assert_eq!(mgr.enabled_count(), 1);
    mgr.set_enabled("ext_a", true);
    assert!(mgr.build_injection_script(&url("https://a.test/")).is_some());
    assert_eq!(mgr.enabled_count(), 2);
}

#[test]
fn disabling_one_of_two_matches_keeps_the_other() {
    let mut mgr = ExtensionManager::new("/ext".to_string());
    mgr.load_all(vec![
        scanned("one", manifest("One", vec![rule(&["<all_urls>"], &["1.js"], &[])]), vec![read("1.js", Some("first();"))], vec![], true),
        scanned("two", manifest("Two", vec![rule(&["<all_urls>"], &["2.js"], &[])]), vec![read("2.js", Some("second();"))], vec![], true),
    ]);
    mgr.set_enabled("one", false);
    let script = mgr.build_injection_script(&url("https://x.test/")).unwrap();
    assert!(!script.contains("first();"));
    assert!(script.contains("second();"));
}

#[test]
fn css_comes_before_js_whatever_the_rule_order() {
    let mut mgr = ExtensionManager::new("/ext".to_string());
    mgr.load_all(vec![scanned(
        "mix",
        manifest("Mix", vec![rule(&["<all_urls>"], &["only.js"], &[]), rule(&["<all_urls>"], &[], &["only.css"])]),
        vec![read("only.js", Some("js_here();"))],
        vec![read("only.css", Some("css_here{}"))],
        true,
    )]);
    let script = mgr.build_injection_script(&url("https://x.test/")).unwrap();
    let css_at = script.find("css_here{}").unwrap();
    let js_at = script.find("js_here();").unwrap();
    assert!(css_at < js_at);
    let expected = format!(
        "{}\n(function() {{ var s = document.createElement('style'); s.textContent = `css_here{{}}`; document.head.appendChild(s); }})();\n// Extension: Mix (mix)\n(function() {{\njs_here();\n}})();\n",
        CHROME_API_POLYFILL
    );
    assert_eq!(script, expected);
}

#[test]
fn unreadable_css_still_injects_js() {
    let mut mgr = ExtensionManager::new("/ext".to_string());
    mgr.load_all(vec![scanned(
        "broken",
        manifest("Broken", vec![rule(&["<all_urls>"], &["ok.js"], &["missing.css", "fine.css"])]),
        vec![read("ok.js", Some("still_runs();"))],
        vec![read("missing.css", None), read("fine.css", Some("h1{}"))],
        true,
    )]);
    let ext = &mgr.extensions()[0];
    assert_eq!(ext.css_sources.len(), 1);
    assert_eq!(ext.css_sources[0].path, "fine.css");
    let script = mgr.build_injection_script(&url("https://x.test/")).unwrap();
    assert!(script.contains("still_runs();"));
    assert!(script.contains("h1{}"));
}

#[test]
fn remove_extension_plans_delete_and_data_clear() {
    let mut mgr = two_hosts();
    let plan = mgr.remove_extension("ext_a");
    assert_eq!(plan.directory.as_deref(), Some("/ext/ext_a"));
    assert_eq!(plan.data_id, "ext_a");
    assert!(mgr.extensions().iter().all(|e| e.id != "ext_a"));
    assert_eq!(mgr.extensions().len(), 1);
    let again = mgr.remove_extension("ext_a");
    assert!(again.directory.is_none());
    assert_eq!(again.data_id, "ext_a");
}

#[test]
fn set_enabled_for_unknown_id_changes_nothing() {
    let mut mgr = two_hosts();
    mgr.set_enabled("nobody", false);
    assert_eq!(mgr.enabled_count(), 2);
    assert_eq!(mgr.extensions().len(), 2);
}

#[test]
fn load_all_replaces_previous_registry() {
    let mut mgr = two_hosts();
    mgr.load_all(vec![scanned("solo", manifest("Solo", vec![]), vec![], vec![], false)]);
    assert_eq!(mgr.extensions().len(), 1);
    assert_eq!(mgr.extensions()[0].id, "solo");
    assert_eq!(mgr.enabled_count(), 0);
    assert_eq!(mgr.extensions_dir(), "/ext");
}

#[test]
fn rule_reported_once_even_if_several_patterns_match() {
    let mut mgr = ExtensionManager::new("/ext".to_string());
    mgr.load_all(vec![scanned(
        "multi",
        manifest("Multi", vec![rule(&["bad pattern", "<all_urls>", "*://*/*"], &["m.js"], &[])]),
        vec![read("m.js", Some("m();"))],
        vec![],
        true,
    )]);
    let hits = mgr.get_content_scripts_for_url(&url("https://x.test/"));
    assert_eq!(hits.len(), 1);
    assert_eq!(hits[0].0.id, "multi");
}

#[test]
fn template_literal_escaping() {
    assert_eq!(escape_template_literal("a\\b`c${d}$e"), "a\\\\b\\`c\\${d}$e");
    assert_eq!(escape_template_literal(""), "");
    assert_eq!(escape_template_literal("$"), "$");
}

#[test]
fn default_run_at_is_document_idle() {
    assert_eq!(default_run_at(), "document_idle");
}

#[test]
fn declared_files_in_rule_order() {
    let m = manifest("M", vec![rule(&["<all_urls>"], &["a.js", "b.js"], &["x.css"]), rule(&["*://*/*"], &["c.js"], &[])]);
    let files = declared_files(&m);
    assert_eq!(files.js, vec!["a.js", "b.js", "c.js"]);
    assert_eq!(files.css, vec!["x.css"]);
}

#[test]
fn later_read_of_a_path_wins() {
    let mut mgr = ExtensionManager::new("/ext".to_string());
    mgr.load_all(vec![scanned(
        "twice",
        manifest("Twice", vec![rule(&["<all_urls>"], &["s.js"], &[]), rule(&["<all_urls>"], &["s.js"], &[])]),
        vec![read("s.js", Some("old();")), read("s.js", Some("new();"))],
        vec![],
        true,
    )]);
    let script = mgr.build_injection_script(&url("https://x.test/")).unwrap();
    assert!(script.contains("new();"));
    assert!(!script.contains("old();"));
}
