//! The in-memory registry of loaded extensions: loading, enabling and
//! disabling, removal, and the choice and composition of the content
//! scripts that apply to a page.

use vstd::prelude::*;
use crate::injection::{
    escape_spec, push_script_statement, push_style_statement, script_statement, style_statement,
    CHROME_API_POLYFILL,
};
use crate::manifest::{declares_css, declares_js, ContentScriptEntry, ExtensionManifest};
use crate::match_pattern::{pattern_accepts, MatchPattern, PageUrl, UrlSpec};
use crate::text::occurs_at;

verus! {

/// A file of an extension, read when the extension was loaded.
pub struct SourceFile {
    pub path: String,
    pub text: String,
}

/// A loaded extension with its manifest, its files and its state.
pub struct LoadedExtension {
    pub id: String,
    pub manifest: ExtensionManifest,
    pub base_path: String,
    /// Content-script sources that could be read, by relative path.
    pub js_sources: Vec<SourceFile>,
    /// Stylesheet sources that could be read, by relative path.
    pub css_sources: Vec<SourceFile>,
    pub enabled: bool,
}

/// The outcome of one attempt to read a file that a manifest declares.
pub struct FileRead {
    pub path: String,
    pub contents: Option<String>,
}

/// An extension directory as found by a scan: its name, its parsed
/// manifest, the reads of the files the manifest declares and its persisted
/// enabled flag.
pub struct ScannedExtension {
    pub id: String,
    pub base_path: String,
    pub manifest: ExtensionManifest,
    pub js_reads: Vec<FileRead>,
    pub css_reads: Vec<FileRead>,
    pub enabled: bool,
}

/// What the registry asks of its surroundings once an extension has been
/// removed from memory: delete its directory, if it was loaded, and always
/// clear its persisted data.
pub struct RemovalPlan {
    pub directory: Option<String>,
    pub data_id: String,
}

/// The text stored for `path`: that of the last source file with that path
/// (a later read of a path replaces an earlier one).
pub open spec fn source_text(files: Seq<SourceFile>, path: Seq<char>) -> Option<Seq<char>>
    decreases files.len(),
{
    if files.len() == 0 {
        None
    } else if files.last().path@ == path {
        Some(files.last().text@)
    } else {
        source_text(files.drop_last(), path)
    }
}

pub open spec fn sources_view(files: Seq<SourceFile>) -> Seq<(Seq<char>, Seq<char>)> {
    files.map_values(|f: SourceFile| (f.path@, f.text@))
}

/// The reads that succeeded, in order, as (path, contents) pairs.
pub open spec fn loaded_view(reads: Seq<FileRead>) -> Seq<(Seq<char>, Seq<char>)>
    decreases reads.len(),
{
    if reads.len() == 0 {
        Seq::empty()
    } else {
        let rest = loaded_view(reads.drop_last());
        match reads.last().contents {
            Some(c) => rest.push((reads.last().path@, c@)),
            None => rest,
        }
    }
}

/// `e` is the extension that loading `s` gives.
pub open spec fn loaded_from(e: LoadedExtension, s: ScannedExtension) -> bool {
    &&& e.id@ == s.id@
    &&& e.manifest == s.manifest
    &&& e.base_path@ == s.base_path@
    &&& sources_view(e.js_sources@) == loaded_view(s.js_reads@)
    &&& sources_view(e.css_sources@) == loaded_view(s.css_reads@)
    &&& e.enabled == s.enabled
}

pub open spec fn scanned_ids_distinct(s: Seq<ScannedExtension>) -> bool {
    forall|i: int, j: int| 0 <= i < s.len() && 0 <= j < s.len() && i != j ==> s[i].id@ != s[j].id@
}

pub open spec fn ids_distinct(exts: Seq<LoadedExtension>) -> bool {
    forall|i: int, j: int|
        0 <= i < exts.len() && 0 <= j < exts.len() && i != j ==> exts[i].id@ != exts[j].id@
}

/// Every source an extension holds is a file that one of its rules declares.
pub open spec fn sources_declared(e: LoadedExtension) -> bool {
    &&& forall|j: int| 0 <= j < e.js_sources@.len() ==> declares_js(e.manifest, (#[trigger] e.js_sources@[j]).path@)
    &&& forall|j: int| 0 <= j < e.css_sources@.len() ==> declares_css(e.manifest, (#[trigger] e.css_sources@[j]).path@)
}

/// Every read of a scan is of a file that the scanned manifest declares.
pub open spec fn reads_declared(s: ScannedExtension) -> bool {
    &&& forall|j: int| 0 <= j < s.js_reads@.len() ==> declares_js(s.manifest, (#[trigger] s.js_reads@[j]).path@)
    &&& forall|j: int| 0 <= j < s.css_reads@.len() ==> declares_css(s.manifest, (#[trigger] s.css_reads@[j]).path@)
}

pub open spec fn with_enabled(e: LoadedExtension, enabled: bool) -> LoadedExtension {
    LoadedExtension { enabled, ..e }
}

/// `after` is `before` with the flag of the extension `id` set to `enabled`.
pub open spec fn flag_set(
    before: Seq<LoadedExtension>,
    after: Seq<LoadedExtension>,
    id: Seq<char>,
    enabled: bool,
) -> bool {
    &&& after.len() == before.len()
    &&& forall|i: int|
        0 <= i < before.len() ==> #[trigger] after[i] == if before[i].id@ == id {
            with_enabled(before[i], enabled)
        } else {
            before[i]
        }
}

/// How many extensions are enabled among the first `n`.
pub open spec fn count_enabled(exts: Seq<LoadedExtension>, n: nat) -> nat
    decreases n,
{
    if n == 0 {
        0
    } else {
        count_enabled(exts, (n - 1) as nat) + if exts[n - 1].enabled {
            1nat
        } else {
            0nat
        }
    }
}

/// A rule applies to a URL when one of its patterns parses and accepts it.
pub open spec fn rule_matches(rule: ContentScriptEntry, url: UrlSpec) -> bool {
    exists|k: int| 0 <= k < rule.matches@.len() && pattern_accepts(#[trigger] rule.matches@[k]@, url)
}

/// The rules among the first `n` of extension `ei` that apply, as
/// (extension index, rule index) pairs in declaration order.
pub open spec fn rule_hits(e: LoadedExtension, ei: int, url: UrlSpec, n: nat) -> Seq<(int, int)>
    decreases n,
{
    if n == 0 {
        Seq::empty()
    } else {
        let prev = rule_hits(e, ei, url, (n - 1) as nat);
        if rule_matches(e.manifest.content_scripts@[n - 1], url) {
            prev.push((ei, n - 1))
        } else {
            prev
        }
    }
}

/// The applying rules of the enabled extensions among the first `n`.
pub open spec fn hits(exts: Seq<LoadedExtension>, url: UrlSpec, n: nat) -> Seq<(int, int)>
    decreases n,
{
    if n == 0 {
        Seq::empty()
    } else {
        let e = exts[n - 1];
        hits(exts, url, (n - 1) as nat) + if e.enabled {
            rule_hits(e, n - 1, url, e.manifest.content_scripts@.len())
        } else {
            Seq::empty()
        }
    }
}

/// Every (extension, rule) pair that applies to `url`, extensions in
/// registry order and rules in declaration order.
pub open spec fn matched_rules(exts: Seq<LoadedExtension>, url: UrlSpec) -> Seq<(int, int)> {
    hits(exts, url, exts.len())
}

/// The style statements for the first `n` stylesheets of a rule.
pub open spec fn rule_css(e: LoadedExtension, files: Seq<String>, n: nat) -> Seq<char>
    decreases n,
{
    if n == 0 {
        Seq::empty()
    } else {
        rule_css(e, files, (n - 1) as nat) + match source_text(e.css_sources@, files[n - 1]@) {
            Some(t) => style_statement(escape_spec(t)),
            None => Seq::empty(),
        }
    }
}

/// The script statements for the first `n` scripts of a rule.
pub open spec fn rule_js(e: LoadedExtension, files: Seq<String>, n: nat) -> Seq<char>
    decreases n,
{
    if n == 0 {
        Seq::empty()
    } else {
        rule_js(e, files, (n - 1) as nat) + match source_text(e.js_sources@, files[n - 1]@) {
            Some(t) => script_statement(e.manifest.name@, e.id@, t),
            None => Seq::empty(),
        }
    }
}

pub open spec fn hit_rule(exts: Seq<LoadedExtension>, h: (int, int)) -> ContentScriptEntry {
    exts[h.0].manifest.content_scripts@[h.1]
}

/// The stylesheet pass over the first `n` matched pairs.
pub open spec fn css_pass(exts: Seq<LoadedExtension>, hs: Seq<(int, int)>, n: nat) -> Seq<char>
    decreases n,
{
    if n == 0 {
        Seq::empty()
    } else {
        let h = hs[n - 1];
        css_pass(exts, hs, (n - 1) as nat) + rule_css(
            exts[h.0],
            hit_rule(exts, h).css@,
            hit_rule(exts, h).css@.len(),
        )
    }
}

/// The script pass over the first `n` matched pairs.
pub open spec fn js_pass(exts: Seq<LoadedExtension>, hs: Seq<(int, int)>, n: nat) -> Seq<char>
    decreases n,
{
    if n == 0 {
        Seq::empty()
    } else {
        let h = hs[n - 1];
        js_pass(exts, hs, (n - 1) as nat) + rule_js(
            exts[h.0],
            hit_rule(exts, h).js@,
            hit_rule(exts, h).js@.len(),
        )
    }
}

/// The script injected into a page at `url`: nothing when no rule applies,
/// else the API shim, every stylesheet of every applying rule, then every
/// script of every applying rule.
pub open spec fn injection_spec(exts: Seq<LoadedExtension>, url: UrlSpec) -> Option<Seq<char>> {
    let hs = matched_rules(exts, url);
    if hs.len() == 0 {
        None
    } else {
        Some(
            CHROME_API_POLYFILL@ + "\n"@ + css_pass(exts, hs, hs.len()) + js_pass(
                exts,
                hs,
                hs.len(),
            ),
        )
    }
}

fn collect_sources(reads: &Vec<FileRead>) -> (r: Vec<SourceFile>)
    ensures
        sources_view(r@) == loaded_view(reads@),
        forall|j: int|
            0 <= j < r@.len() ==> exists|k: int| 0 <= k < reads@.len() && reads@[k].path@ == (#[trigger] r@[j]).path@,
{
    let mut r: Vec<SourceFile> = Vec::new();
    let mut i: usize = 0;
    while i < reads.len()
        invariant
            i <= reads@.len(),
            sources_view(r@) == loaded_view(reads@.subrange(0, i as int)),
            forall|j: int|
                0 <= j < r@.len() ==> exists|k: int| 0 <= k < reads@.len() && reads@[k].path@ == (#[trigger] r@[j]).path@,
        decreases reads@.len() - i,
    {
        assert(reads@.subrange(0, i + 1).drop_last() =~= reads@.subrange(0, i as int));
        match &reads[i].contents {
            Some(c) => {
                let ghost prev = r@;
                r.push(SourceFile { path: reads[i].path.clone(), text: c.clone() });
                assert forall|j: int| 0 <= j < r@.len() implies exists|k: int| 0 <= k < reads@.len() && reads@[k].path@ == (#[trigger] r@[j]).path@ by {
                    if j < prev.len() {
                        assert(r@[j] == prev[j]);
                    } else {
                        assert(reads@[i as int].path@ == r@[j].path@);
                    }
                }
                assert(sources_view(r@) =~= loaded_view(reads@.subrange(0, i + 1)));
            },
            None => {},
        }
        i = i + 1;
    }
    assert(reads@.subrange(0, reads@.len() as int) =~= reads@);
    r
}

fn find_source<'a>(files: &'a Vec<SourceFile>, path: &String) -> (r: Option<&'a String>)
    ensures
        match source_text(files@, path@) {
            Some(t) => r is Some && r->0@ == t,
            None => r is None,
        },
{
    let mut i: usize = files.len();
    assert(files@.subrange(0, files@.len() as int) =~= files@);
    while i > 0
        invariant
            i <= files@.len(),
            source_text(files@, path@) == source_text(files@.subrange(0, i as int), path@),
        decreases i,
    {
        assert(files@.subrange(0, i as int).drop_last() =~= files@.subrange(0, i - 1));
        if files[i - 1].path == *path {
            return Some(&files[i - 1].text);
        }
        i = i - 1;
    }
    None
}

/// `r` holds, in order, the extensions and rules that the pairs `hs` index.
pub open spec fn refs_agree<'a>(
    r: Seq<(&'a LoadedExtension, &'a ContentScriptEntry)>,
    exts: Seq<LoadedExtension>,
    hs: Seq<(int, int)>,
) -> bool {
    &&& r.len() == hs.len()
    &&& forall|k: int|
        0 <= k < r.len() ==> *(#[trigger] r[k]).0 == exts[hs[k].0] && *r[k].1 == hit_rule(exts, hs[k])
}

fn rule_applies(cs: &ContentScriptEntry, url: &PageUrl) -> (r: bool)
    ensures
        r == rule_matches(*cs, url@),
{
    let mut k: usize = 0;
    while k < cs.matches.len()
        invariant
            k <= cs.matches@.len(),
            forall|j: int| 0 <= j < k ==> !pattern_accepts(#[trigger] cs.matches@[j]@, url@),
        decreases cs.matches@.len() - k,
    {
        match MatchPattern::parse(cs.matches[k].as_str()) {
            Some(pattern) => {
                if pattern.matches_url(url) {
                    assert(pattern_accepts(cs.matches@[k as int]@, url@));
                    return true;
                }
            },
            None => {},
        }
        k = k + 1;
    }
    false
}

/// A pair is reported for a rule of extension `ei` exactly when the rule is
/// among the first `n` and applies.
proof fn lemma_rule_hits(e: LoadedExtension, ei: int, url: UrlSpec, n: nat)
    requires
        n <= e.manifest.content_scripts@.len(),
    ensures
        forall|p: (int, int)|
            rule_hits(e, ei, url, n).contains(p) <==> (p.0 == ei && 0 <= p.1 < n && rule_matches(
                e.manifest.content_scripts@[p.1],
                url,
            )),
    decreases n,
{
    if n > 0 {
        lemma_rule_hits(e, ei, url, (n - 1) as nat);
        let prev = rule_hits(e, ei, url, (n - 1) as nat);
        assert forall|p: (int, int)|
            rule_hits(e, ei, url, n).contains(p) <==> (p.0 == ei && 0 <= p.1 < n && rule_matches(
                e.manifest.content_scripts@[p.1],
                url,
            )) by {
            if rule_matches(e.manifest.content_scripts@[n - 1], url) {
                let cur = prev.push((ei, n - 1));
                if cur.contains(p) {
                    let k = choose|k: int| 0 <= k < cur.len() && cur[k] == p;
                    if k < prev.len() {
                        assert(prev.contains(p));
                    }
                }
                if prev.contains(p) {
                    let k = choose|k: int| 0 <= k < prev.len() && prev[k] == p;
                    assert(cur[k] == p);
                }
                if p == (ei, n - 1) {
                    assert(cur[prev.len() as int] == p);
                }
            }
        }
    }
}

/// A pair is reported among the first `n` extensions exactly when it names
/// an enabled extension and one of its rules that applies.
proof fn lemma_hits(exts: Seq<LoadedExtension>, url: UrlSpec, n: nat)
    requires
        n <= exts.len(),
    ensures
        forall|p: (int, int)|
            hits(exts, url, n).contains(p) <==> (0 <= p.0 < n && exts[p.0].enabled && 0 <= p.1
                < exts[p.0].manifest.content_scripts@.len() && rule_matches(hit_rule(exts, p), url)),
    decreases n,
{
    if n > 0 {
        lemma_hits(exts, url, (n - 1) as nat);
        let e = exts[n - 1];
        let prev = hits(exts, url, (n - 1) as nat);
        let more = if e.enabled {
            rule_hits(e, n - 1, url, e.manifest.content_scripts@.len())
        } else {
            Seq::empty()
        };
        lemma_rule_hits(e, n - 1, url, e.manifest.content_scripts@.len());
        let cur = prev + more;
        assert(hits(exts, url, n) == cur);
        assert forall|p: (int, int)|
            cur.contains(p) <==> (0 <= p.0 < n && exts[p.0].enabled && 0 <= p.1
                < exts[p.0].manifest.content_scripts@.len() && rule_matches(hit_rule(exts, p), url)) by {
            if cur.contains(p) {
                let k = choose|k: int| 0 <= k < cur.len() && cur[k] == p;
                if k < prev.len() {
                    assert(prev[k] == p);
                    assert(prev.contains(p));
                } else {
                    assert(more[k - prev.len()] == p);
                    assert(more.contains(p));
                }
            }
            if prev.contains(p) {
                let k = choose|k: int| 0 <= k < prev.len() && prev[k] == p;
                assert(cur[k] == p);
            }
            if more.contains(p) {
                let k = choose|k: int| 0 <= k < more.len() && more[k] == p;
                assert(cur[prev.len() + k] == p);
            }
        }
    }
}

/// The content of a page's script comes from exactly the enabled extensions
/// with a rule that accepts the URL: a pair (extension, rule) is selected if
/// and only if the extension is enabled and one of the rule's patterns
/// accepts the URL. An extension whose rules name other hosts adds nothing.
pub proof fn lemma_selected_rules_exact(exts: Seq<LoadedExtension>, url: UrlSpec, p: (int, int))
    ensures
        matched_rules(exts, url).contains(p) <==> (0 <= p.0 < exts.len() && exts[p.0].enabled && 0
            <= p.1 < exts[p.0].manifest.content_scripts@.len() && rule_matches(hit_rule(exts, p), url)),
{
    lemma_hits(exts, url, exts.len());
}

/// Once extension `id` is disabled, none of its rules is selected for any
/// URL: the script for a page it alone matched is `None`, and otherwise
/// holds nothing of it. No reload is needed.
pub proof fn lemma_disabled_extension_excluded(
    before: Seq<LoadedExtension>,
    after: Seq<LoadedExtension>,
    id: Seq<char>,
    url: UrlSpec,
    k: int,
)
    requires
        flag_set(before, after, id, false),
        0 <= k < matched_rules(after, url).len(),
    ensures
        after[matched_rules(after, url)[k].0].id@ != id,
{
    let p = matched_rules(after, url)[k];
    assert(matched_rules(after, url).contains(p));
    lemma_selected_rules_exact(after, url, p);
    assert(after[p.0] == if before[p.0].id@ == id {
        with_enabled(before[p.0], false)
    } else {
        before[p.0]
    });
}

/// `a` and `b` differ at most in the stylesheets that could be read.
pub open spec fn same_but_css(a: Seq<LoadedExtension>, b: Seq<LoadedExtension>) -> bool {
    &&& a.len() == b.len()
    &&& forall|i: int|
        0 <= i < a.len() ==> (#[trigger] a[i]).id == b[i].id && a[i].manifest == b[i].manifest
            && a[i].js_sources == b[i].js_sources && a[i].enabled == b[i].enabled
}

proof fn lemma_rule_hits_same(a: LoadedExtension, b: LoadedExtension, ei: int, url: UrlSpec, n: nat)
    requires
        a.manifest == b.manifest,
    ensures
        rule_hits(a, ei, url, n) == rule_hits(b, ei, url, n),
    decreases n,
{
    if n > 0 {
        lemma_rule_hits_same(a, b, ei, url, (n - 1) as nat);
    }
}

proof fn lemma_hits_same(a: Seq<LoadedExtension>, b: Seq<LoadedExtension>, url: UrlSpec, n: nat)
    requires
        same_but_css(a, b),
        n <= a.len(),
    ensures
        hits(a, url, n) == hits(b, url, n),
    decreases n,
{
    if n > 0 {
        lemma_hits_same(a, b, url, (n - 1) as nat);
        let ea = a[n - 1];
        let eb = b[n - 1];
        lemma_rule_hits_same(ea, eb, n - 1, url, ea.manifest.content_scripts@.len());
    }
}

proof fn lemma_rule_js_same(a: LoadedExtension, b: LoadedExtension, files: Seq<String>, n: nat)
    requires
        a.id == b.id,
        a.manifest == b.manifest,
        a.js_sources == b.js_sources,
        n <= files.len(),
    ensures
        rule_js(a, files, n) == rule_js(b, files, n),
    decreases n,
{
    if n > 0 {
        lemma_rule_js_same(a, b, files, (n - 1) as nat);
    }
}

proof fn lemma_js_pass_same(a: Seq<LoadedExtension>, b: Seq<LoadedExtension>, hs: Seq<(int, int)>, n: nat)
    requires
        same_but_css(a, b),
        n <= hs.len(),
        forall|k: int| 0 <= k < hs.len() ==> 0 <= (#[trigger] hs[k]).0 < a.len(),
    ensures
        js_pass(a, hs, n) == js_pass(b, hs, n),
    decreases n,
{
    if n > 0 {
        lemma_js_pass_same(a, b, hs, (n - 1) as nat);
        let h = hs[n - 1];
        let files = hit_rule(a, h).js@;
        lemma_rule_js_same(a[h.0], b[h.0], files, files.len());
    }
}

/// Stylesheets never decide which scripts run: two registries that differ
/// only in which stylesheets could be read select the same rules and
/// inject the same scripts, so a rule whose stylesheet failed to load still
/// injects its scripts.
pub proof fn lemma_scripts_independent_of_stylesheets(
    a: Seq<LoadedExtension>,
    b: Seq<LoadedExtension>,
    url: UrlSpec,
)
    requires
        same_but_css(a, b),
    ensures
        matched_rules(a, url) == matched_rules(b, url),
        js_pass(a, matched_rules(a, url), matched_rules(a, url).len()) == js_pass(
            b,
            matched_rules(b, url),
            matched_rules(b, url).len(),
        ),
{
    lemma_hits_same(a, b, url, a.len());
    let hs = matched_rules(a, url);
    assert forall|k: int| 0 <= k < hs.len() implies 0 <= (#[trigger] hs[k]).0 < a.len() by {
        assert(hs.contains(hs[k]));
        lemma_selected_rules_exact(a, url, hs[k]);
    }
    lemma_js_pass_same(a, b, hs, hs.len());
}

/// The script for a page is the API shim, then the stylesheet statements
/// of every selected rule, then the script statements of every selected
/// rule: no stylesheet comes after a script, whatever the order in which
/// the rules are declared.
pub proof fn lemma_stylesheets_before_scripts(exts: Seq<LoadedExtension>, url: UrlSpec)
    requires
        matched_rules(exts, url).len() > 0,
    ensures
        ({
            let hs = matched_rules(exts, url);
            injection_spec(exts, url) == Some(
                (CHROME_API_POLYFILL@ + "\n"@ + css_pass(exts, hs, hs.len())) + js_pass(
                    exts,
                    hs,
                    hs.len(),
                ),
            )
        }),
{
}

proof fn lemma_occurs_in_concat(a: Seq<char>, b: Seq<char>, t: Seq<char>, i: int)
    ensures
        occurs_at(a, t, i) ==> occurs_at(a + b, t, i),
        occurs_at(b, t, i) ==> occurs_at(a + b, t, a.len() + i),
{
    if occurs_at(a, t, i) {
        assert((a + b).subrange(i, i + t.len()) =~= a.subrange(i, i + t.len()));
    }
    if occurs_at(b, t, i) {
        assert((a + b).subrange(a.len() + i, a.len() + i + t.len()) =~= b.subrange(i, i + t.len()));
    }
}

/// The statement for file `m` of a rule, when its text could be read, lies
/// within the rule's script statements.
proof fn lemma_rule_js_has(e: LoadedExtension, files: Seq<String>, n: nat, m: int, t: Seq<char>)
    requires
        0 <= m < n <= files.len(),
        source_text(e.js_sources@, files[m]@) == Some(t),
    ensures
        exists|i: int| occurs_at(rule_js(e, files, n), script_statement(e.manifest.name@, e.id@, t), i),
    decreases n,
{
    let stmt = script_statement(e.manifest.name@, e.id@, t);
    let prev = rule_js(e, files, (n - 1) as nat);
    let last = match source_text(e.js_sources@, files[n - 1]@) {
        Some(x) => script_statement(e.manifest.name@, e.id@, x),
        None => Seq::empty(),
    };
    assert(rule_js(e, files, n) == prev + last);
    if m == n - 1 {
        assert(last == stmt);
        assert(last.subrange(0, stmt.len() as int) =~= stmt);
        lemma_occurs_in_concat(prev, last, stmt, 0);
    } else {
        lemma_rule_js_has(e, files, (n - 1) as nat, m, t);
        let i = choose|i: int| occurs_at(prev, stmt, i);
        lemma_occurs_in_concat(prev, last, stmt, i);
    }
}

proof fn lemma_rule_css_has(e: LoadedExtension, files: Seq<String>, n: nat, m: int, t: Seq<char>)
    requires
        0 <= m < n <= files.len(),
        source_text(e.css_sources@, files[m]@) == Some(t),
    ensures
        exists|i: int| occurs_at(rule_css(e, files, n), style_statement(escape_spec(t)), i),
    decreases n,
{
    let stmt = style_statement(escape_spec(t));
    let prev = rule_css(e, files, (n - 1) as nat);
    let last = match source_text(e.css_sources@, files[n - 1]@) {
        Some(x) => style_statement(escape_spec(x)),
        None => Seq::empty(),
    };
    assert(rule_css(e, files, n) == prev + last);
    if m == n - 1 {
        assert(last == stmt);
        assert(last.subrange(0, stmt.len() as int) =~= stmt);
        lemma_occurs_in_concat(prev, last, stmt, 0);
    } else {
        lemma_rule_css_has(e, files, (n - 1) as nat, m, t);
        let i = choose|i: int| occurs_at(prev, stmt, i);
        lemma_occurs_in_concat(prev, last, stmt, i);
    }
}

proof fn lemma_js_pass_has(exts: Seq<LoadedExtension>, hs: Seq<(int, int)>, n: nat, k: int, m: int, t: Seq<char>)
    requires
        0 <= k < n <= hs.len(),
        0 <= m < hit_rule(exts, hs[k]).js@.len(),
        source_text(exts[hs[k].0].js_sources@, hit_rule(exts, hs[k]).js@[m]@) == Some(t),
    ensures
        exists|i: int|
            occurs_at(
                js_pass(exts, hs, n),
                script_statement(exts[hs[k].0].manifest.name@, exts[hs[k].0].id@, t),
                i,
            ),
    decreases n,
{
    let e = exts[hs[k].0];
    let stmt = script_statement(e.manifest.name@, e.id@, t);
    let h = hs[n - 1];
    let prev = js_pass(exts, hs, (n - 1) as nat);
    let last = rule_js(exts[h.0], hit_rule(exts, h).js@, hit_rule(exts, h).js@.len());
    assert(js_pass(exts, hs, n) == prev + last);
    if k == n - 1 {
        lemma_rule_js_has(e, hit_rule(exts, h).js@, hit_rule(exts, h).js@.len(), m, t);
        let i = choose|i: int| occurs_at(last, stmt, i);
        lemma_occurs_in_concat(prev, last, stmt, i);
    } else {
        lemma_js_pass_has(exts, hs, (n - 1) as nat, k, m, t);
        let i = choose|i: int| occurs_at(prev, stmt, i);
        lemma_occurs_in_concat(prev, last, stmt, i);
    }
}

proof fn lemma_css_pass_has(exts: Seq<LoadedExtension>, hs: Seq<(int, int)>, n: nat, k: int, m: int, t: Seq<char>)
    requires
        0 <= k < n <= hs.len(),
        0 <= m < hit_rule(exts, hs[k]).css@.len(),
        source_text(exts[hs[k].0].css_sources@, hit_rule(exts, hs[k]).css@[m]@) == Some(t),
    ensures
        exists|i: int| occurs_at(css_pass(exts, hs, n), style_statement(escape_spec(t)), i),
    decreases n,
{
    let e = exts[hs[k].0];
    let stmt = style_statement(escape_spec(t));
    let h = hs[n - 1];
    let prev = css_pass(exts, hs, (n - 1) as nat);
    let last = rule_css(exts[h.0], hit_rule(exts, h).css@, hit_rule(exts, h).css@.len());
    assert(css_pass(exts, hs, n) == prev + last);
    if k == n - 1 {
        lemma_rule_css_has(e, hit_rule(exts, h).css@, hit_rule(exts, h).css@.len(), m, t);
        let i = choose|i: int| occurs_at(last, stmt, i);
        lemma_occurs_in_concat(prev, last, stmt, i);
    } else {
        lemma_css_pass_has(exts, hs, (n - 1) as nat, k, m, t);
        let i = choose|i: int| occurs_at(prev, stmt, i);
        lemma_occurs_in_concat(prev, last, stmt, i);
    }
}

/// Where the stylesheet statements of the script for `url` end and its
/// script statements begin.
pub open spec fn styles_end(exts: Seq<LoadedExtension>, url: UrlSpec) -> int {
    let hs = matched_rules(exts, url);
    (CHROME_API_POLYFILL@ + "\n"@ + css_pass(exts, hs, hs.len())).len() as int
}

/// A script of a rule that applies to `url`, of an enabled extension,
/// whose text could be read, is injected into the page: its statement
/// occurs in the script, after every stylesheet statement. This holds
/// whatever became of the rule's stylesheets.
pub proof fn lemma_applying_script_injected(
    exts: Seq<LoadedExtension>,
    url: UrlSpec,
    p: (int, int),
    m: int,
    t: Seq<char>,
)
    requires
        0 <= p.0 < exts.len(),
        exts[p.0].enabled,
        0 <= p.1 < exts[p.0].manifest.content_scripts@.len(),
        rule_matches(hit_rule(exts, p), url),
        0 <= m < hit_rule(exts, p).js@.len(),
        source_text(exts[p.0].js_sources@, hit_rule(exts, p).js@[m]@) == Some(t),
    ensures
        injection_spec(exts, url) is Some,
        exists|i: int|
            i >= styles_end(exts, url) && occurs_at(
                injection_spec(exts, url)->0,
                script_statement(exts[p.0].manifest.name@, exts[p.0].id@, t),
                i,
            ),
{
    let hs = matched_rules(exts, url);
    lemma_selected_rules_exact(exts, url, p);
    let k = choose|k: int| 0 <= k < hs.len() && hs[k] == p;
    let head = CHROME_API_POLYFILL@ + "\n"@ + css_pass(exts, hs, hs.len());
    let js = js_pass(exts, hs, hs.len());
    let stmt = script_statement(exts[p.0].manifest.name@, exts[p.0].id@, t);
    lemma_js_pass_has(exts, hs, hs.len(), k, m, t);
    let i = choose|i: int| occurs_at(js, stmt, i);
    lemma_occurs_in_concat(head, js, stmt, i);
    assert(injection_spec(exts, url) == Some(head + js));
    assert(styles_end(exts, url) == head.len());
    assert(head.len() + i >= styles_end(exts, url) && occurs_at(injection_spec(exts, url)->0, stmt, head.len() + i));
}

/// A stylesheet of a rule that applies to `url`, of an enabled extension,
/// whose text could be read, is injected into the page: its statement
/// occurs in the script, wholly before the first script statement.
pub proof fn lemma_applying_stylesheet_injected(
    exts: Seq<LoadedExtension>,
    url: UrlSpec,
    p: (int, int),
    m: int,
    t: Seq<char>,
)
    requires
        0 <= p.0 < exts.len(),
        exts[p.0].enabled,
        0 <= p.1 < exts[p.0].manifest.content_scripts@.len(),
        rule_matches(hit_rule(exts, p), url),
        0 <= m < hit_rule(exts, p).css@.len(),
        source_text(exts[p.0].css_sources@, hit_rule(exts, p).css@[m]@) == Some(t),
    ensures
        injection_spec(exts, url) is Some,
        exists|i: int|
            i + style_statement(escape_spec(t)).len() <= styles_end(exts, url) && occurs_at(
                injection_spec(exts, url)->0,
                style_statement(escape_spec(t)),
                i,
            ),
{
    let hs = matched_rules(exts, url);
    lemma_selected_rules_exact(exts, url, p);
    let k = choose|k: int| 0 <= k < hs.len() && hs[k] == p;
    let shim = CHROME_API_POLYFILL@ + "\n"@;
    let css = css_pass(exts, hs, hs.len());
    let js = js_pass(exts, hs, hs.len());
    let stmt = style_statement(escape_spec(t));
    lemma_css_pass_has(exts, hs, hs.len(), k, m, t);
    let i = choose|i: int| occurs_at(css, stmt, i);
    lemma_occurs_in_concat(shim, css, stmt, i);
    lemma_occurs_in_concat(shim + css, js, stmt, shim.len() + i);
    assert(injection_spec(exts, url) == Some((shim + css) + js));
    assert(styles_end(exts, url) == (shim + css).len());
    assert(shim.len() + i + stmt.len() <= styles_end(exts, url) && occurs_at(injection_spec(exts, url)->0, stmt, shim.len() + i));
}

/// Disabling extension `id` leaves every other extension's injection as it
/// was: a script of a rule of another extension that applied before still
/// appears in the page's script, after the stylesheets.
pub proof fn lemma_disabling_keeps_others(
    before: Seq<LoadedExtension>,
    after: Seq<LoadedExtension>,
    id: Seq<char>,
    url: UrlSpec,
    p: (int, int),
    m: int,
    t: Seq<char>,
)
    requires
        flag_set(before, after, id, false),
        matched_rules(before, url).contains(p),
        before[p.0].id@ != id,
        0 <= m < hit_rule(before, p).js@.len(),
        source_text(before[p.0].js_sources@, hit_rule(before, p).js@[m]@) == Some(t),
    ensures
        matched_rules(after, url).contains(p),
        exists|i: int|
            i >= styles_end(after, url) && occurs_at(
                injection_spec(after, url)->0,
                script_statement(before[p.0].manifest.name@, before[p.0].id@, t),
                i,
            ),
{
    lemma_selected_rules_exact(before, url, p);
    assert(after[p.0] == before[p.0]);
    lemma_selected_rules_exact(after, url, p);
    lemma_applying_script_injected(after, url, p, m, t);
}

/// Manages all loaded extensions.
pub struct ExtensionManager {
    extensions: Vec<LoadedExtension>,
    extensions_dir: String,
}

impl View for ExtensionManager {
    type V = Seq<LoadedExtension>;

    closed spec fn view(&self) -> Seq<LoadedExtension> {
        self.extensions@
    }
}

impl ExtensionManager {
    /// The directory holding one subdirectory per extension.
    pub closed spec fn dir(&self) -> Seq<char> {
        self.extensions_dir@
    }

    /// Extension ids are unique, and every source an extension holds is a
    /// file that one of its rules declares.
    pub open spec fn wf(&self) -> bool {
        &&& ids_distinct(self@)
        &&& forall|i: int| 0 <= i < self@.len() ==> sources_declared(#[trigger] self@[i])
    }

    /// An empty registry over the given extensions directory.
    pub fn new(extensions_dir: String) -> (r: Self)
        ensures
            r.wf(),
            r@ == Seq::<LoadedExtension>::empty(),
            r.dir() == extensions_dir@,
    {
        ExtensionManager { extensions: Vec::new(), extensions_dir }
    }

    /// Replaces the whole registry by the extensions of a fresh scan, in
    /// scan order; a file that could not be read is left out of its source
    /// map.
    pub fn load_all(&mut self, scanned: Vec<ScannedExtension>)
        requires
            scanned_ids_distinct(scanned@),
            forall|i: int| 0 <= i < scanned@.len() ==> reads_declared(#[trigger] scanned@[i]),
        ensures
            final(self).wf(),
            final(self).dir() == old(self).dir(),
            final(self)@.len() == scanned@.len(),
            forall|i: int| 0 <= i < scanned@.len() ==> loaded_from(#[trigger] final(self)@[i], scanned@[i]),
    {
        self.extensions.clear();
        let ghost all = scanned@;
        let total = scanned.len();
        let mut rest = scanned;
        let mut i: usize = 0;
        while rest.len() > 0
            invariant
                i + rest@.len() == all.len(),
                all.len() == total,
                rest@ == all.subrange(i as int, all.len() as int),
                self.extensions@.len() == i,
                self.extensions_dir == old(self).extensions_dir,
                forall|k: int| 0 <= k < i ==> loaded_from(#[trigger] self.extensions@[k], all[k]),
                forall|k: int| 0 <= k < i ==> sources_declared(#[trigger] self.extensions@[k]),
                forall|k: int| 0 <= k < all.len() ==> reads_declared(#[trigger] all[k]),
            decreases rest@.len(),
        {
            let s = rest.remove(0);
            assert(s == all[i as int]);
            assert(reads_declared(all[i as int]));
            let js_sources = collect_sources(&s.js_reads);
            let css_sources = collect_sources(&s.css_reads);
            assert forall|j: int| 0 <= j < js_sources@.len() implies declares_js(s.manifest, (#[trigger] js_sources@[j]).path@) by {
                let k = choose|k: int| 0 <= k < s.js_reads@.len() && s.js_reads@[k].path@ == js_sources@[j].path@;
                assert(declares_js(s.manifest, s.js_reads@[k].path@));
            }
            assert forall|j: int| 0 <= j < css_sources@.len() implies declares_css(s.manifest, (#[trigger] css_sources@[j]).path@) by {
                let k = choose|k: int| 0 <= k < s.css_reads@.len() && s.css_reads@[k].path@ == css_sources@[j].path@;
                assert(declares_css(s.manifest, s.css_reads@[k].path@));
            }
            let ScannedExtension { id, base_path, manifest, js_reads: _, css_reads: _, enabled } = s;
            self.extensions.push(
                LoadedExtension { id, manifest, base_path, js_sources, css_sources, enabled },
            );
            i = i + 1;
            assert(rest@ =~= all.subrange(i as int, all.len() as int));
        }
        assert forall|a: int, b: int|
            0 <= a < self.extensions@.len() && 0 <= b < self.extensions@.len() && a != b implies
            self.extensions@[a].id@ != self.extensions@[b].id@ by {
            assert(loaded_from(self.extensions@[a], all[a]));
            assert(loaded_from(self.extensions@[b], all[b]));
        }
    }

    /// All loaded extensions.
    pub fn extensions(&self) -> (r: &Vec<LoadedExtension>)
        ensures
            r@ == self@,
    {
        &self.extensions
    }

    /// The extensions directory.
    pub fn extensions_dir(&self) -> (r: &String)
        ensures
            r@ == self.dir(),
    {
        &self.extensions_dir
    }

    /// Sets the enabled flag of the extension `id`, if it is loaded; the
    /// persisted flag is the caller's to write.
    pub fn set_enabled(&mut self, id: &str, enabled: bool)
        requires
            old(self).wf(),
        ensures
            final(self).wf(),
            final(self).dir() == old(self).dir(),
            flag_set(old(self)@, final(self)@, id@, enabled),
    {
        let key = id.to_owned();
        let mut i: usize = 0;
        while i < self.extensions.len()
            invariant
                i <= self.extensions@.len(),
                self.extensions@.len() == old(self).extensions@.len(),
                self.extensions_dir == old(self).extensions_dir,
                key@ == id@,
                forall|k: int|
                    0 <= k < i ==> #[trigger] self.extensions@[k] == if old(self).extensions@[k].id@ == id@ {
                        with_enabled(old(self).extensions@[k], enabled)
                    } else {
                        old(self).extensions@[k]
                    },
                forall|k: int| i <= k < self.extensions@.len() ==> #[trigger] self.extensions@[k] == old(self).extensions@[k],
            decreases self.extensions@.len() - i,
        {
            if self.extensions[i].id == key {
                self.extensions[i].enabled = enabled;
            }
            i = i + 1;
        }
    }

    /// Forgets the extension `id`. The returned plan names its directory to
    /// delete, when it was loaded, and always the id whose persisted data is
    /// to be cleared, whatever becomes of the directory.
    pub fn remove_extension(&mut self, id: &str) -> (plan: RemovalPlan)
        requires
            old(self).wf(),
        ensures
            final(self).wf(),
            final(self).dir() == old(self).dir(),
            plan.data_id@ == id@,
            forall|i: int| 0 <= i < final(self)@.len() ==> (#[trigger] final(self)@[i]).id@ != id@,
            (exists|i: int|
                0 <= i < old(self)@.len() && old(self)@[i].id@ == id@ && final(self)@ == old(self)@.remove(i)
                    && plan.directory == Some(old(self)@[i].base_path))
                || ((forall|i: int| 0 <= i < old(self)@.len() ==> (#[trigger] old(self)@[i]).id@ != id@)
                && final(self)@ == old(self)@ && plan.directory is None),
    {
        let key = id.to_owned();
        let mut i: usize = 0;
        while i < self.extensions.len()
            invariant
                i <= self.extensions@.len(),
                self.extensions@ == old(self).extensions@,
                key@ == id@,
                forall|k: int| 0 <= k < i ==> (#[trigger] self.extensions@[k]).id@ != id@,
            ensures
                i <= self.extensions@.len(),
                self.extensions@ == old(self).extensions@,
                key@ == id@,
                forall|k: int| 0 <= k < i ==> (#[trigger] self.extensions@[k]).id@ != id@,
                i < self.extensions@.len() ==> self.extensions@[i as int].id@ == id@,
            decreases self.extensions@.len() - i,
        {
            if self.extensions[i].id == key {
                break;
            }
            i = i + 1;
        }
        if i == self.extensions.len() {
            return RemovalPlan { directory: None, data_id: key };
        }
        let ghost before = self.extensions@;
        assert(before[i as int].id@ == id@);
        let ext = self.extensions.remove(i);
        assert(self.extensions@ =~= before.remove(i as int));
        assert forall|k: int| 0 <= k < self.extensions@.len() implies (#[trigger] self.extensions@[k]).id@ != id@ by {
            if k >= i {
                assert(self.extensions@[k] == before[k + 1]);
                assert(before[k + 1].id@ != before[i as int].id@);
            }
        }
        assert forall|a: int, b: int|
            0 <= a < self.extensions@.len() && 0 <= b < self.extensions@.len() && a != b implies
            self.extensions@[a].id@ != self.extensions@[b].id@ by {
            let a2 = if a < i { a } else { a + 1 };
            let b2 = if b < i { b } else { b + 1 };
            assert(self.extensions@[a] == before[a2]);
            assert(self.extensions@[b] == before[b2]);
        }
        RemovalPlan { directory: Some(ext.base_path), data_id: key }
    }

    /// The (extension, rule) pairs that apply to `url`: for each enabled
    /// extension in registry order, each rule with a pattern that accepts
    /// the URL, once, in declaration order.
    pub fn get_content_scripts_for_url<'a>(&'a self, url: &PageUrl) -> (r: Vec<(&'a LoadedExtension, &'a ContentScriptEntry)>)
        ensures
            refs_agree(r@, self@, matched_rules(self@, url@)),
    {
        let mut result: Vec<(&'a LoadedExtension, &'a ContentScriptEntry)> = Vec::new();
        let mut i: usize = 0;
        while i < self.extensions.len()
            invariant
                i <= self.extensions@.len(),
                refs_agree(result@, self.extensions@, hits(self.extensions@, url@, i as nat)),
            decreases self.extensions@.len() - i,
        {
            let ext = &self.extensions[i];
            if ext.enabled {
                let ghost before = hits(self.extensions@, url@, i as nat);
                let mut j: usize = 0;
                while j < ext.manifest.content_scripts.len()
                    invariant
                        i < self.extensions@.len(),
                        *ext == self.extensions@[i as int],
                        ext.enabled,
                        before == hits(self.extensions@, url@, i as nat),
                        j <= ext.manifest.content_scripts@.len(),
                        refs_agree(result@, self.extensions@, before + rule_hits(*ext, i as int, url@, j as nat)),
                    decreases ext.manifest.content_scripts@.len() - j,
                {
                    let cs = &ext.manifest.content_scripts[j];
                    let ghost prev = before + rule_hits(*ext, i as int, url@, j as nat);
                    if rule_applies(cs, url) {
                        result.push((ext, cs));
                        assert(before + rule_hits(*ext, i as int, url@, (j + 1) as nat) =~= prev.push((i as int, j as int)));
                    }
                    j = j + 1;
                }
            } else {
                assert(hits(self.extensions@, url@, (i + 1) as nat) =~= hits(self.extensions@, url@, i as nat));
            }
            i = i + 1;
        }
        result
    }

    /// The script to inject into a page at `url`, or `None` when no rule
    /// applies (then nothing is to be injected).
    pub fn build_injection_script(&self, url: &PageUrl) -> (r: Option<String>)
        ensures
            match injection_spec(self@, url@) {
                None => r is None,
                Some(t) => r is Some && r->0@ == t,
            },
    {
        let matches = self.get_content_scripts_for_url(url);
        let ghost exts = self@;
        let ghost hs = matched_rules(self@, url@);
        if matches.len() == 0 {
            return None;
        }
        let mut script = String::new();
        script.append(CHROME_API_POLYFILL);
        script.append("\n");
        let ghost head = script@;
        let mut k: usize = 0;
        while k < matches.len()
            invariant
                k <= matches@.len(),
                refs_agree(matches@, exts, hs),
                script@ == head + css_pass(exts, hs, k as nat),
            decreases matches@.len() - k,
        {
            let (ext, cs) = matches[k];
            let ghost before = script@;
            let mut f: usize = 0;
            while f < cs.css.len()
                invariant
                    k < matches@.len(),
                    *ext == exts[hs[k as int].0],
                    *cs == hit_rule(exts, hs[k as int]),
                    f <= cs.css@.len(),
                    script@ == before + rule_css(*ext, cs.css@, f as nat),
                decreases cs.css@.len() - f,
            {
                match find_source(&ext.css_sources, &cs.css[f]) {
                    Some(text) => {
                        push_style_statement(&mut script, text.as_str());
                    },
                    None => {},
                }
                assert(script@ =~= before + rule_css(*ext, cs.css@, (f + 1) as nat));
                f = f + 1;
            }
            assert(script@ =~= head + css_pass(exts, hs, (k + 1) as nat));
            k = k + 1;
        }
        let ghost mid = script@;
        let mut k: usize = 0;
        while k < matches.len()
            invariant
                k <= matches@.len(),
                refs_agree(matches@, exts, hs),
                script@ == mid + js_pass(exts, hs, k as nat),
            decreases matches@.len() - k,
        {
            let (ext, cs) = matches[k];
            let ghost before = script@;
            let mut f: usize = 0;
            while f < cs.js.len()
                invariant
                    k < matches@.len(),
                    *ext == exts[hs[k as int].0],
                    *cs == hit_rule(exts, hs[k as int]),
                    f <= cs.js@.len(),
                    script@ == before + rule_js(*ext, cs.js@, f as nat),
                decreases cs.js@.len() - f,
            {
                match find_source(&ext.js_sources, &cs.js[f]) {
                    Some(text) => {
                        push_script_statement(&mut script, ext.manifest.name.as_str(), ext.id.as_str(), text.as_str());
                    },
                    None => {},
                }
                assert(script@ =~= before + rule_js(*ext, cs.js@, (f + 1) as nat));
                f = f + 1;
            }
            assert(script@ =~= mid + js_pass(exts, hs, (k + 1) as nat));
            k = k + 1;
        }
        Some(script)
    }

    /// The number of enabled extensions.
    pub fn enabled_count(&self) -> (r: usize)
        ensures
            r == count_enabled(self@, self@.len()),
    {
        let mut n: usize = 0;
        let mut i: usize = 0;
        while i < self.extensions.len()
            invariant
                i <= self.extensions@.len(),
                n == count_enabled(self.extensions@, i as nat),
                n <= i,
            decreases self.extensions@.len() - i,
        {
            if self.extensions[i].enabled {
                n = n + 1;
            }
            i = i + 1;
        }
        n
    }
}

} // verus!
