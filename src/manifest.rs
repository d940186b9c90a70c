//! The extension manifest record (a subset of Manifest V3).

use vstd::prelude::*;
use crate::text::{chars_of, string_of};

verus! {

/// A parsed extension manifest.
pub struct ExtensionManifest {
    pub manifest_version: u32,
    pub name: String,
    pub version: String,
    pub description: String,
    pub permissions: Vec<String>,
    pub content_scripts: Vec<ContentScriptEntry>,
    pub action: Option<ActionEntry>,
    pub background: Option<BackgroundEntry>,
}

/// One content-script rule: the URL patterns it applies to and the files
/// it injects.
pub struct ContentScriptEntry {
    pub matches: Vec<String>,
    pub js: Vec<String>,
    pub css: Vec<String>,
    pub run_at: String,
}

pub struct ActionEntry {
    pub default_popup: String,
    pub default_icon: String,
    pub default_title: String,
}

pub struct BackgroundEntry {
    pub service_worker: String,
}

/// The `run_at` of a rule that names none.
pub fn default_run_at() -> (r: String)
    ensures
        r@ == "document_idle"@,
{
    string_of(&chars_of("document_idle"))
}


/// A rule of the manifest lists `path` among its scripts.
pub open spec fn declares_js(m: ExtensionManifest, path: Seq<char>) -> bool {
    exists|r: int, k: int|
        0 <= r < m.content_scripts@.len() && 0 <= k < m.content_scripts@[r].js@.len()
            && (#[trigger] m.content_scripts@[r].js@[k])@ == path
}

/// A rule of the manifest lists `path` among its stylesheets.
pub open spec fn declares_css(m: ExtensionManifest, path: Seq<char>) -> bool {
    exists|r: int, k: int|
        0 <= r < m.content_scripts@.len() && 0 <= k < m.content_scripts@[r].css@.len()
            && (#[trigger] m.content_scripts@[r].css@[k])@ == path
}

/// The script paths of the rules, rule by rule, in declaration order.
pub open spec fn js_paths(rules: Seq<ContentScriptEntry>) -> Seq<Seq<char>>
    decreases rules.len(),
{
    if rules.len() == 0 {
        Seq::empty()
    } else {
        js_paths(rules.drop_last()) + rules.last().js@.map_values(|f: String| f@)
    }
}

/// The stylesheet paths of the rules, rule by rule, in declaration order.
pub open spec fn css_paths(rules: Seq<ContentScriptEntry>) -> Seq<Seq<char>>
    decreases rules.len(),
{
    if rules.len() == 0 {
        Seq::empty()
    } else {
        css_paths(rules.drop_last()) + rules.last().css@.map_values(|f: String| f@)
    }
}

/// The files an extension's rules ask to have read.
pub struct DeclaredFiles {
    pub js: Vec<String>,
    pub css: Vec<String>,
}

fn collect_paths(m: &ExtensionManifest, scripts: bool) -> (r: Vec<String>)
    ensures
        scripts ==> r@.map_values(|f: String| f@) == js_paths(m.content_scripts@),
        !scripts ==> r@.map_values(|f: String| f@) == css_paths(m.content_scripts@),
        forall|i: int| 0 <= i < r@.len() ==> (scripts ==> declares_js(*m, (#[trigger] r@[i])@)) && (
        !scripts ==> declares_css(*m, r@[i]@)),
{
    let rules = &m.content_scripts;
    let mut out: Vec<String> = Vec::new();
    let mut ri: usize = 0;
    while ri < rules.len()
        invariant
            ri <= rules@.len(),
            rules@ == m.content_scripts@,
            scripts ==> out@.map_values(|f: String| f@) == js_paths(rules@.subrange(0, ri as int)),
            !scripts ==> out@.map_values(|f: String| f@) == css_paths(rules@.subrange(0, ri as int)),
            forall|i: int| 0 <= i < out@.len() ==> (scripts ==> declares_js(*m, (#[trigger] out@[i])@)) && (
            !scripts ==> declares_css(*m, out@[i]@)),
        decreases rules@.len() - ri,
    {
        let files = if scripts { &rules[ri].js } else { &rules[ri].css };
        let ghost base = out@.map_values(|f: String| f@);
        let mut k: usize = 0;
        while k < files.len()
            invariant
                ri < rules@.len(),
                rules@ == m.content_scripts@,
                scripts ==> *files == rules@[ri as int].js,
                !scripts ==> *files == rules@[ri as int].css,
                k <= files@.len(),
                out@.map_values(|f: String| f@) == base + files@.subrange(0, k as int).map_values(|f: String| f@),
                forall|i: int| 0 <= i < out@.len() ==> (scripts ==> declares_js(*m, (#[trigger] out@[i])@)) && (
                !scripts ==> declares_css(*m, out@[i]@)),
            decreases files@.len() - k,
        {
            let f = files[k].clone();
            proof {
                if scripts {
                    assert(m.content_scripts@[ri as int].js@[k as int]@ == f@);
                } else {
                    assert(m.content_scripts@[ri as int].css@[k as int]@ == f@);
                }
            }
            assert(f@ == files@[k as int]@);
            let ghost prev = out@;
            out.push(f);
            assert(out@ == prev.push(f));
            assert(out@.map_values(|f: String| f@) =~= prev.map_values(|f: String| f@).push(f@));
            assert(files@.subrange(0, k + 1).map_values(|f: String| f@) =~= files@.subrange(0, k as int).map_values(|f: String| f@).push(f@));
            k = k + 1;
        }
        assert(files@.subrange(0, files@.len() as int) =~= files@);
        assert(rules@.subrange(0, ri + 1).drop_last() =~= rules@.subrange(0, ri as int));
        ri = ri + 1;
    }
    assert(rules@.subrange(0, rules@.len() as int) =~= rules@);
    out
}

/// The script and stylesheet files that the manifest's rules declare, rule
/// by rule in declaration order: the files to read when loading.
pub fn declared_files(manifest: &ExtensionManifest) -> (r: DeclaredFiles)
    ensures
        r.js@.map_values(|f: String| f@) == js_paths(manifest.content_scripts@),
        r.css@.map_values(|f: String| f@) == css_paths(manifest.content_scripts@),
        forall|i: int| 0 <= i < r.js@.len() ==> declares_js(*manifest, (#[trigger] r.js@[i])@),
        forall|i: int| 0 <= i < r.css@.len() ==> declares_css(*manifest, (#[trigger] r.css@[i])@),
{
    DeclaredFiles { js: collect_paths(manifest, true), css: collect_paths(manifest, false) }
}

} // verus!
