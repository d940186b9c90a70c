//! The `servo:` URL scheme: which page or endpoint a shortcut names, and
//! how the extension storage relay reads its query.

use vstd::prelude::*;
use crate::text::{chars_of, chars_equal, slice_chars, starts_with, starts_with_exec, string_of};

verus! {

/// What a `servo:` path asks for.
pub enum Shortcut {
    /// A bundled page, by its resource path.
    Resource(String),
    ExperimentalPreferences,
    DefaultUserAgent,
    ExtensionsData,
    /// The extension API relay; holds the endpoint after `ext-api/`.
    ExtensionApi(String),
    Invalid,
}

/// The bundled page a shortcut names, if it names one.
pub open spec fn resource_page(path: Seq<char>) -> Option<Seq<char>> {
    if path == "config"@ {
        Some("/config.html"@)
    } else if path == "newtab"@ {
        Some("/newtab.html"@)
    } else if path == "preferences"@ {
        Some("/preferences.html"@)
    } else if path == "license"@ {
        Some("/license.html"@)
    } else if path == "test-battery"@ {
        Some("/test-battery.html"@)
    } else if path == "vpn-guide"@ {
        Some("/vpn-guide.html"@)
    } else if path == "help"@ {
        Some("/help.html"@)
    } else if path == "extensions"@ {
        Some("/extensions.html"@)
    } else {
        None
    }
}

pub open spec fn shortcut_spec(path: Seq<char>, r: Shortcut) -> bool {
    match resource_page(path) {
        Some(page) => r is Resource && r->Resource_0@ == page,
        None => if path == "experimental-preferences"@ {
            r is ExperimentalPreferences
        } else if path == "default-user-agent"@ {
            r is DefaultUserAgent
        } else if path == "extensions-data"@ {
            r is ExtensionsData
        } else if starts_with(path, "ext-api/"@) {
            r is ExtensionApi && r->ExtensionApi_0@ == path.subrange(8, path.len() as int)
        } else {
            r is Invalid
        },
    }
}

fn is(path: &Vec<char>, name: &str) -> (r: bool)
    ensures
        r == (path@ == name@),
{
    chars_equal(path, &chars_of(name))
}

fn page(name: &str) -> (r: Shortcut)
    ensures
        r is Resource && r->Resource_0@ == name@,
{
    Shortcut::Resource(string_of(&chars_of(name)))
}

/// Names what the `servo:` path `path` asks for.
pub fn route_shortcut(path: &str) -> (r: Shortcut)
    ensures
        shortcut_spec(path@, r),
{
    proof {
        reveal_strlit("ext-api/");
    }
    let p = chars_of(path);
    if is(&p, "config") {
        page("/config.html")
    } else if is(&p, "newtab") {
        page("/newtab.html")
    } else if is(&p, "preferences") {
        page("/preferences.html")
    } else if is(&p, "license") {
        page("/license.html")
    } else if is(&p, "test-battery") {
        page("/test-battery.html")
    } else if is(&p, "vpn-guide") {
        page("/vpn-guide.html")
    } else if is(&p, "help") {
        page("/help.html")
    } else if is(&p, "extensions") {
        page("/extensions.html")
    } else if is(&p, "experimental-preferences") {
        Shortcut::ExperimentalPreferences
    } else if is(&p, "default-user-agent") {
        Shortcut::DefaultUserAgent
    } else if is(&p, "extensions-data") {
        Shortcut::ExtensionsData
    } else if starts_with_exec(&p, &chars_of("ext-api/")) {
        let rest = slice_chars(&p, 8, p.len());
        Shortcut::ExtensionApi(string_of(&rest))
    } else {
        Shortcut::Invalid
    }
}

/// The storage call an extension API endpoint names.
pub enum StorageCall {
    GetKeys,
    SetKey,
    RemoveKeys,
    ClearAll,
    Unknown,
}

pub fn storage_call(endpoint: &str) -> (r: StorageCall)
    ensures
        r == if endpoint@ == "storage/get"@ {
            StorageCall::GetKeys
        } else if endpoint@ == "storage/set"@ {
            StorageCall::SetKey
        } else if endpoint@ == "storage/remove"@ {
            StorageCall::RemoveKeys
        } else if endpoint@ == "storage/clear"@ {
            StorageCall::ClearAll
        } else {
            StorageCall::Unknown
        },
{
    let e = chars_of(endpoint);
    if is(&e, "storage/get") {
        StorageCall::GetKeys
    } else if is(&e, "storage/set") {
        StorageCall::SetKey
    } else if is(&e, "storage/remove") {
        StorageCall::RemoveKeys
    } else if is(&e, "storage/clear") {
        StorageCall::ClearAll
    } else {
        StorageCall::Unknown
    }
}

/// The pieces of `s` between commas, empty ones included.
pub open spec fn comma_pieces(s: Seq<char>) -> Seq<Seq<char>>
    decreases s.len(),
{
    if s.len() == 0 {
        seq![Seq::empty()]
    } else if s.last() == ',' {
        comma_pieces(s.drop_last()).push(Seq::empty())
    } else {
        let p = comma_pieces(s.drop_last());
        p.update(p.len() - 1, p.last().push(s.last()))
    }
}

/// The non-empty members of `ps`, in order.
pub open spec fn non_empty(ps: Seq<Seq<char>>) -> Seq<Seq<char>>
    decreases ps.len(),
{
    if ps.len() == 0 {
        Seq::empty()
    } else if ps.last().len() == 0 {
        non_empty(ps.drop_last())
    } else {
        non_empty(ps.drop_last()).push(ps.last())
    }
}

proof fn lemma_comma_pieces_nonempty(s: Seq<char>)
    ensures
        comma_pieces(s).len() > 0,
    decreases s.len(),
{
    if s.len() > 0 {
        lemma_comma_pieces_nonempty(s.drop_last());
    }
}

/// The keys of a comma-separated list, empty ones dropped.
pub fn split_keys(keys: &str) -> (r: Vec<String>)
    ensures
        r@.map_values(|k: String| k@) == non_empty(comma_pieces(keys@)),
{
    let s = chars_of(keys);
    let mut out: Vec<String> = Vec::new();
    let mut cur: Vec<char> = Vec::new();
    let mut i: usize = 0;
    assert(s@.subrange(0, 0) =~= Seq::<char>::empty());
    assert(non_empty(comma_pieces(Seq::<char>::empty()).drop_last()) =~= Seq::<Seq<char>>::empty());
    while i < s.len()
        invariant
            i <= s@.len(),
            comma_pieces(s@.subrange(0, i as int)).len() > 0,
            cur@ == comma_pieces(s@.subrange(0, i as int)).last(),
            out@.map_values(|k: String| k@) == non_empty(comma_pieces(s@.subrange(0, i as int)).drop_last()),
        decreases s@.len() - i,
    {
        let ghost pre = s@.subrange(0, i as int);
        let ghost next = s@.subrange(0, i + 1);
        assert(next.drop_last() =~= pre);
        assert(next.last() == s@[i as int]);
        proof {
            lemma_comma_pieces_nonempty(next);
        }
        if s[i] == ',' {
            let ghost before = out@;
            if cur.len() > 0 {
                out.push(string_of(&cur));
            }
            assert(comma_pieces(next).drop_last() =~= comma_pieces(pre));
            assert(comma_pieces(pre) =~= comma_pieces(pre).drop_last().push(comma_pieces(pre).last()));
            assert(out@.map_values(|k: String| k@) =~= non_empty(comma_pieces(next).drop_last()));
            cur = Vec::new();
        } else {
            cur.push(s[i]);
            assert(comma_pieces(next).drop_last() =~= comma_pieces(pre).drop_last());
        }
        i = i + 1;
    }
    assert(s@.subrange(0, s@.len() as int) =~= s@);
    let ghost all = comma_pieces(s@);
    assert(all =~= all.drop_last().push(all.last()));
    if cur.len() > 0 {
        out.push(string_of(&cur));
    }
    assert(out@.map_values(|k: String| k@) =~= non_empty(all));
    out
}

/// The extension a storage relay call acts for: the `ext` query value, or
/// `default` without one.
pub fn relay_extension_id(ext: Option<String>) -> (r: String)
    ensures
        match ext {
            Some(e) => r@ == e@,
            None => r@ == "default"@,
        },
{
    match ext {
        Some(e) => e,
        None => string_of(&chars_of("default")),
    }
}

/// Whether a `storage/set` call stores anything: only under a non-empty key.
pub fn stores_key(key: &str) -> (r: bool)
    ensures
        r == (key@.len() > 0),
{
    chars_of(key).len() > 0
}

/// The `servo:` scheme's handler.
pub struct ServoProtocolHandler {}

impl ServoProtocolHandler {
    /// Shortcuts only privileged pages may load.
    pub fn privileged_paths(&self) -> (r: Vec<String>)
        ensures
            r@.len() == 2,
            r@[0]@ == "config"@,
            r@[1]@ == "preferences"@,
    {
        vec![string_of(&chars_of("config")), string_of(&chars_of("preferences"))]
    }

    pub fn is_fetchable(&self) -> (r: bool)
        ensures
            r,
    {
        true
    }
}

} // verus!
