//! Content blocking through adblock-rust's filter-list engine: the built-in
//! tracker and ad rules, and the decision for one network request.

use vstd::prelude::*;
use crate::text::{chars_of, string_of};

verus! {

#[verifier::external_type_specification]
#[verifier::external_body]
pub struct ExEngine(adblock::Engine);

#[verifier::external_type_specification]
#[verifier::external_body]
pub struct ExFilterSet(adblock::lists::FilterSet);

#[verifier::external_type_specification]
#[verifier::external_body]
pub struct ExRequest(adblock::request::Request);

#[verifier::external_type_specification]
#[verifier::external_body]
pub struct ExRequestError(adblock::request::RequestError);

/// Whether adblock can make a request of these URLs and type: its URL has
/// a host it can read.
pub uninterp spec fn request_parses(url: Seq<char>, source_url: Seq<char>, request_type: Seq<char>) -> bool;

/// Relies on adblock::lists::FilterSet::new: an empty filter set.
#[verifier::external_body]
fn empty_filter_set(debug: bool) -> adblock::lists::FilterSet
{
    adblock::lists::FilterSet::new(debug)
}

/// Relies on adblock::lists::FilterSet::add_filter_list with the default
/// parse options: the rules of a list, one per line, join the set.
#[verifier::external_body]
fn add_filter_list(set: &mut adblock::lists::FilterSet, list_text: String)
{
    set.add_filter_list(list_text, adblock::lists::ParseOptions::default());
}

/// Relies on adblock::Engine::new_with_filter_set, which optimises the rules.
#[verifier::external_body]
fn engine_of(set: adblock::lists::FilterSet) -> adblock::Engine
{
    adblock::Engine::new_with_filter_set(set)
}

/// Relies on adblock::request::Request::new, with no request method.
#[verifier::external_body]
fn network_request(url: &str, source_url: &str, request_type: &str) -> (r: Result<adblock::request::Request, adblock::request::RequestError>)
    ensures
        r is Ok == request_parses(url@, source_url@, request_type@),
{
    adblock::request::Request::new(url, source_url, request_type, "")
}

/// Relies on adblock::Engine::check_network_request and
/// BlockerResult::should_block: a blocking rule matched and no exception
/// overrode it.
#[verifier::external_body]
fn engine_blocks(engine: &adblock::Engine, request: &adblock::request::Request) -> bool
{
    engine.check_network_request(request).should_block()
}

/// The built-in rules, in order.
pub open spec fn builtin_rules() -> Seq<Seq<char>> {
    seq![
        "||google-analytics.com^"@,
        "||googletagmanager.com^"@,
        "||connect.facebook.net^$third-party"@,
        "||pixel.facebook.com^"@,
        "||doubleclick.net^"@,
        "||googlesyndication.com^"@,
        "||googleadservices.com^"@,
        "||adnxs.com^"@,
        "||ads.yahoo.com^"@,
        "||ads.twitter.com^"@,
        "||bat.bing.com^"@,
        "||analytics.tiktok.com^"@,
        "||t.co/i/adsct$third-party"@,
        "||scorecardresearch.com^"@,
        "||quantserve.com^"@,
        "||hotjar.com^$third-party"@,
        "||amplitude.com^$third-party"@,
        "||mixpanel.com^$third-party"@,
        "||segment.io^$third-party"@,
        "||segment.com^$third-party"@,
        "||coinhive.com^"@,
        "||coin-hive.com^"@,
        "||jsecoin.com^"@,
        "||cryptoloot.pro^"@,
    ]
}

/// The built-in rules: common analytics, ad networks, tracking pixels,
/// fingerprinting scripts and crypto miners.
pub fn builtin_filters() -> (r: Vec<String>)
    ensures
        r@.map_values(|f: String| f@) == builtin_rules(),
{
    let rules = vec![
        "||google-analytics.com^",
        "||googletagmanager.com^",
        "||connect.facebook.net^$third-party",
        "||pixel.facebook.com^",
        "||doubleclick.net^",
        "||googlesyndication.com^",
        "||googleadservices.com^",
        "||adnxs.com^",
        "||ads.yahoo.com^",
        "||ads.twitter.com^",
        "||bat.bing.com^",
        "||analytics.tiktok.com^",
        "||t.co/i/adsct$third-party",
        "||scorecardresearch.com^",
        "||quantserve.com^",
        "||hotjar.com^$third-party",
        "||amplitude.com^$third-party",
        "||mixpanel.com^$third-party",
        "||segment.io^$third-party",
        "||segment.com^$third-party",
        "||coinhive.com^",
        "||coin-hive.com^",
        "||jsecoin.com^",
        "||cryptoloot.pro^",
    ];
    let ghost want = rules@.map_values(|f: &str| f@);
    assert(want =~= builtin_rules());
    let mut out: Vec<String> = Vec::new();
    let mut i: usize = 0;
    while i < rules.len()
        invariant
            want == rules@.map_values(|f: &str| f@),
            i <= rules@.len(),
            out@.map_values(|f: String| f@) == want.subrange(0, i as int),
        decreases rules@.len() - i,
    {
        let f = string_of(&chars_of(rules[i]));
        assert(f@ == want[i as int]);
        let ghost prev = out@;
        out.push(f);
        assert(out@.map_values(|f: String| f@) =~= prev.map_values(|f: String| f@).push(f@));
        assert(want.subrange(0, i + 1) =~= want.subrange(0, i as int).push(want[i as int]));
        i = i + 1;
    }
    assert(want.subrange(0, want.len() as int) =~= want);
    out
}

/// The text of a filter list: each rule on a line of its own.
pub open spec fn list_text(rules: Seq<Seq<char>>) -> Seq<char>
    decreases rules.len(),
{
    if rules.len() == 0 {
        Seq::empty()
    } else {
        list_text(rules.drop_last()) + rules.last() + seq!['\n']
    }
}

pub fn filter_list_text(rules: &Vec<String>) -> (r: String)
    ensures
        r@ == list_text(rules@.map_values(|s: String| s@)),
{
    let mut text = String::new();
    let mut i: usize = 0;
    while i < rules.len()
        invariant
            i <= rules@.len(),
            text@ == list_text(rules@.subrange(0, i as int).map_values(|s: String| s@)),
        decreases rules@.len() - i,
    {
        text.append(rules[i].as_str());
        text.append("\n");
        proof {
            reveal_strlit("\n");
            assert(rules@.subrange(0, i + 1).map_values(|s: String| s@).drop_last()
                =~= rules@.subrange(0, i as int).map_values(|s: String| s@));
        }
        i = i + 1;
    }
    assert(rules@.subrange(0, rules@.len() as int) =~= rules@);
    text
}

/// An engine loaded with the built-in rules.
pub fn create_engine() -> adblock::Engine {
    let mut set = empty_filter_set(false);
    add_filter_list(&mut set, filter_list_text(&builtin_filters()));
    engine_of(set)
}

/// Whether a request for `url` of type `request_type`, made by the page at
/// `source_url`, is to be blocked. A request whose URL cannot be read is
/// let through.
pub fn should_block(engine: &adblock::Engine, url: &str, source_url: &str, request_type: &str) -> (r: bool)
    ensures
        !request_parses(url@, source_url@, request_type@) ==> !r,
{
    match network_request(url, source_url, request_type) {
        Ok(request) => engine_blocks(engine, &request),
        Err(_) => false,
    }
}

} // verus!
