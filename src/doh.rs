//! Reading a DNS-over-HTTPS JSON answer: the `"data"` values and the TTL.
//! Only what the answer says is read here; which values are IP addresses,
//! and the cache, are the resolver's.

use vstd::prelude::*;
use crate::filename::{strip_front_white, white_exec};
use crate::text::{chars_of, find_exec, find_from, slice_chars, string_of};

verus! {

/// The TTL, in seconds, of an answer that gives none.
pub const DEFAULT_TTL_SECS: u64 = 300;

/// The least TTL, in seconds, an answer is kept for.
pub const MIN_TTL_SECS: u64 = 60;

/// The part of `s` after the first occurrence of `t`.
pub open spec fn after(s: Seq<char>, t: Seq<char>) -> Option<Seq<char>> {
    match find_from(s, t, 0) {
        Some(k) => if k + t.len() <= s.len() {
            Some(s.subrange(k + t.len() as int, s.len() as int))
        } else {
            None
        },
        None => None,
    }
}

/// Every `"data": "<value>"` of an answer, in order: `None` when a `"data"`
/// key is not followed by a colon and a quoted value.
pub open spec fn data_values(s: Seq<char>) -> Option<Seq<Seq<char>>>
    decreases s.len(),
{
    match after(s, "\"data\""@) {
        None => Some(Seq::empty()),
        Some(a) => match after(a, ":"@) {
            None => None,
            Some(b) => match after(b, "\""@) {
                None => None,
                Some(d) => match find_from(d, "\""@, 0) {
                    Some(e) => if e < d.len() {
                        match data_values(d.subrange(e as int + 1, d.len() as int)) {
                            Some(vs) => Some(seq![d.subrange(0, e as int)] + vs),
                            None => None,
                        }
                    } else {
                        None
                    },
                    None => None,
                },
            },
        },
    }
}

pub open spec fn is_digit(c: char) -> bool {
    '0' <= c && c <= '9'
}

/// The leading ASCII digits of `s`.
pub open spec fn digit_prefix(s: Seq<char>) -> Seq<char>
    decreases s.len(),
{
    if s.len() > 0 && is_digit(s[0]) {
        seq![s[0]] + digit_prefix(s.drop_first())
    } else {
        Seq::empty()
    }
}

/// The number that a string of ASCII digits writes.
pub open spec fn digits_value(d: Seq<char>) -> nat
    decreases d.len(),
{
    if d.len() == 0 {
        0
    } else {
        digits_value(d.drop_last()) * 10 + ((d.last() as u32) - ('0' as u32)) as nat
    }
}

/// The TTL an answer asks for: the digits after the colon that follows the
/// first `"TTL"` key, at least one minute; five minutes when there are
/// none or they do not fit in 64 bits.
pub open spec fn ttl_spec(s: Seq<char>) -> u64 {
    match after(s, "\"TTL\""@) {
        None => DEFAULT_TTL_SECS,
        Some(a) => match after(a, ":"@) {
            None => DEFAULT_TTL_SECS,
            Some(b) => {
                let d = digit_prefix(strip_front_white(b));
                if d.len() > 0 && digits_value(d) <= u64::MAX {
                    if digits_value(d) < MIN_TTL_SECS {
                        MIN_TTL_SECS
                    } else {
                        digits_value(d) as u64
                    }
                } else {
                    DEFAULT_TTL_SECS
                }
            },
        },
    }
}

fn after_exec(s: &Vec<char>, t: &Vec<char>) -> (r: Option<Vec<char>>)
    ensures
        match after(s@, t@) {
            Some(a) => r is Some && r->0@ == a,
            None => r is None,
        },
{
    let n = s.len();
    match find_exec(s, t) {
        Some(k) => {
            assert(k + t@.len() <= n);
            Some(slice_chars(s, k + t.len(), n))
        },
        None => None,
    }
}

/// The `"data"` values of an answer, and the TTL it asks for.
pub struct DohScan {
    pub data_values: Vec<String>,
    pub ttl_secs: u64,
}

fn digits_exec(s: &Vec<char>) -> (r: Option<u64>)
    ensures
        r == if digit_prefix(s@).len() > 0 && digits_value(digit_prefix(s@)) <= u64::MAX {
            Some(digits_value(digit_prefix(s@)) as u64)
        } else {
            None
        },
{
    let mut i: usize = 0;
    let mut v: u128 = 0;
    let mut overflow = false;
    let ghost d = digit_prefix(s@);
    assert(s@.subrange(0, s@.len() as int) =~= s@);
    while i < s.len() && '0' <= s[i] && s[i] <= '9'
        invariant
            i <= s@.len(),
            d == s@.subrange(0, i as int) + digit_prefix(s@.subrange(i as int, s@.len() as int)),
            forall|k: int| 0 <= k < i ==> is_digit(s@[k]),
            !overflow ==> v == digits_value(s@.subrange(0, i as int)) && v <= u64::MAX,
            overflow ==> digits_value(s@.subrange(0, i as int)) > u64::MAX,
        decreases s@.len() - i,
    {
        let ghost pre = s@.subrange(0, i as int);
        let ghost next = s@.subrange(0, i + 1);
        assert(next.drop_last() =~= pre);
        assert(s@.subrange(i as int, s@.len() as int).drop_first() =~= s@.subrange(i + 1, s@.len() as int));
        assert(d =~= next + digit_prefix(s@.subrange(i + 1, s@.len() as int)));
        let digit = ((s[i] as u32) - ('0' as u32)) as u128;
        if !overflow {
            v = v * 10 + digit;
            if v > u64::MAX as u128 {
                overflow = true;
            }
        }
        i = i + 1;
    }
    assert(digit_prefix(s@.subrange(i as int, s@.len() as int)) =~= Seq::<char>::empty());
    assert(d =~= s@.subrange(0, i as int));
    if i == 0 || overflow {
        None
    } else {
        Some(v as u64)
    }
}

fn ttl_exec(s: &Vec<char>) -> (r: u64)
    ensures
        r == ttl_spec(s@),
{
    proof {
        reveal_strlit("\"TTL\"");
        reveal_strlit(":");
    }
    let a = match after_exec(s, &chars_of("\"TTL\"")) {
        Some(a) => a,
        None => return DEFAULT_TTL_SECS,
    };
    let b = match after_exec(&a, &chars_of(":")) {
        Some(b) => b,
        None => return DEFAULT_TTL_SECS,
    };
    let c = trim_front(&b);
    match digits_exec(&c) {
        Some(t) => if t < MIN_TTL_SECS {
            MIN_TTL_SECS
        } else {
            t
        },
        None => DEFAULT_TTL_SECS,
    }
}

fn trim_front(s: &Vec<char>) -> (r: Vec<char>)
    ensures
        r@ == strip_front_white(s@),
{
    let mut lo: usize = 0;
    assert(s@.subrange(0, s@.len() as int) =~= s@);
    while lo < s.len() && white_exec(s[lo])
        invariant
            lo <= s@.len(),
            strip_front_white(s@) == strip_front_white(s@.subrange(lo as int, s@.len() as int)),
        decreases s@.len() - lo,
    {
        assert(s@.subrange(lo as int, s@.len() as int).drop_first() =~= s@.subrange(lo + 1, s@.len() as int));
        lo = lo + 1;
    }
    slice_chars(s, lo, s.len())
}


/// Reads the `"data"` values and the TTL of a DNS-over-HTTPS JSON answer;
/// `None` when a `"data"` key has no quoted value after its colon.
pub fn scan_doh_answer(body: &str) -> (r: Option<DohScan>)
    ensures
        match data_values(body@) {
            None => r is None,
            Some(vs) => r is Some && r->0.data_values@.map_values(|v: String| v@) == vs
                && r->0.ttl_secs == ttl_spec(body@),
        },
{
    proof {
        reveal_strlit("\"data\"");
        reveal_strlit(":");
        reveal_strlit("\"");
    }
    let s = chars_of(body);
    let key = chars_of("\"data\"");
    let colon = chars_of(":");
    let quote = chars_of("\"");
    let mut search = slice_chars(&s, 0, s.len());
    assert(s@.subrange(0, s@.len() as int) =~= s@);
    let mut values: Vec<String> = Vec::new();
    let mut done = false;
    assert(quote@.len() == 1);
    while !done
        invariant
            s@ == body@,
            key@ == "\"data\""@,
            colon@ == ":"@,
            quote@ == "\""@,
            quote@.len() == 1,
            data_values(s@) == match data_values(search@) {
                Some(vs) => Some(values@.map_values(|v: String| v@) + vs),
                None => None,
            },
            done ==> data_values(search@) == Some(Seq::<Seq<char>>::empty()),
        decreases (if done { 0 } else { search@.len() + 1 }),
    {
        match after_exec(&search, &key) {
            None => {
                done = true;
            },
            Some(a) => {
                let b = match after_exec(&a, &colon) {
                    Some(b) => b,
                    None => {
                        assert(data_values(search@) is None);
                        return None;
                    },
                };
                let d = match after_exec(&b, &quote) {
                    Some(d) => d,
                    None => {
                        assert(data_values(search@) is None);
                        return None;
                    },
                };
                let e = match find_exec(&d, &quote) {
                    Some(e) => e,
                    None => {
                        assert(data_values(search@) is None);
                        return None;
                    },
                };
                let ghost before = values@.map_values(|v: String| v@);
                values.push(string_of(&slice_chars(&d, 0, e)));
                let dn = d.len();
                assert(e + 1 <= dn);
                let rest = slice_chars(&d, e + 1, dn);
                assert(values@.map_values(|v: String| v@) =~= before.push(d@.subrange(0, e as int)));
                proof {
                    match data_values(rest@) {
                        Some(vs) => {
                            assert(before.push(d@.subrange(0, e as int)) + vs =~= before + (seq![d@.subrange(0, e as int)] + vs));
                        },
                        None => {},
                    }
                }
                search = rest;
            },
        }
    }
    assert(values@.map_values(|v: String| v@) + Seq::<Seq<char>>::empty() =~= values@.map_values(|v: String| v@));
    let ttl_secs = ttl_exec(&s);
    Some(DohScan { data_values: values, ttl_secs })
}


/// Where a DNS-over-HTTPS query goes: the server's socket address, the
/// TLS server name, and the request path.
pub struct DohEndpoint {
    pub addr: String,
    pub sni: String,
    pub path: String,
}

/// The endpoint of a provider (`google`, `quad9`, anything else meaning
/// Cloudflare) for an A-record query of `hostname`.
pub fn doh_endpoint(provider: &str, hostname: &str) -> (r: DohEndpoint)
    ensures
        if provider@ == "google"@ {
            r.addr@ == "8.8.8.8:443"@ && r.sni@ == "dns.google"@ && r.path@ == "/resolve?name="@
                + hostname@ + "&type=A"@
        } else if provider@ == "quad9"@ {
            r.addr@ == "9.9.9.9:443"@ && r.sni@ == "dns.quad9.net"@ && r.path@ == "/dns-query?name="@
                + hostname@ + "&type=A"@
        } else {
            r.addr@ == "1.1.1.1:443"@ && r.sni@ == "cloudflare-dns.com"@ && r.path@
                == "/dns-query?name="@ + hostname@ + "&type=A"@
        },
{
    let p = chars_of(provider);
    let (addr, sni, route) = if crate::text::chars_equal(&p, &chars_of("google")) {
        ("8.8.8.8:443", "dns.google", "/resolve?name=")
    } else if crate::text::chars_equal(&p, &chars_of("quad9")) {
        ("9.9.9.9:443", "dns.quad9.net", "/dns-query?name=")
    } else {
        ("1.1.1.1:443", "cloudflare-dns.com", "/dns-query?name=")
    };
    let mut path = string_of(&chars_of(route));
    path.append(hostname);
    path.append("&type=A");
    DohEndpoint { addr: string_of(&chars_of(addr)), sni: string_of(&chars_of(sni)), path }
}

/// The HTTP/1.1 request that asks `sni` for `path` as DNS JSON.
pub fn doh_request_text(path: &str, sni: &str) -> (r: String)
    ensures
        r@ == "GET "@ + path@ + " HTTP/1.1\r\nHost: "@ + sni@
            + "\r\nAccept: application/dns-json\r\nConnection: close\r\n\r\n"@,
{
    let mut text = string_of(&chars_of("GET "));
    text.append(path);
    text.append(" HTTP/1.1\r\nHost: ");
    text.append(sni);
    text.append("\r\nAccept: application/dns-json\r\nConnection: close\r\n\r\n");
    text
}

/// The body of an HTTP response: what follows the first blank line.
pub fn http_body(response: &str) -> (r: Option<String>)
    ensures
        match after(response@, "\r\n\r\n"@) {
            Some(b) => r is Some && r->0@ == b,
            None => r is None,
        },
{
    match after_exec(&chars_of(response), &chars_of("\r\n\r\n")) {
        Some(b) => Some(string_of(&b)),
        None => None,
    }
}

} // verus!
