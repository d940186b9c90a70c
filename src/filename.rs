//! Turning a page title into a safe file name for a saved page.

use vstd::prelude::*;
use crate::text::{chars_of, decimal, push_decimal, string_of};

verus! {

/// Most bytes a file name may take in UTF-8.
pub const MAX_FILENAME_BYTES: usize = 200;

/// A character that file systems refuse in a name.
pub open spec fn is_forbidden(c: char) -> bool {
    c == '/' || c == '\\' || c == ':' || c == '*' || c == '?' || c == '"' || c == '<' || c == '>'
        || c == '|'
}

/// Unicode general category Cc (what `char::is_control` tests).
pub open spec fn is_control(c: char) -> bool {
    (c as u32) <= 0x1f || (0x7f <= (c as u32) && (c as u32) <= 0x9f)
}

/// The Unicode White_Space property (what `char::is_whitespace` and
/// `str::trim` go by).
pub open spec fn is_white(c: char) -> bool {
    let u = c as u32;
    (0x09 <= u && u <= 0x0d) || u == 0x20 || u == 0x85 || u == 0xa0 || u == 0x1680 || (0x2000 <= u
        && u <= 0x200a) || u == 0x2028 || u == 0x2029 || u == 0x202f || u == 0x205f || u == 0x3000
}

/// Bytes that `c` takes in UTF-8.
pub open spec fn utf8_width(c: char) -> nat {
    let u = c as u32;
    if u < 0x80 {
        1
    } else if u < 0x800 {
        2
    } else if u < 0x10000 {
        3
    } else {
        4
    }
}

pub open spec fn replace_unsafe(c: char) -> char {
    if is_forbidden(c) || is_control(c) {
        '_'
    } else {
        c
    }
}

pub open spec fn strip_front_white(s: Seq<char>) -> Seq<char>
    decreases s.len(),
{
    if s.len() > 0 && is_white(s[0]) {
        strip_front_white(s.drop_first())
    } else {
        s
    }
}

pub open spec fn strip_back_white(s: Seq<char>) -> Seq<char>
    decreases s.len(),
{
    if s.len() > 0 && is_white(s.last()) {
        strip_back_white(s.drop_last())
    } else {
        s
    }
}

pub open spec fn strip_back_dots(s: Seq<char>) -> Seq<char>
    decreases s.len(),
{
    if s.len() > 0 && s.last() == '.' {
        strip_back_dots(s.drop_last())
    } else {
        s
    }
}

/// The characters before the first `.`, or all of them.
pub open spec fn stem(s: Seq<char>) -> Seq<char>
    decreases s.len(),
{
    if s.len() == 0 || s[0] == '.' {
        Seq::empty()
    } else {
        seq![s[0]] + stem(s.drop_first())
    }
}

pub open spec fn ascii_upper(c: char) -> char {
    if 'a' <= c && c <= 'z' {
        ((c as u8) - 32) as char
    } else {
        c
    }
}

/// A Windows device name (CON, PRN, AUX, NUL, COM1-9, LPT1-9), in any
/// ASCII case.
pub open spec fn is_reserved_name(s: Seq<char>) -> bool {
    let u = s.map_values(|c: char| ascii_upper(c));
    u == "CON"@ || u == "PRN"@ || u == "AUX"@ || u == "NUL"@ || (u.len() == 4 && (u.subrange(0, 3)
        == "COM"@ || u.subrange(0, 3) == "LPT"@) && '1' <= u[3] && u[3] <= '9')
}

/// The longest prefix of `s` that fits in `budget` bytes of UTF-8.
pub open spec fn fit_prefix(s: Seq<char>, budget: nat) -> Seq<char>
    decreases s.len(),
{
    if s.len() == 0 || utf8_width(s[0]) > budget {
        Seq::empty()
    } else {
        seq![s[0]] + fit_prefix(s.drop_first(), (budget - utf8_width(s[0])) as nat)
    }
}

/// The file name made of `name`: unsafe characters become `_`, white space
/// is trimmed from both ends, then dots from the end, then white space again
/// (a name may not end in a dot or a space), an empty result becomes
/// `page`, a Windows device name gets a leading `_`, and the result is cut
/// to the longest prefix of at most 200 UTF-8 bytes.
pub open spec fn sanitize_spec(name: Seq<char>) -> Seq<char> {
    let mapped = name.map_values(|c: char| replace_unsafe(c));
    let spaced = strip_back_white(strip_front_white(mapped));
    let undotted = strip_back_dots(spaced);
    let trimmed = strip_back_white(strip_front_white(undotted));
    if trimmed.len() == 0 {
        "page"@
    } else {
        let named = if is_reserved_name(stem(trimmed)) {
            "_"@ + trimmed
        } else {
            trimmed
        };
        fit_prefix(named, MAX_FILENAME_BYTES as nat)
    }
}

pub(crate) fn white_exec(c: char) -> (r: bool)
    ensures
        r == is_white(c),
{
    let u = c as u32;
    (0x09 <= u && u <= 0x0d) || u == 0x20 || u == 0x85 || u == 0xa0 || u == 0x1680 || (0x2000 <= u
        && u <= 0x200a) || u == 0x2028 || u == 0x2029 || u == 0x202f || u == 0x205f || u == 0x3000
}

fn width_exec(c: char) -> (r: usize)
    ensures
        r == utf8_width(c),
{
    let u = c as u32;
    if u < 0x80 {
        1
    } else if u < 0x800 {
        2
    } else if u < 0x10000 {
        3
    } else {
        4
    }
}

fn upper_exec(c: char) -> (r: char)
    ensures
        r == ascii_upper(c),
{
    if 'a' <= c && c <= 'z' {
        ((c as u8) - 32) as char
    } else {
        c
    }
}

fn is_trimmed(c: char, dots: bool) -> (r: bool)
    ensures
        r == if dots {
            c == '.'
        } else {
            is_white(c)
        },
{
    if dots {
        c == '.'
    } else {
        white_exec(c)
    }
}

/// Trims white space from both ends when `dots` is false, and dots from
/// the end when it is true.
pub(crate) fn trim_ends(s: &Vec<char>, dots: bool) -> (r: Vec<char>)
    ensures
        r@ == if dots {
            strip_back_dots(s@)
        } else {
            strip_back_white(strip_front_white(s@))
        },
{
    let mut lo: usize = 0;
    assert(s@.subrange(0, s@.len() as int) =~= s@);
    while !dots && lo < s.len() && is_trimmed(s[lo], dots)
        invariant
            lo <= s@.len(),
            dots ==> lo == 0,
            !dots ==> strip_front_white(s@) == strip_front_white(s@.subrange(lo as int, s@.len() as int)),
        decreases s@.len() - lo,
    {
        assert(s@.subrange(lo as int, s@.len() as int).drop_first() =~= s@.subrange(lo + 1, s@.len() as int));
        lo = lo + 1;
    }
    let ghost front = s@.subrange(lo as int, s@.len() as int);
    assert(dots ==> s@ == front);
    assert(!dots ==> strip_front_white(s@) == front);
    let mut hi: usize = s.len();
    assert(front.subrange(0, front.len() as int) =~= front);
    while hi > lo && is_trimmed(s[hi - 1], dots)
        invariant
            lo <= hi <= s@.len(),
            front == s@.subrange(lo as int, s@.len() as int),
            dots ==> strip_back_dots(front) == strip_back_dots(s@.subrange(lo as int, hi as int)),
            !dots ==> strip_back_white(front) == strip_back_white(s@.subrange(lo as int, hi as int)),
        decreases hi,
    {
        assert(s@.subrange(lo as int, hi as int).drop_last() =~= s@.subrange(lo as int, hi - 1));
        hi = hi - 1;
    }
    let mut r: Vec<char> = Vec::new();
    let mut i: usize = lo;
    while i < hi
        invariant
            lo <= i <= hi <= s@.len(),
            r@ == s@.subrange(lo as int, i as int),
        decreases hi - i,
    {
        r.push(s[i]);
        i = i + 1;
        assert(r@ =~= s@.subrange(lo as int, i as int));
    }
    r
}

fn stem_exec(s: &Vec<char>) -> (r: Vec<char>)
    ensures
        r@ == stem(s@),
{
    let mut r: Vec<char> = Vec::new();
    let mut i: usize = 0;
    assert(s@.subrange(0, s@.len() as int) =~= s@);
    while i < s.len() && s[i] != '.'
        invariant
            i <= s@.len(),
            forall|k: int| 0 <= k < i ==> s@[k] != '.',
            r@ == s@.subrange(0, i as int),
            stem(s@) == r@ + stem(s@.subrange(i as int, s@.len() as int)),
        decreases s@.len() - i,
    {
        assert(s@.subrange(i as int, s@.len() as int).drop_first() =~= s@.subrange(i + 1, s@.len() as int));
        r.push(s[i]);
        i = i + 1;
        assert(r@ =~= s@.subrange(0, i as int));
        assert(stem(s@) =~= r@ + stem(s@.subrange(i as int, s@.len() as int)));
    }
    assert(stem(s@.subrange(i as int, s@.len() as int)) =~= Seq::<char>::empty());
    assert(r@ + Seq::<char>::empty() =~= r@);
    r
}

fn reserved_exec(s: &Vec<char>) -> (r: bool)
    ensures
        r == is_reserved_name(s@),
{
    proof {
        reveal_strlit("CON");
        reveal_strlit("PRN");
        reveal_strlit("AUX");
        reveal_strlit("NUL");
        reveal_strlit("COM");
        reveal_strlit("LPT");
    }
    let ghost u = s@.map_values(|c: char| ascii_upper(c));
    assert("CON"@ =~= seq!['C', 'O', 'N']);
    assert("PRN"@ =~= seq!['P', 'R', 'N']);
    assert("AUX"@ =~= seq!['A', 'U', 'X']);
    assert("NUL"@ =~= seq!['N', 'U', 'L']);
    assert("COM"@ =~= seq!['C', 'O', 'M']);
    assert("LPT"@ =~= seq!['L', 'P', 'T']);
    let n = s.len();
    if n != 3 && n != 4 {
        assert(u.len() == n);
        return false;
    }
    let a = upper_exec(s[0]);
    let b = upper_exec(s[1]);
    let c = upper_exec(s[2]);
    assert(u[0] == a && u[1] == b && u[2] == c);
    if n == 3 {
        let r = (a == 'C' && b == 'O' && c == 'N') || (a == 'P' && b == 'R' && c == 'N') || (a == 'A'
            && b == 'U' && c == 'X') || (a == 'N' && b == 'U' && c == 'L');
        assert(u =~= seq![a, b, c]);
        r
    } else {
        let d = upper_exec(s[3]);
        assert(u[3] == d);
        let r = ((a == 'C' && b == 'O' && c == 'M') || (a == 'L' && b == 'P' && c == 'T')) && '1' <= d
            && d <= '9';
        assert(r == is_reserved_name(s@)) by {
            assert(u.subrange(0, 3) =~= seq![a, b, c]);
        }
        r
    }
}

fn fit_exec(s: &Vec<char>, budget: usize) -> (r: Vec<char>)
    ensures
        r@ == fit_prefix(s@, budget as nat),
{
    let mut r: Vec<char> = Vec::new();
    let mut left: usize = budget;
    let mut i: usize = 0;
    assert(s@.subrange(0, s@.len() as int) =~= s@);
    while i < s.len() && width_exec(s[i]) <= left
        invariant
            i <= s@.len(),
            left <= budget,
            r@ == s@.subrange(0, i as int),
            fit_prefix(s@, budget as nat) == r@ + fit_prefix(s@.subrange(i as int, s@.len() as int), left as nat),
        decreases s@.len() - i,
    {
        let w = width_exec(s[i]);
        assert(s@.subrange(i as int, s@.len() as int).drop_first() =~= s@.subrange(i + 1, s@.len() as int));
        r.push(s[i]);
        left = left - w;
        i = i + 1;
        assert(r@ =~= s@.subrange(0, i as int));
        assert(fit_prefix(s@, budget as nat) =~= r@ + fit_prefix(s@.subrange(i as int, s@.len() as int), left as nat));
    }
    assert(fit_prefix(s@.subrange(i as int, s@.len() as int), left as nat) =~= Seq::<char>::empty());
    assert(r@ + Seq::<char>::empty() =~= r@);
    r
}

/// Turns a page title into a file name that is safe on common file systems.
pub fn sanitize_filename(name: &str) -> (r: String)
    ensures
        r@ == sanitize_spec(name@),
{
    proof {
        reveal_strlit("page");
        reveal_strlit("_");
    }
    let s = chars_of(name);
    let mut mapped: Vec<char> = Vec::new();
    let mut i: usize = 0;
    while i < s.len()
        invariant
            i <= s@.len(),
            mapped@ == s@.subrange(0, i as int).map_values(|c: char| replace_unsafe(c)),
        decreases s@.len() - i,
    {
        let c = s[i];
        let u = c as u32;
        let bad = c == '/' || c == '\\' || c == ':' || c == '*' || c == '?' || c == '"' || c == '<'
            || c == '>' || c == '|' || u <= 0x1f || (0x7f <= u && u <= 0x9f);
        mapped.push(if bad { '_' } else { c });
        i = i + 1;
        assert(mapped@ =~= s@.subrange(0, i as int).map_values(|c: char| replace_unsafe(c)));
    }
    assert(s@.subrange(0, s@.len() as int) =~= s@);
    let spaced = trim_ends(&mapped, false);
    let undotted = trim_ends(&spaced, true);
    let trimmed = trim_ends(&undotted, false);
    if trimmed.len() == 0 {
        return string_of(&chars_of("page"));
    }
    let st = stem_exec(&trimmed);
    let named = if reserved_exec(&st) {
        let mut v = chars_of("_");
        let mut t = trimmed.clone();
        v.append(&mut t);
        v
    } else {
        trimmed
    };
    let fitted = fit_exec(&named, MAX_FILENAME_BYTES);
    string_of(&fitted)
}


/// The name tried for the `n`-th copy of a file: `stem (n).ext`.
pub fn numbered_file_name(stem: &str, n: u32, ext: &str) -> (r: String)
    ensures
        r@ == stem@ + " ("@ + decimal(n as nat) + ")."@ + ext@,
{
    let mut out = chars_of(stem);
    let mut open = chars_of(" (");
    out.append(&mut open);
    push_decimal(&mut out, n as u64);
    let mut close = chars_of(").");
    out.append(&mut close);
    let mut tail = chars_of(ext);
    out.append(&mut tail);
    string_of(&out)
}


/// The highest copy number tried before falling back to a time stamp.
pub const MAX_NUMBERED_COPY: u32 = 999;

/// The name used once every numbered copy is taken: `stem_<millis>.ext`.
pub fn timestamped_file_name(stem: &str, millis: u64, ext: &str) -> (r: String)
    ensures
        r@ == stem@ + "_"@ + decimal(millis as nat) + "."@ + ext@,
{
    let mut out = chars_of(stem);
    let mut sep = chars_of("_");
    out.append(&mut sep);
    push_decimal(&mut out, millis);
    let mut dot = chars_of(".");
    out.append(&mut dot);
    let mut tail = chars_of(ext);
    out.append(&mut tail);
    string_of(&out)
}

} // verus!
