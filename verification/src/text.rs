//! Text helpers on `str`/`String` with contracts over their character
//! sequences.

use vstd::prelude::*;
use vstd::utf8::{decode_utf8, valid_utf8};

verus! {

/// `needle` occurs in `hay` starting at character index `i`.
pub open spec fn occurs_at(hay: Seq<char>, needle: Seq<char>, i: int) -> bool {
    &&& 0 <= i
    &&& i + needle.len() <= hay.len()
    &&& hay.subrange(i, i + needle.len()) == needle
}

/// `needle` occurs somewhere in `hay`.
pub open spec fn contains_seq(hay: Seq<char>, needle: Seq<char>) -> bool {
    exists|i: int| occurs_at(hay, needle, i)
}

/// The characters of `s`, one by one.
pub fn chars_of(s: &str) -> (v: Vec<char>)
    ensures
        v@ == s@,
{
    let n = s.unicode_len();
    let mut v: Vec<char> = Vec::new();
    let mut i: usize = 0;
    while i < n
        invariant
            n == s@.len(),
            i <= n,
            v@ == s@.subrange(0, i as int),
        decreases n - i,
    {
        v.push(s.get_char(i));
        i = i + 1;
    }
    v
}

fn matches_at(hay: &Vec<char>, needle: &Vec<char>, i: usize) -> (r: bool)
    requires
        i + needle@.len() <= hay@.len(),
    ensures
        r == (hay@.subrange(i as int, i + needle@.len()) == needle@),
{
    let hay_len = hay.len();
    let mut j: usize = 0;
    while j < needle.len()
        invariant
            hay_len == hay@.len(),
            i + needle@.len() <= hay@.len(),
            j <= needle@.len(),
            forall|k: int| 0 <= k < j ==> hay@[i + k] == needle@[k],
        decreases needle@.len() - j,
    {
        if hay[i + j] != needle[j] {
            assert(hay@.subrange(i as int, i + needle@.len())[j as int] != needle@[j as int]);
            return false;
        }
        j = j + 1;
    }
    assert(hay@.subrange(i as int, i + needle@.len()) =~= needle@);
    true
}

/// Whether `needle` occurs in `hay` (as `str::contains` with a `&str` pattern).
pub fn contains_text(hay: &str, needle: &str) -> (r: bool)
    ensures
        r == contains_seq(hay@, needle@),
{
    let h = chars_of(hay);
    let n = chars_of(needle);
    if n.len() > h.len() {
        assert forall|i: int| !occurs_at(hay@, needle@, i) by {}
        return false;
    }
    let last = h.len() - n.len();
    let mut i: usize = 0;
    loop
        invariant
            h@ == hay@,
            n@ == needle@,
            last == h@.len() - n@.len(),
            n@.len() <= h@.len(),
            i <= last,
            forall|k: int| 0 <= k < i ==> !occurs_at(hay@, needle@, k),
        decreases last - i,
    {
        if matches_at(&h, &n, i) {
            assert(occurs_at(hay@, needle@, i as int));
            return true;
        }
        if i == last {
            assert forall|k: int| !occurs_at(hay@, needle@, k) by {
                if 0 <= k && k < i {
                }
            }
            return false;
        }
        i = i + 1;
    }
}

/// Whether `s` starts with `prefix`.
pub fn has_prefix(s: &str, prefix: &str) -> (r: bool)
    ensures
        r == prefix@.is_prefix_of(s@),
{
    let h = chars_of(s);
    let p = chars_of(prefix);
    if p.len() > h.len() {
        return false;
    }
    let r = matches_at(&h, &p, 0);
    assert(r == (s@.subrange(0, prefix@.len() as int) == prefix@));
    r
}

/// Whether `a` and `b` are the same text.
pub fn text_eq(a: &str, b: &str) -> (r: bool)
    ensures
        r == (a@ == b@),
{
    let x = chars_of(a);
    let y = chars_of(b);
    if x.len() != y.len() {
        return false;
    }
    let r = matches_at(&x, &y, 0);
    assert(a@.subrange(0, b@.len() as int) =~= a@);
    r
}

/// The first index of `args` that holds `flag`, if any.
pub open spec fn is_first_index(args: Seq<Seq<char>>, flag: Seq<char>, p: int) -> bool {
    &&& 0 <= p < args.len()
    &&& args[p] == flag
    &&& forall|j: int| 0 <= j < p ==> args[j] != flag
}

/// The position of the first argument equal to `flag`.
pub fn position_of(args: &Vec<String>, flag: &str) -> (r: Option<usize>)
    ensures
        r matches Some(p) ==> is_first_index(args.deep_view(), flag@, p as int),
        r is None ==> forall|j: int| 0 <= j < args@.len() ==> args.deep_view()[j] != flag@,
{
    let ghost a = args.deep_view();
    let mut i: usize = 0;
    while i < args.len()
        invariant
            a == args.deep_view(),
            i <= a.len(),
            forall|j: int| 0 <= j < i ==> a[j] != flag@,
        decreases a.len() - i,
    {
        if text_eq(args[i].as_str(), flag) {
            return Some(i);
        }
        i = i + 1;
    }
    None
}

/// `a` followed by `b`.
pub fn join_text(a: &str, b: &str) -> (r: String)
    ensures
        r@ == a@ + b@,
{
    let mut r = String::from_str(a);
    r.append(b);
    r
}

/// The decimal digit character for `d` (`d < 10`).
pub open spec fn digit_char(d: nat) -> char {
    if d == 0 {
        '0'
    } else if d == 1 {
        '1'
    } else if d == 2 {
        '2'
    } else if d == 3 {
        '3'
    } else if d == 4 {
        '4'
    } else if d == 5 {
        '5'
    } else if d == 6 {
        '6'
    } else if d == 7 {
        '7'
    } else if d == 8 {
        '8'
    } else {
        '9'
    }
}

/// The decimal notation of `n`, without sign or leading zeros.
pub open spec fn decimal(n: nat) -> Seq<char>
    decreases n,
{
    if n < 10 {
        seq![digit_char(n)]
    } else {
        decimal(n / 10).push(digit_char(n % 10))
    }
}

fn digit_text(d: u32) -> (r: &'static str)
    requires
        d < 10,
    ensures
        r@ == seq![digit_char(d as nat)],
{
    proof {
        reveal_strlit("0");
        reveal_strlit("1");
        reveal_strlit("2");
        reveal_strlit("3");
        reveal_strlit("4");
        reveal_strlit("5");
        reveal_strlit("6");
        reveal_strlit("7");
        reveal_strlit("8");
        reveal_strlit("9");
    }
    if d == 0 {
        "0"
    } else if d == 1 {
        "1"
    } else if d == 2 {
        "2"
    } else if d == 3 {
        "3"
    } else if d == 4 {
        "4"
    } else if d == 5 {
        "5"
    } else if d == 6 {
        "6"
    } else if d == 7 {
        "7"
    } else if d == 8 {
        "8"
    } else {
        "9"
    }
}

/// `n` written in decimal, as `u32::to_string` writes it.
pub fn decimal_text(n: u32) -> (r: String)
    ensures
        r@ == decimal(n as nat),
    decreases n,
{
    if n < 10 {
        String::from_str(digit_text(n))
    } else {
        let head = decimal_text(n / 10);
        let r = join_text(head.as_str(), digit_text(n % 10));
        assert(r@ == decimal((n / 10) as nat) + seq![digit_char((n % 10) as nat)]);
        r
    }
}

/// A single relative path component: not empty, no separator or drive
/// colon, and not `.` or `..`.
pub open spec fn plain_component(c: Seq<char>) -> bool {
    &&& c.len() > 0
    &&& c != seq!['.']
    &&& c != seq!['.', '.']
    &&& forall|i: int| 0 <= i < c.len() ==> c[i] != '/' && c[i] != '\\' && c[i] != ':'
}

/// `dir` carries a Windows verbatim prefix (`\\?\`).
pub open spec fn verbatim_path(dir: Seq<char>) -> bool {
    seq!['\\', '\\', '?', '\\'].is_prefix_of(dir)
}

/// `p` is `dir` with `name` adjoined: directly, when `dir` is empty or ends in
/// a separator or a colon, else after a `/` or a `\` separator.
pub open spec fn child_path_of(p: Seq<char>, dir: Seq<char>, name: Seq<char>) -> bool {
    ||| (p == dir + name && (dir.len() == 0 || dir.last() == '/' || dir.last() == '\\'
        || dir.last() == ':'))
    ||| p == dir + seq!['/'] + name
    ||| p == dir + seq!['\\'] + name
}

/// What adjoining `name` to `dir` gives, whichever platform the path rules
/// come from: a child path for a plain component and a non-verbatim `dir`.
pub open spec fn joined(p: Seq<char>, dir: Seq<char>, name: Seq<char>) -> bool {
    plain_component(name) && !verbatim_path(dir) ==> child_path_of(p, dir, name)
}

/// `std::path::Path::join` on `base` and `child`, returned as text.
/// The separator comes from the platform the crate is built for (`/` on Unix,
/// `\` on Windows), so the contract states only what holds on every platform:
/// for a plain component adjoined to a non-verbatim path, the result is `base`
/// then `child`, with one separator between them unless `base` is empty or
/// already ends in a separator or colon. Nothing is stated for other inputs
/// (absolute children, `..`, verbatim prefixes), where `push` replaces or
/// normalises.
#[verifier::external_body]
pub(crate) fn path_join(base: &str, child: &str) -> (r: String)
    ensures
        joined(r@, base@, child@),
{
    std::path::Path::new(base).join(child).to_string_lossy().into_owned()
}

/// What `String::from_utf8_lossy` makes of `bytes`.
pub uninterp spec fn utf8_lossy(bytes: Seq<u8>) -> Seq<char>;

/// `String::from_utf8_lossy`, owned. Its documentation states that a valid
/// UTF-8 input is decoded as is; invalid sequences become U+FFFD, which is
/// left to the name `utf8_lossy`.
#[verifier::external_body]
pub(crate) fn decode_utf8_lossy(bytes: &[u8]) -> (s: String)
    ensures
        s@ == utf8_lossy(bytes@),
        valid_utf8(bytes@) ==> s@ == decode_utf8(bytes@),
{
    String::from_utf8_lossy(bytes).into_owned()
}

} // verus!
