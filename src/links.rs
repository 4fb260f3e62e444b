//! Small text rules for the addresses that sources hand to the controller:
//! absolute URLs, image sources out of `srcset` or CSS values, and tag slugs.
use vstd::prelude::*;

verus! {

pub open spec fn starts_with(s: Seq<char>, p: Seq<char>) -> bool {
    p.len() <= s.len() && s.subrange(0, p.len() as int) == p
}

pub open spec fn ends_with(s: Seq<char>, p: Seq<char>) -> bool {
    p.len() <= s.len() && s.subrange(s.len() - p.len(), s.len() as int) == p
}

/// Whether `s[at..]` starts with `p`, char by char.
fn matches_at(s: &str, at: usize, p: &str) -> (r: bool)
    requires
        at <= s@.len(),
    ensures
        r == starts_with(s@.subrange(at as int, s@.len() as int), p@),
{
    let n = s.unicode_len();
    let m = p.unicode_len();
    if m > n - at {
        return false;
    }
    let mut k: usize = 0;
    while k < m
        invariant
            n == s@.len(),
            m == p@.len(),
            at + m <= n,
            k <= m,
            forall|j: int| 0 <= j < k ==> s@[at + j] == p@[j],
        decreases m - k,
    {
        if s.get_char(at + k) != p.get_char(k) {
            assert(s@.subrange(at as int, s@.len() as int).subrange(0, m as int)[k as int]
                != p@[k as int]);
            return false;
        }
        k = k + 1;
    }
    assert(s@.subrange(at as int, s@.len() as int).subrange(0, m as int) =~= p@);
    true
}

/// Whether `s[..end]` ends with `p`.
fn matches_before(s: &str, end: usize, p: &str) -> (r: bool)
    requires
        end <= s@.len(),
    ensures
        r == ends_with(s@.subrange(0, end as int), p@),
{
    let m = p.unicode_len();
    if m > end {
        return false;
    }
    let at = end - m;
    let mut k: usize = 0;
    while k < m
        invariant
            m == p@.len(),
            at + m == end,
            end <= s@.len(),
            k <= m,
            forall|j: int| 0 <= j < k ==> s@[at + j] == p@[j],
        decreases m - k,
    {
        if s.get_char(at + k) != p.get_char(k) {
            assert(s@.subrange(0, end as int).subrange(at as int, end as int)[k as int]
                != p@[k as int]);
            return false;
        }
        k = k + 1;
    }
    assert(s@.subrange(0, end as int).subrange(at as int, end as int) =~= p@);
    true
}

/// `s` without its trailing slashes.
pub open spec fn trim_end_slashes(s: Seq<char>) -> Seq<char>
    decreases s.len(),
{
    if s.len() > 0 && s.last() == '/' {
        trim_end_slashes(s.drop_last())
    } else {
        s
    }
}

/// An address made absolute against `base`: absolute URLs stay as they are,
/// scheme-relative ones get `https:`, and paths are joined to `base` without
/// its trailing slashes (with a slash between them for relative paths).
pub open spec fn absolute_url_of(href: Seq<char>, base: Seq<char>) -> Seq<char> {
    if starts_with(href, "http://"@) || starts_with(href, "https://"@) {
        href
    } else if starts_with(href, "//"@) {
        "https:"@ + href
    } else if starts_with(href, "/"@) {
        trim_end_slashes(base) + href
    } else {
        trim_end_slashes(base) + "/"@ + href
    }
}

fn base_without_trailing_slashes(base: &str) -> (r: &str)
    ensures
        r@ == trim_end_slashes(base@),
{
    let mut end = base.unicode_len();
    assert(base@.subrange(0, end as int) =~= base@);
    while end > 0 && base.get_char(end - 1) == '/'
        invariant
            end <= base@.len(),
            trim_end_slashes(base@) == trim_end_slashes(base@.subrange(0, end as int)),
        decreases end,
    {
        assert(base@.subrange(0, end as int).drop_last() =~= base@.subrange(0, end - 1));
        end = end - 1;
    }
    base.substring_char(0, end)
}

pub fn absolute_url(href: &str, base: &str) -> (r: String)
    ensures
        r@ == absolute_url_of(href@, base@),
{
    proof {
        assert(href@.subrange(0, href@.len() as int) =~= href@);
    }
    if matches_at(href, 0, "http://") || matches_at(href, 0, "https://") {
        String::from_str(href)
    } else if matches_at(href, 0, "//") {
        let mut r = String::from_str("https:");
        r.append(href);
        r
    } else if matches_at(href, 0, "/") {
        let mut r = String::from_str(base_without_trailing_slashes(base));
        r.append(href);
        r
    } else {
        let mut r = String::from_str(base_without_trailing_slashes(base));
        r.append("/");
        r.append(href);
        r
    }
}

/// Unicode `White_Space`, the characters that `char::is_whitespace` accepts.
pub open spec fn is_whitespace(c: char) -> bool {
    ('\t' <= c <= '\r') || c == ' ' || c == '\u{85}' || c == '\u{a0}' || c == '\u{1680}' || (
    '\u{2000}' <= c <= '\u{200a}') || c == '\u{2028}' || c == '\u{2029}' || c == '\u{202f}' || c
        == '\u{205f}' || c == '\u{3000}'
}

fn is_whitespace_char(c: char) -> (r: bool)
    ensures
        r == is_whitespace(c),
{
    ('\t' <= c && c <= '\r') || c == ' ' || c == '\u{85}' || c == '\u{a0}' || c == '\u{1680}' || (
    '\u{2000}' <= c && c <= '\u{200a}') || c == '\u{2028}' || c == '\u{2029}' || c == '\u{202f}'
        || c == '\u{205f}' || c == '\u{3000}'
}

/// `s` without leading and trailing whitespace.
pub open spec fn trim_of(s: Seq<char>) -> Seq<char> {
    trim_back(trim_front(s))
}

pub open spec fn trim_front(s: Seq<char>) -> Seq<char>
    decreases s.len(),
{
    if s.len() > 0 && is_whitespace(s[0]) {
        trim_front(s.drop_first())
    } else {
        s
    }
}

pub open spec fn trim_back(s: Seq<char>) -> Seq<char>
    decreases s.len(),
{
    if s.len() > 0 && is_whitespace(s.last()) {
        trim_back(s.drop_last())
    } else {
        s
    }
}

/// `s` with every leading repetition of `p` removed.
pub open spec fn strip_prefixes(s: Seq<char>, p: Seq<char>) -> Seq<char>
    decreases s.len(),
{
    if p.len() > 0 && starts_with(s, p) {
        strip_prefixes(s.subrange(p.len() as int, s.len() as int), p)
    } else {
        s
    }
}

/// `s` with every trailing repetition of `p` removed.
pub open spec fn strip_suffixes(s: Seq<char>, p: Seq<char>) -> Seq<char>
    decreases s.len(),
{
    if p.len() > 0 && ends_with(s, p) {
        strip_suffixes(s.subrange(0, s.len() - p.len()), p)
    } else {
        s
    }
}

/// The characters before the first ',' (all of them when there is none).
pub open spec fn first_segment(s: Seq<char>) -> Seq<char>
    decreases s.len(),
{
    if s.len() == 0 || s[0] == ',' {
        Seq::empty()
    } else {
        seq![s[0]] + first_segment(s.drop_first())
    }
}

/// The image address in a `srcset` or CSS value: its first comma-separated
/// entry, trimmed, out of any `url(...)` wrapping with double, single or no
/// quotes.
pub open spec fn image_source_of(v: Seq<char>) -> Seq<char> {
    let t = trim_of(first_segment(v));
    let a = strip_prefixes(strip_prefixes(strip_prefixes(t, "url(\""@), "url('"@), "url("@);
    strip_suffixes(strip_suffixes(strip_suffixes(a, "\")"@), "')"@), ")"@)
}

/// The sub-range `[from, to)` of `s`, narrowed by removing every leading
/// repetition of `p`.
fn strip_prefixes_in(s: &str, from: usize, to: usize, p: &str) -> (r: usize)
    requires
        from <= to <= s@.len(),
    ensures
        from <= r <= to,
        s@.subrange(r as int, to as int) == strip_prefixes(s@.subrange(from as int, to as int), p@),
{
    let m = p.unicode_len();
    if m == 0 {
        return from;
    }
    let mut at = from;
    while m <= to - at && matches_at(&s.substring_char(0, to), at, p)
        invariant
            from <= at <= to <= s@.len(),
            m == p@.len(),
            m > 0,
            strip_prefixes(s@.subrange(from as int, to as int), p@) == strip_prefixes(
                s@.subrange(at as int, to as int),
                p@,
            ),
        decreases to - at,
    {
        let ghost cur = s@.subrange(at as int, to as int);
        proof {
            assert(s@.subrange(0, to as int).subrange(at as int, to as int) =~= cur);
            assert(cur.subrange(m as int, cur.len() as int) =~= s@.subrange(at + m, to as int));
        }
        at = at + m;
    }
    proof {
        let cur = s@.subrange(at as int, to as int);
        assert(s@.subrange(0, to as int).subrange(at as int, to as int) =~= cur);
    }
    at
}

/// The sub-range `[from, to)` of `s`, narrowed by removing every trailing
/// repetition of `p`.
fn strip_suffixes_in(s: &str, from: usize, to: usize, p: &str) -> (r: usize)
    requires
        from <= to <= s@.len(),
    ensures
        from <= r <= to,
        s@.subrange(from as int, r as int) == strip_suffixes(s@.subrange(from as int, to as int), p@),
{
    let m = p.unicode_len();
    if m == 0 {
        return to;
    }
    let mut end = to;
    while end - from >= m && matches_before(&s.substring_char(from, s.unicode_len()), end - from, p)
        invariant
            from <= end <= to <= s@.len(),
            m == p@.len(),
            m > 0,
            strip_suffixes(s@.subrange(from as int, to as int), p@) == strip_suffixes(
                s@.subrange(from as int, end as int),
                p@,
            ),
        decreases end,
    {
        let ghost cur = s@.subrange(from as int, end as int);
        proof {
            assert(s@.subrange(from as int, s@.len() as int).subrange(0, end - from) =~= cur);
            assert(cur.subrange(0, cur.len() - m) =~= s@.subrange(from as int, end - m));
        }
        end = end - m;
    }
    proof {
        let cur = s@.subrange(from as int, end as int);
        assert(s@.subrange(from as int, s@.len() as int).subrange(0, end - from) =~= cur);
    }
    end
}

proof fn lemma_first_segment(s: Seq<char>, k: int)
    requires
        0 <= k <= s.len(),
        forall|j: int| 0 <= j < k ==> s[j] != ',',
        k == s.len() || s[k] == ',',
    ensures
        first_segment(s) == s.subrange(0, k),
    decreases k,
{
    if k > 0 {
        lemma_first_segment(s.drop_first(), k - 1);
        assert(s.subrange(0, k) =~= seq![s[0]] + s.drop_first().subrange(0, k - 1));
    } else {
        assert(s.subrange(0, k) =~= Seq::<char>::empty());
    }
}

pub fn pick_image_source(value: &str) -> (r: String)
    ensures
        r@ == image_source_of(value@),
{
    let n = value.unicode_len();
    let mut k: usize = 0;
    while k < n && value.get_char(k) != ','
        invariant
            n == value@.len(),
            k <= n,
            forall|j: int| 0 <= j < k ==> value@[j] != ',',
        decreases n - k,
    {
        k = k + 1;
    }
    proof {
        lemma_first_segment(value@, k as int);
    }
    let mut lo: usize = 0;
    while lo < k && is_whitespace_char(value.get_char(lo))
        invariant
            lo <= k <= n,
            n == value@.len(),
            trim_front(value@.subrange(0, k as int)) == trim_front(
                value@.subrange(lo as int, k as int),
            ),
        decreases k - lo,
    {
        assert(value@.subrange(lo as int, k as int).drop_first() =~= value@.subrange(
            lo + 1,
            k as int,
        ));
        lo = lo + 1;
    }
    let mut hi: usize = k;
    while hi > lo && is_whitespace_char(value.get_char(hi - 1))
        invariant
            lo <= hi <= k <= n,
            n == value@.len(),
            trim_back(value@.subrange(lo as int, k as int)) == trim_back(
                value@.subrange(lo as int, hi as int),
            ),
        decreases hi,
    {
        assert(value@.subrange(lo as int, hi as int).drop_last() =~= value@.subrange(
            lo as int,
            hi - 1,
        ));
        hi = hi - 1;
    }
    let a = strip_prefixes_in(value, lo, hi, "url(\"");
    let b = strip_prefixes_in(value, a, hi, "url('");
    let c = strip_prefixes_in(value, b, hi, "url(");
    let d = strip_suffixes_in(value, c, hi, "\")");
    let e = strip_suffixes_in(value, c, d, "')");
    let f = strip_suffixes_in(value, c, e, ")");
    String::from_str(value.substring_char(c, f))
}

pub open spec fn is_ascii_alnum(c: char) -> bool {
    ('a' <= c <= 'z') || ('A' <= c <= 'Z') || ('0' <= c <= '9')
}

/// The slug of the first `n` characters of `s`, with whether it ends inside
/// a run of alphanumerics.
pub open spec fn slug_prefix(s: Seq<char>, n: int) -> (Seq<char>, bool)
    decreases n,
{
    if n <= 0 {
        (Seq::empty(), false)
    } else {
        let (acc, in_run) = slug_prefix(s, n - 1);
        let c = s[n - 1];
        if !is_ascii_alnum(c) {
            (acc, false)
        } else if !in_run && acc.len() > 0 {
            (acc + seq!['-', c], true)
        } else {
            (acc.push(c), true)
        }
    }
}

/// The runs of ASCII letters and digits of `s`, joined by '-'.
pub open spec fn slug_of(s: Seq<char>) -> Seq<char> {
    slug_prefix(s, s.len() as int).0
}

/// What `str::to_lowercase` returns for a string.
pub uninterp spec fn lower_of(s: Seq<char>) -> Seq<char>;

/// Relies on `str::to_lowercase`: the lowercase mapping of each character,
/// which depends on the characters alone.
#[verifier::external_body]
fn lowercase(s: &str) -> (r: String)
    ensures
        r@ == lower_of(s@),
{
    s.to_lowercase()
}

/// The slug of an already lowercased query: its runs of ASCII letters and
/// digits, joined by '-'.
pub fn slug_of_lowered(low: &str) -> (r: String)
    ensures
        r@ == slug_of(low@),
{
    let n = low.unicode_len();
    let mut out = String::new();
    let mut in_run = false;
    let mut i: usize = 0;
    proof {
        reveal_strlit("-");
    }
    while i < n
        invariant
            n == low@.len(),
            i <= n,
            (out@, in_run) == slug_prefix(low@, i as int),
            "-"@ == seq!['-'],
        decreases n - i,
    {
        let c = low.get_char(i);
        if ('a' <= c && c <= 'z') || ('A' <= c && c <= 'Z') || ('0' <= c && c <= '9') {
            if !in_run && out.unicode_len() > 0 {
                out.append("-");
            }
            let piece = low.substring_char(i, i + 1);
            assert(piece@ =~= seq![c]);
            out.append(piece);
            in_run = true;
        } else {
            in_run = false;
        }
        i = i + 1;
    }
    out
}

/// The tag slug of a search query: the slug of its lowercase form.
pub fn motionbgs_tag_slug(query: &str) -> (r: String)
    ensures
        r@ == slug_of(lower_of(query@)),
{
    let low = lowercase(query);
    slug_of_lowered(low.as_str())
}

} // verus!
