//! Keys and links: deriving stable keys from page URLs, building the site's
//! URLs, and resolving deep links.
use vstd::prelude::*;
use crate::text::{chars_of, string_of, replace_all, replaced, replaced_from, occurs_at, occurs_at_exec};

verus! {

/// The site's root URL.
pub const BASE_URL: &'static str = "https://utoon.net";

/// The site's root URL, as characters.
pub open spec fn base_seq() -> Seq<char> {
    BASE_URL@
}

/// The path segment that precedes a series key.
pub open spec fn manga_seg() -> Seq<char> {
    "/manga/"@
}

/// The key of a series page URL: the root URL, the series segment and every
/// remaining slash removed.
pub open spec fn key_of(url: Seq<char>) -> Seq<char> {
    replaced(replaced(replaced(url, base_seq(), Seq::empty()), manga_seg(), Seq::empty()), seq!['/'], Seq::empty())
}

/// The first index at or after `i` not holding a slash.
pub open spec fn skip_slashes(s: Seq<char>, i: int) -> int
    decreases s.len() - i,
{
    if 0 <= i < s.len() && s[i] == '/' {
        skip_slashes(s, i + 1)
    } else {
        i
    }
}

/// The end of `s` up to `j` once the slashes before `j` and after `lo` are dropped.
pub open spec fn back_slashes(s: Seq<char>, lo: int, j: int) -> int
    decreases j - lo,
{
    if lo < j && j <= s.len() && s[j - 1] == '/' {
        back_slashes(s, lo, j - 1)
    } else {
        j
    }
}

/// `s` without its leading and trailing slashes.
pub open spec fn trim_slashes(s: Seq<char>) -> Seq<char> {
    let a = skip_slashes(s, 0);
    s.subrange(a, back_slashes(s, a, s.len() as int))
}

/// The key of a chapter URL: the root URL removed, then the slashes at both ends.
pub open spec fn chapter_key_of(url: Seq<char>) -> Seq<char> {
    trim_slashes(replaced(url, base_seq(), Seq::empty()))
}

/// The detail page URL of the series with key `key`.
pub open spec fn detail_url_of(key: Seq<char>) -> Seq<char> {
    base_seq() + manga_seg() + key + seq!['/']
}

/// Appends `s` to `out`.
pub fn push_all(out: &mut Vec<char>, s: &Vec<char>)
    ensures
        final(out)@ == old(out)@ + s@,
{
    let mut i: usize = 0;
    while i < s.len()
        invariant
            i <= s.len(),
            out@ == old(out)@ + s@.subrange(0, i as int),
        decreases s.len() - i,
    {
        out.push(s[i]);
        i = i + 1;
        assert(out@ =~= old(out)@ + s@.subrange(0, i as int));
    }
    assert(s@.subrange(0, s@.len() as int) =~= s@);
}

/// The key of a series from its page URL.
pub fn series_key(url: &str) -> (r: String)
    ensures
        r@ == key_of(url@),
{
    proof {
        reveal_strlit("https://utoon.net");
        reveal_strlit("/manga/");
        reveal_strlit("/");
    }
    let u = chars_of(url);
    let empty: Vec<char> = Vec::new();
    let a = replace_all(&u, &chars_of(BASE_URL), &empty);
    let b = replace_all(&a, &chars_of("/manga/"), &empty);
    let c = replace_all(&b, &chars_of("/"), &empty);
    assert("/"@ =~= seq!['/']);
    string_of(&c)
}

/// The key of a chapter from its URL.
pub fn chapter_key(url: &str) -> (r: String)
    ensures
        r@ == chapter_key_of(url@),
{
    proof {
        reveal_strlit("https://utoon.net");
    }
    let u = chars_of(url);
    let empty: Vec<char> = Vec::new();
    let s = replace_all(&u, &chars_of(BASE_URL), &empty);
    let mut a: usize = 0;
    while a < s.len() && s[a] == '/'
        invariant
            a <= s.len(),
            skip_slashes(s@, 0) == skip_slashes(s@, a as int),
        decreases s.len() - a,
    {
        a = a + 1;
    }
    let mut b: usize = s.len();
    while a < b && s[b - 1] == '/'
        invariant
            a <= b <= s.len(),
            back_slashes(s@, a as int, s@.len() as int) == back_slashes(s@, a as int, b as int),
        decreases b - a,
    {
        b = b - 1;
    }
    let mut out: Vec<char> = Vec::new();
    let mut i: usize = a;
    while i < b
        invariant
            a <= i <= b <= s.len(),
            out@ == s@.subrange(a as int, i as int),
        decreases b - i,
    {
        out.push(s[i]);
        i = i + 1;
        assert(out@ =~= s@.subrange(a as int, i as int));
    }
    string_of(&out)
}

/// The detail page URL of the series with key `key`.
pub fn detail_url(key: &str) -> (r: String)
    ensures
        r@ == detail_url_of(key@),
{
    proof {
        reveal_strlit("/manga/");
        reveal_strlit("/");
    }
    let mut out = chars_of(BASE_URL);
    push_all(&mut out, &chars_of("/manga/"));
    push_all(&mut out, &chars_of(key));
    push_all(&mut out, &chars_of("/"));
    assert("/"@ =~= seq!['/']);
    string_of(&out)
}

/// What a deep link resolves to.
#[derive(Clone, Debug)]
pub enum DeepLink {
    Series { key: String },
}

/// The first index at or after `i` where `p` occurs in `s`.
pub open spec fn find_from(s: Seq<char>, p: Seq<char>, i: int) -> Option<int>
    decreases s.len() + 1 - i,
{
    if i < 0 || i > s.len() {
        None
    } else if occurs_at(s, p, i) {
        Some(i)
    } else {
        find_from(s, p, i + 1)
    }
}

/// The first index at or after `i` holding a slash, or the end of `s`.
pub open spec fn slash_from(s: Seq<char>, i: int) -> int
    decreases s.len() - i,
{
    if 0 <= i < s.len() && s[i] != '/' {
        slash_from(s, i + 1)
    } else {
        i
    }
}

/// The series key of a link: the non-empty path segment right after the
/// first "/manga/"; none when there is no such segment.
pub open spec fn link_key(url: Seq<char>) -> Option<Seq<char>> {
    match find_from(url, manga_seg(), 0) {
        Some(f) => {
            let st = f + manga_seg().len();
            let e = slash_from(url, st);
            if e > st {
                Some(url.subrange(st, e))
            } else {
                None
            }
        },
        None => None,
    }
}

/// Resolves a link to the series it names, if it names one.
pub fn parse_deep_link(url: &str) -> (r: Option<DeepLink>)
    ensures
        match r {
            Some(DeepLink::Series { key }) => link_key(url@) == Some(key@),
            None => link_key(url@) is None,
        },
{
    proof {
        reveal_strlit("/manga/");
    }
    let s = chars_of(url);
    let m = chars_of("/manga/");
    let mut f: usize = 0;
    while f <= s.len() && !occurs_at_exec(&s, &m, f)
        invariant
            f <= s.len() + 1,
            s@ == url@,
            m@ == manga_seg(),
            find_from(s@, m@, 0) == find_from(s@, m@, f as int),
        decreases s.len() + 1 - f,
    {
        if f == s.len() {
            assert(find_from(s@, m@, f + 1) is None);
            return None;
        }
        f = f + 1;
    }
    if f > s.len() {
        return None;
    }
    let st: usize = f + 7;
    let mut e: usize = st;
    while e < s.len() && s[e] != '/'
        invariant
            st <= e <= s.len(),
            slash_from(s@, st as int) == slash_from(s@, e as int),
        decreases s.len() - e,
    {
        e = e + 1;
    }
    if e == st {
        return None;
    }
    let mut key: Vec<char> = Vec::new();
    let mut i: usize = st;
    while i < e
        invariant
            st <= i <= e <= s.len(),
            key@ == s@.subrange(st as int, i as int),
        decreases e - i,
    {
        key.push(s[i]);
        i = i + 1;
        assert(key@ =~= s@.subrange(st as int, i as int));
    }
    Some(DeepLink::Series { key: string_of(&key) })
}

/// No occurrence of `p` in `s` starts in `[i, k)`: replacing from `i` then
/// copies `s[i..k]` unchanged.
proof fn lemma_replaced_copies(s: Seq<char>, p: Seq<char>, w: Seq<char>, i: int, k: int)
    requires
        0 <= i <= k <= s.len(),
        p.len() > 0,
        forall|j: int| i <= j < k ==> !occurs_at(s, p, j),
    ensures
        replaced_from(s, p, w, i) == s.subrange(i, k) + replaced_from(s, p, w, k),
    decreases k - i,
{
    if i < k {
        lemma_replaced_copies(s, p, w, i + 1, k);
        assert(s.subrange(i, k) =~= seq![s[i]] + s.subrange(i + 1, k));
    } else {
        assert(s.subrange(i, k) =~= Seq::<char>::empty());
    }
}

/// A series key holds no slash, so it is recovered exactly from the
/// series' detail URL: two keys give two URLs and the same URL always gives
/// the same key, so distinct series URLs give distinct keys.
pub proof fn lemma_key_of_detail_url(k: Seq<char>)
    requires
        k.len() > 0,
        forall|i: int| 0 <= i < k.len() ==> k[i] != '/',
    ensures
        key_of(detail_url_of(k)) == k,
{
    reveal_strlit("https://utoon.net");
    reveal_strlit("/manga/");
    let b = base_seq();
    let m = manga_seg();
    let url = detail_url_of(k);
    let e = Seq::<char>::empty();
    let rest = m + k + seq!['/'];
    assert(url =~= b + rest);
    // The root URL holds "//", which the rest never does.
    assert forall|j: int| b.len() <= j < url.len() implies !occurs_at(url, b, j) by {
        if occurs_at(url, b, j) {
            assert(url.subrange(j, j + b.len())[6] == b[6]);
            assert(url.subrange(j, j + b.len())[7] == b[7]);
            assert(url[j + 6] == '/' && url[j + 7] == '/');
        }
    }
    assert(occurs_at(url, b, 0)) by {
        assert(url.subrange(0, b.len() as int) =~= b);
    }
    lemma_replaced_copies(url, b, e, b.len() as int, url.len() as int);
    assert(replaced_from(url, b, e, url.len() as int) =~= e);
    assert(url.subrange(b.len() as int, url.len() as int) =~= rest);
    let s1 = replaced(url, b, e);
    assert(s1 =~= rest);
    // "/manga/" needs two slashes seven apart, which "k/" lacks.
    assert(occurs_at(s1, m, 0)) by {
        assert(s1.subrange(0, m.len() as int) =~= m);
    }
    assert forall|j: int| m.len() <= j < s1.len() implies !occurs_at(s1, m, j) by {
        if occurs_at(s1, m, j) {
            assert(s1.subrange(j, j + m.len())[0] == m[0]);
        }
    }
    lemma_replaced_copies(s1, m, e, m.len() as int, s1.len() as int);
    assert(replaced_from(s1, m, e, s1.len() as int) =~= e);
    let s2 = replaced(s1, m, e);
    assert(s2 =~= k + seq!['/']);
    let sl = seq!['/'];
    assert forall|j: int| 0 <= j < k.len() implies !occurs_at(s2, sl, j) by {
        if occurs_at(s2, sl, j) {
            assert(s2.subrange(j, j + 1)[0] == sl[0]);
        }
    }
    lemma_replaced_copies(s2, sl, e, 0, k.len() as int);
    assert(occurs_at(s2, sl, k.len() as int)) by {
        assert(s2.subrange(k.len() as int, (k.len() + 1) as int) =~= sl);
    }
    assert(replaced_from(s2, sl, e, (k.len() + 1) as int) =~= e);
    assert(s2.subrange(0, k.len() as int) =~= k);
    assert(replaced(s2, sl, e) =~= k);
}


/// Removing every slash leaves no slash.
proof fn lemma_no_slash_left(s: Seq<char>, i: int)
    requires
        0 <= i,
    ensures
        forall|j: int| 0 <= j < replaced_from(s, seq!['/'], Seq::empty(), i).len()
            ==> replaced_from(s, seq!['/'], Seq::empty(), i)[j] != '/',
    decreases s.len() - i,
{
    let sl = seq!['/'];
    let e = Seq::<char>::empty();
    if i < s.len() {
        lemma_no_slash_left(s, i + 1);
        let rest = replaced_from(s, sl, e, i + 1);
        let r = replaced_from(s, sl, e, i);
        if occurs_at(s, sl, i) {
            assert(r =~= rest);
        } else {
            if s[i] == '/' {
                assert(s.subrange(i, i + 1) =~= sl);
            }
            assert(r =~= seq![s[i]] + rest);
            assert forall|j: int| 0 <= j < r.len() implies r[j] != '/' by {
                if j > 0 {
                    assert(r[j] == rest[j - 1]);
                }
            }
        }
    }
}

/// A text without slashes is left unchanged by removing any pattern that
/// holds a slash.
proof fn lemma_slash_free_fixed(k: Seq<char>, p: Seq<char>, at: int)
    requires
        forall|i: int| 0 <= i < k.len() ==> k[i] != '/',
        0 <= at < p.len(),
        p[at] == '/',
    ensures
        replaced(k, p, Seq::empty()) == k,
{
    assert forall|j: int| 0 <= j < k.len() implies !occurs_at(k, p, j) by {
        if occurs_at(k, p, j) {
            assert(k.subrange(j, j + p.len())[at] == p[at]);
        }
    }
    lemma_replaced_copies(k, p, Seq::empty(), 0, k.len() as int);
    assert(k.subrange(0, k.len() as int) =~= k);
}

/// Key derivation is idempotent: the key of a key is the key itself, since a
/// key holds no slash.
pub proof fn lemma_key_idempotent(url: Seq<char>)
    ensures
        forall|i: int| 0 <= i < key_of(url).len() ==> key_of(url)[i] != '/',
        key_of(key_of(url)) == key_of(url),
{
    reveal_strlit("https://utoon.net");
    reveal_strlit("/manga/");
    let k = key_of(url);
    lemma_no_slash_left(replaced(replaced(url, base_seq(), Seq::empty()), manga_seg(), Seq::empty()), 0);
    lemma_slash_free_fixed(k, base_seq(), 6);
    lemma_slash_free_fixed(k, manga_seg(), 0);
    lemma_slash_free_fixed(k, seq!['/'], 0);
}

/// Distinct series keys, each non-empty and without slashes, have distinct
/// detail URLs and are derived back from them unchanged, so they never collide.
pub proof fn lemma_keys_distinct(k1: Seq<char>, k2: Seq<char>)
    requires
        k1.len() > 0,
        k2.len() > 0,
        forall|i: int| 0 <= i < k1.len() ==> k1[i] != '/',
        forall|i: int| 0 <= i < k2.len() ==> k2[i] != '/',
        k1 != k2,
    ensures
        detail_url_of(k1) != detail_url_of(k2),
        key_of(detail_url_of(k1)) != key_of(detail_url_of(k2)),
{
    lemma_key_of_detail_url(k1);
    lemma_key_of_detail_url(k2);
}

} // verus!
