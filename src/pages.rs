//! Reading the page images of a chapter.
use vstd::prelude::*;
use crate::model::{AttrName, Element, Chapter, opt_view, strings_view};
use crate::node::{cascade, first_filled};
use crate::text::{chars_of, string_of};
use crate::links::{BASE_URL, base_seq, push_all};
use crate::listing::{image_attrs, image_attr_names};

verus! {

/// A chapter reading document: the image nodes of the primary convention and
/// those of the numbered-image convention, each in document order.
#[derive(Clone, Debug)]
pub struct ChapterDocument {
    pub primary: Vec<Element>,
    pub numbered: Vec<Element>,
}

/// The attributes tried, in order, for a numbered image.
pub open spec fn numbered_attrs() -> Seq<AttrName> {
    seq![AttrName::DataSrc, AttrName::Src]
}

/// The non-empty image URLs of the first `n` nodes, in order.
pub open spec fn image_urls(elems: Seq<Element>, names: Seq<AttrName>, n: int) -> Seq<Seq<char>>
    decreases n,
{
    if n <= 0 || n > elems.len() {
        Seq::empty()
    } else if cascade(elems[n - 1], names).len() > 0 {
        image_urls(elems, names, n - 1).push(cascade(elems[n - 1], names))
    } else {
        image_urls(elems, names, n - 1)
    }
}

/// The page URLs of a chapter document: those of the primary convention, or,
/// when it yields none, those of the numbered convention.
pub open spec fn pages_of(doc: ChapterDocument) -> Seq<Seq<char>> {
    let a = image_urls(doc.primary@, image_attrs(), doc.primary@.len() as int);
    if a.len() > 0 {
        a
    } else {
        image_urls(doc.numbered@, numbered_attrs(), doc.numbered@.len() as int)
    }
}

/// The non-empty image URLs of `elems`, in order, by the cascade over `names`.
pub fn collect_images(elems: &Vec<Element>, names: &Vec<AttrName>) -> (r: Vec<String>)
    ensures
        strings_view(r@) == image_urls(elems@, names@, elems@.len() as int),
{
    let mut out: Vec<String> = Vec::new();
    let mut i: usize = 0;
    while i < elems.len()
        invariant
            i <= elems.len(),
            strings_view(out@) == image_urls(elems@, names@, i as int),
        decreases elems.len() - i,
    {
        let u = first_filled(&elems[i], names);
        if u.len() > 0 {
            let ghost before = out@;
            out.push(string_of(&u));
            assert(strings_view(out@) =~= strings_view(before).push(u@));
        }
        i = i + 1;
    }
    out
}

/// The page image URLs of a chapter document, in document order; the two
/// conventions are never mixed.
pub fn extract_pages(doc: &ChapterDocument) -> (r: Vec<String>)
    ensures
        strings_view(r@) == pages_of(*doc),
{
    let a = collect_images(&doc.primary, &image_attr_names());
    if a.len() > 0 {
        return a;
    }
    let names = vec![AttrName::DataSrc, AttrName::Src];
    assert(names@ =~= numbered_attrs());
    collect_images(&doc.numbered, &names)
}

/// The reading page URL of a chapter: its URL, else one built from its key.
pub open spec fn reading_url_of(c: Chapter) -> Seq<char> {
    match opt_view(c.url) {
        Some(u) => u,
        None => base_seq() + seq!['/'] + c.key@ + seq!['/'],
    }
}

/// The reading page URL of a chapter.
pub fn reading_url(c: &Chapter) -> (r: String)
    ensures
        r@ == reading_url_of(*c),
{
    match &c.url {
        Some(u) => string_of(&chars_of(u.as_str())),
        None => {
            proof {
                reveal_strlit("/");
            }
            let mut out = chars_of(BASE_URL);
            let slash = chars_of("/");
            assert(slash@ =~= seq!['/']);
            push_all(&mut out, &slash);
            push_all(&mut out, &chars_of(c.key.as_str()));
            push_all(&mut out, &slash);
            string_of(&out)
        },
    }
}

} // verus!
