//! Turning one catalog listing into catalog-entry summaries.
use vstd::prelude::*;
use crate::model::{AttrName, Element, CatalogEntry, ListingPage, MangaStatus, Viewer};
use crate::node::{attr_or_empty, text_or_empty, cascade, first_filled, attr_or_blank, text_or_blank};
use crate::text::string_of;
use crate::links::{key_of, series_key};

verus! {

/// One listing item node: its title anchor and its cover image, where found.
#[derive(Clone, Debug)]
pub struct ListingItem {
    pub anchor: Option<Element>,
    pub image: Option<Element>,
}

/// A catalog listing document: its item nodes in document order, and whether
/// a next-page navigation node is present.
#[derive(Clone, Debug)]
pub struct ListingDocument {
    pub items: Vec<ListingItem>,
    pub has_next: bool,
}

/// The attributes tried, in order, for an image URL.
pub open spec fn image_attrs() -> Seq<AttrName> {
    seq![AttrName::DataSrc, AttrName::DataLazySrc, AttrName::Src]
}

/// The attributes tried, in order, for an image URL.
pub fn image_attr_names() -> (r: Vec<AttrName>)
    ensures
        r@ == image_attrs(),
{
    let r = vec![AttrName::DataSrc, AttrName::DataLazySrc, AttrName::Src];
    assert(r@ =~= image_attrs());
    r
}

/// An item with a title anchor whose text and link are both non-empty.
pub open spec fn item_valid(it: ListingItem) -> bool {
    match it.anchor {
        Some(a) => text_or_empty(a).len() > 0 && attr_or_empty(a, AttrName::Href).len() > 0,
        None => false,
    }
}

/// The cover of an item: the image cascade, empty when there is no image.
pub open spec fn item_cover(it: ListingItem) -> Seq<char> {
    match it.image {
        Some(img) => cascade(img, image_attrs()),
        None => Seq::empty(),
    }
}

/// The valid items among the first `n`, in order.
pub open spec fn valid_items(items: Seq<ListingItem>, n: int) -> Seq<ListingItem>
    decreases n,
{
    if n <= 0 || n > items.len() {
        Seq::empty()
    } else if item_valid(items[n - 1]) {
        valid_items(items, n - 1).push(items[n - 1])
    } else {
        valid_items(items, n - 1)
    }
}

/// How many of the first `n` items are valid.
pub open spec fn valid_count(items: Seq<ListingItem>, n: int) -> nat
    decreases n,
{
    if n <= 0 || n > items.len() {
        0
    } else if item_valid(items[n - 1]) {
        valid_count(items, n - 1) + 1
    } else {
        valid_count(items, n - 1)
    }
}

/// `e` is the summary of the valid item `it`.
pub open spec fn summary_of(e: CatalogEntry, it: ListingItem) -> bool {
    let a = it.anchor.unwrap();
    let url = attr_or_empty(a, AttrName::Href);
    &&& e.key@ == key_of(url)
    &&& e.title@ == text_or_empty(a)
    &&& e.cover matches Some(c) && c@ == item_cover(it)
    &&& e.url matches Some(u) && u@ == url
    &&& e.description is None
    &&& e.authors is None
    &&& e.tags is None
    &&& e.status == MangaStatus::Unknown
    &&& e.viewer == Viewer::Unknown
    &&& e.chapters is None
}

/// `page` is what the listing parser makes of `doc`: one summary per valid
/// item, in document order, and the document's next-page flag.
pub open spec fn listing_result(doc: ListingDocument, page: ListingPage) -> bool {
    let v = valid_items(doc.items@, doc.items@.len() as int);
    &&& page.has_next_page == doc.has_next
    &&& page.entries@.len() == v.len()
    &&& forall|k: int| 0 <= k < v.len() ==> summary_of(#[trigger] page.entries@[k], v[k])
}

/// Parses a listing document into catalog-entry summaries. Items without a
/// title anchor, with an empty title or with an empty link are left out;
/// an item without an image keeps an empty cover.
pub fn parse_listing(doc: &ListingDocument) -> (r: ListingPage)
    ensures
        listing_result(*doc, r),
{
    let mut entries: Vec<CatalogEntry> = Vec::new();
    let names = image_attr_names();
    let mut i: usize = 0;
    while i < doc.items.len()
        invariant
            i <= doc.items.len(),
            names@ == image_attrs(),
            entries@.len() == valid_items(doc.items@, i as int).len(),
            forall|k: int| 0 <= k < entries@.len() ==>
                summary_of(#[trigger] entries@[k], valid_items(doc.items@, i as int)[k]),
        decreases doc.items.len() - i,
    {
        let item = &doc.items[i];
        if let Some(a) = &item.anchor {
            let title = text_or_blank(a);
            let url = attr_or_blank(a, AttrName::Href);
            if title.len() > 0 && url.len() > 0 {
                let cover = match &item.image {
                    Some(img) => first_filled(img, &names),
                    None => Vec::new(),
                };
                let url_s = string_of(&url);
                let e = CatalogEntry {
                    key: series_key(url_s.as_str()),
                    title: string_of(&title),
                    cover: Some(string_of(&cover)),
                    url: Some(url_s),
                    description: None,
                    authors: None,
                    tags: None,
                    status: MangaStatus::Unknown,
                    viewer: Viewer::Unknown,
                    chapters: None,
                };
                entries.push(e);
            }
        }
        i = i + 1;
    }
    ListingPage { entries, has_next_page: doc.has_next }
}

/// A listing keeps exactly the valid items: as many summaries as there are
/// items with a non-empty title and link, each with a non-empty title and link.
pub proof fn lemma_listing_keeps_valid(doc: ListingDocument, page: ListingPage)
    requires
        listing_result(doc, page),
    ensures
        page.entries@.len() == valid_count(doc.items@, doc.items@.len() as int),
        forall|k: int| 0 <= k < page.entries@.len() ==> {
            let e = #[trigger] page.entries@[k];
            e.title@.len() > 0 && (e.url matches Some(u) && u@.len() > 0)
        },
{
    lemma_valid_items(doc.items@, doc.items@.len() as int);
    let v = valid_items(doc.items@, doc.items@.len() as int);
    assert forall|k: int| 0 <= k < page.entries@.len() implies {
        let e = #[trigger] page.entries@[k];
        e.title@.len() > 0 && (e.url matches Some(u) && u@.len() > 0)
    } by {
        assert(summary_of(page.entries@[k], v[k]));
        assert(item_valid(v[k]));
    }
}

proof fn lemma_valid_items(items: Seq<ListingItem>, n: int)
    ensures
        valid_items(items, n).len() == valid_count(items, n),
        forall|k: int| 0 <= k < valid_items(items, n).len() ==> item_valid(#[trigger] valid_items(items, n)[k]),
    decreases n,
{
    if n > 0 && n <= items.len() {
        lemma_valid_items(items, n - 1);
    }
}

} // verus!
