//! Composing the home dashboard from independently fetched listings.
use vstd::prelude::*;
use crate::model::{CatalogEntry, ListingPage};
use crate::text::{chars_of, string_of};
use crate::sort::{SortOrder, sort_param, sort_id};

verus! {

/// The number of entries per page of the latest-updates section.
pub const LATEST_PAGE_SIZE: usize = 20;

/// A handle on a sort order that a client can follow to see more of it.
#[derive(Clone, Debug)]
pub struct Listing {
    pub id: String,
    pub name: String,
}

/// How a dashboard section is presented.
#[derive(Clone, Copy, Debug, PartialEq, Eq, Structural)]
pub enum SectionStyle {
    Scroller,
    MangaList { page_size: usize },
}

/// One section of the home dashboard.
#[derive(Clone, Debug)]
pub struct HomeSection {
    pub title: String,
    pub style: SectionStyle,
    pub entries: Vec<CatalogEntry>,
    pub listing: Listing,
}

/// The display name of a sort order.
pub open spec fn order_name(o: SortOrder) -> Seq<char> {
    match o {
        SortOrder::Latest => "Latest Updates"@,
        SortOrder::Alphabet => "Alphabetical"@,
        SortOrder::Rating => "Top Rated"@,
        SortOrder::Trending => "Trending"@,
        SortOrder::Views => "Most Views"@,
        SortOrder::NewManga => "New"@,
    }
}

/// The display name of a sort order.
pub fn order_display_name(o: SortOrder) -> (r: &'static str)
    ensures
        r@ == order_name(o),
{
    match o {
        SortOrder::Latest => "Latest Updates",
        SortOrder::Alphabet => "Alphabetical",
        SortOrder::Rating => "Top Rated",
        SortOrder::Trending => "Trending",
        SortOrder::Views => "Most Views",
        SortOrder::NewManga => "New",
    }
}

/// The presentation of a section: a paged list for the latest updates, a
/// scroller otherwise.
pub open spec fn style_of(o: SortOrder) -> SectionStyle {
    if o == SortOrder::Latest {
        SectionStyle::MangaList { page_size: LATEST_PAGE_SIZE }
    } else {
        SectionStyle::Scroller
    }
}

/// The orders of the dashboard's sections, top to bottom.
pub open spec fn home_orders() -> Seq<SortOrder> {
    seq![SortOrder::Trending, SortOrder::Rating, SortOrder::Views, SortOrder::NewManga, SortOrder::Latest]
}

/// The orders of the dashboard's sections, top to bottom.
pub fn home_sort_orders() -> (r: Vec<SortOrder>)
    ensures
        r@ == home_orders(),
{
    let r = vec![SortOrder::Trending, SortOrder::Rating, SortOrder::Views, SortOrder::NewManga, SortOrder::Latest];
    assert(r@ =~= home_orders());
    r
}

/// A fetch that succeeded with at least one entry.
pub open spec fn has_entries(o: Option<ListingPage>) -> bool {
    o matches Some(p) && p.entries@.len() > 0
}

/// `s` is the section for `order` holding the entries of `page`.
pub open spec fn section_is(s: HomeSection, order: SortOrder, page: ListingPage) -> bool {
    &&& s.title@ == order_name(order)
    &&& s.style == style_of(order)
    &&& s.entries == page.entries
    &&& s.listing.id@ == sort_param(order)
    &&& s.listing.name@ == order_name(order)
}

/// The fetches among the first `n` that succeeded with entries, in order.
pub open spec fn filled_slots(slots: Seq<(SortOrder, Option<ListingPage>)>, n: int) -> Seq<(SortOrder, ListingPage)>
    decreases n,
{
    if n <= 0 || n > slots.len() {
        Seq::empty()
    } else if has_entries(slots[n - 1].1) {
        filled_slots(slots, n - 1).push((slots[n - 1].0, slots[n - 1].1.unwrap()))
    } else {
        filled_slots(slots, n - 1)
    }
}

/// `r` holds one section per fetch among the first `n` of `slots` that
/// succeeded with entries, in order.
pub open spec fn sections_upto(slots: Seq<(SortOrder, Option<ListingPage>)>, r: Seq<HomeSection>, n: int) -> bool {
    let f = filled_slots(slots, n);
    &&& r.len() == f.len()
    &&& forall|k: int| 0 <= k < r.len() ==> section_is(#[trigger] r[k], f[k].0, f[k].1)
}

/// `r` holds one section per fetch of `slots` that succeeded with entries, in order.
pub open spec fn sections_result(slots: Seq<(SortOrder, Option<ListingPage>)>, r: Seq<HomeSection>) -> bool {
    sections_upto(slots, r, slots.len() as int)
}

/// The section for `order` from the outcome of its fetch: none when the
/// fetch failed or found no entry.
pub fn home_section(order: SortOrder, result: Option<ListingPage>) -> (r: Option<HomeSection>)
    ensures
        match r {
            Some(s) => has_entries(result) && section_is(s, order, result.unwrap()),
            None => !has_entries(result),
        },
{
    match result {
        Some(page) => {
            if page.entries.len() == 0 {
                return None;
            }
            let name = order_display_name(order);
            let style = if order == SortOrder::Latest {
                SectionStyle::MangaList { page_size: LATEST_PAGE_SIZE }
            } else {
                SectionStyle::Scroller
            };
            Some(HomeSection {
                title: string_of(&chars_of(name)),
                style,
                entries: page.entries,
                listing: Listing {
                    id: string_of(&chars_of(sort_id(order))),
                    name: string_of(&chars_of(name)),
                },
            })
        },
        None => None,
    }
}

/// The home dashboard from the outcomes of the five fetches: a section for
/// each that succeeded with entries, in the order trending, top rated, most
/// views, new, latest updates.
pub fn compose_home(
    trending: Option<ListingPage>,
    rating: Option<ListingPage>,
    views: Option<ListingPage>,
    new_manga: Option<ListingPage>,
    latest: Option<ListingPage>,
) -> (r: Vec<HomeSection>)
    ensures
        sections_result(
            seq![
                (SortOrder::Trending, trending),
                (SortOrder::Rating, rating),
                (SortOrder::Views, views),
                (SortOrder::NewManga, new_manga),
                (SortOrder::Latest, latest),
            ],
            r@,
        ),
{
    let ghost slots = seq![
        (SortOrder::Trending, trending),
        (SortOrder::Rating, rating),
        (SortOrder::Views, views),
        (SortOrder::NewManga, new_manga),
        (SortOrder::Latest, latest),
    ];
    let mut out: Vec<HomeSection> = Vec::new();
    assert(filled_slots(slots, 0).len() == 0);
    if let Some(s) = home_section(SortOrder::Trending, trending) {
        out.push(s);
    }
    assert(sections_upto(slots, out@, 1));
    if let Some(s) = home_section(SortOrder::Rating, rating) {
        out.push(s);
    }
    assert(sections_upto(slots, out@, 2));
    if let Some(s) = home_section(SortOrder::Views, views) {
        out.push(s);
    }
    assert(sections_upto(slots, out@, 3));
    if let Some(s) = home_section(SortOrder::NewManga, new_manga) {
        out.push(s);
    }
    assert(sections_upto(slots, out@, 4));
    if let Some(s) = home_section(SortOrder::Latest, latest) {
        out.push(s);
    }
    assert(sections_upto(slots, out@, 5));
    out
}

} // verus!
