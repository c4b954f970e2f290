//! Sort orders of the catalog and the URLs of listing and search pages.
use vstd::prelude::*;
use crate::text::{chars_of, string_of, replace_all, replaced, same_chars};
use crate::links::{BASE_URL, base_seq, push_all};

verus! {

/// A sort order over the catalog.
#[derive(Clone, Copy, Debug, PartialEq, Eq, Structural)]
pub enum SortOrder {
    Latest,
    Alphabet,
    Rating,
    Trending,
    Views,
    NewManga,
}

/// A sort selection made by a client: the filter's identifier and the chosen index.
#[derive(Clone, Debug)]
pub struct SortFilter {
    pub id: String,
    pub index: i32,
}

/// The value of the sort parameter for an order.
pub open spec fn sort_param(o: SortOrder) -> Seq<char> {
    match o {
        SortOrder::Latest => "latest"@,
        SortOrder::Alphabet => "alphabet"@,
        SortOrder::Rating => "rating"@,
        SortOrder::Trending => "trending"@,
        SortOrder::Views => "views"@,
        SortOrder::NewManga => "new-manga"@,
    }
}

/// The value of the sort parameter for an order.
pub fn sort_id(o: SortOrder) -> (r: &'static str)
    ensures
        r@ == sort_param(o),
{
    match o {
        SortOrder::Latest => "latest",
        SortOrder::Alphabet => "alphabet",
        SortOrder::Rating => "rating",
        SortOrder::Trending => "trending",
        SortOrder::Views => "views",
        SortOrder::NewManga => "new-manga",
    }
}

/// The order chosen by a sort index: latest, alphabet, rating, trending,
/// views, new; latest for any other index.
pub open spec fn order_at(index: i32) -> SortOrder {
    if index == 1 {
        SortOrder::Alphabet
    } else if index == 2 {
        SortOrder::Rating
    } else if index == 3 {
        SortOrder::Trending
    } else if index == 4 {
        SortOrder::Views
    } else if index == 5 {
        SortOrder::NewManga
    } else {
        SortOrder::Latest
    }
}

/// The order chosen by a sort index.
pub fn sort_from_index(index: i32) -> (r: SortOrder)
    ensures
        r == order_at(index),
{
    match index {
        1 => SortOrder::Alphabet,
        2 => SortOrder::Rating,
        3 => SortOrder::Trending,
        4 => SortOrder::Views,
        5 => SortOrder::NewManga,
        _ => SortOrder::Latest,
    }
}

/// The order chosen by the first `n` filters: the last one named "sort"
/// decides; latest when there is none.
pub open spec fn order_of_filters(fs: Seq<SortFilter>, n: int) -> SortOrder
    decreases n,
{
    if n <= 0 || n > fs.len() {
        SortOrder::Latest
    } else if fs[n - 1].id@ == "sort"@ {
        order_at(fs[n - 1].index)
    } else {
        order_of_filters(fs, n - 1)
    }
}

/// The order chosen by a list of sort filters.
pub fn sort_from_filters(filters: &Vec<SortFilter>) -> (r: SortOrder)
    ensures
        r == order_of_filters(filters@, filters@.len() as int),
{
    let key = chars_of("sort");
    let mut n: usize = filters.len();
    while n > 0
        invariant
            n <= filters.len(),
            key@ == "sort"@,
            order_of_filters(filters@, filters@.len() as int) == order_of_filters(filters@, n as int),
        decreases n,
    {
        if same_chars(&chars_of(filters[n - 1].id.as_str()), &key) {
            return sort_from_index(filters[n - 1].index);
        }
        n = n - 1;
    }
    SortOrder::Latest
}

/// The order named by a listing: "Latest Updates", "Trending", "Top Rated",
/// "Most Views", "New" or "New Releases"; latest for any other name.
pub open spec fn order_named(name: Seq<char>) -> SortOrder {
    if name == "Trending"@ {
        SortOrder::Trending
    } else if name == "Top Rated"@ {
        SortOrder::Rating
    } else if name == "Most Views"@ {
        SortOrder::Views
    } else if name == "New"@ || name == "New Releases"@ {
        SortOrder::NewManga
    } else {
        SortOrder::Latest
    }
}

/// The order named by a listing.
pub fn sort_for_listing(name: &str) -> (r: SortOrder)
    ensures
        r == order_named(name@),
{
    let n = chars_of(name);
    if same_chars(&n, &chars_of("Trending")) {
        SortOrder::Trending
    } else if same_chars(&n, &chars_of("Top Rated")) {
        SortOrder::Rating
    } else if same_chars(&n, &chars_of("Most Views")) {
        SortOrder::Views
    } else if same_chars(&n, &chars_of("New")) || same_chars(&n, &chars_of("New Releases")) {
        SortOrder::NewManga
    } else {
        SortOrder::Latest
    }
}

/// The decimal digit `d`.
pub open spec fn digit_of(d: int) -> char {
    seq!['0', '1', '2', '3', '4', '5', '6', '7', '8', '9'][d]
}

/// The decimal numeral of `n`, without leading zeros.
pub open spec fn numeral(n: nat) -> Seq<char>
    decreases n,
{
    if n < 10 {
        seq![digit_of(n as int)]
    } else {
        numeral(n / 10).push(digit_of((n % 10) as int))
    }
}

/// The decimal numeral of `v`, with a minus sign when negative.
pub open spec fn signed_numeral(v: int) -> Seq<char> {
    if v < 0 {
        seq!['-'] + numeral((-v) as nat)
    } else {
        numeral(v as nat)
    }
}

/// Appends the decimal numeral of `n`.
pub fn push_numeral(out: &mut Vec<char>, n: u64)
    ensures
        final(out)@ == old(out)@ + numeral(n as nat),
    decreases n,
{
    if n >= 10 {
        push_numeral(out, n / 10);
    }
    let digits = vec!['0', '1', '2', '3', '4', '5', '6', '7', '8', '9'];
    assert(digits@ =~= seq!['0', '1', '2', '3', '4', '5', '6', '7', '8', '9']);
    let d = (n % 10) as usize;
    out.push(digits[d]);
}

/// Appends the decimal numeral of `v`.
pub fn push_signed(out: &mut Vec<char>, v: i32)
    ensures
        final(out)@ == old(out)@ + signed_numeral(v as int),
{
    if v < 0 {
        out.push('-');
        let m: i64 = -(v as i64);
        push_numeral(out, m as u64);
        assert(final(out)@ =~= old(out)@ + signed_numeral(v as int));
    } else {
        push_numeral(out, v as u64);
    }
}

/// The URL of page `page` of the catalog sorted by `order`.
pub open spec fn listing_url_of(page: i32, order: SortOrder) -> Seq<char> {
    base_seq() + "/manga/page/"@ + signed_numeral(page as int) + "/?m_orderby="@ + sort_param(order)
}

/// The URL of page `page` of the search results for `query`, spaces made `+`.
pub open spec fn search_url_of(page: i32, query: Seq<char>) -> Seq<char> {
    base_seq() + "/page/"@ + signed_numeral(page as int) + "/?s="@ + replaced(query, " "@, "+"@)
        + "&post_type=wp-manga"@
}

/// The URL of the first page of the catalog sorted by `order`.
pub open spec fn home_url_of(order: SortOrder) -> Seq<char> {
    base_seq() + "/manga/?m_orderby="@ + sort_param(order)
}

/// The URL of page `page` of the catalog sorted by `order`.
pub fn listing_url(page: i32, order: SortOrder) -> (r: String)
    ensures
        r@ == listing_url_of(page, order),
{
    let mut out = chars_of(BASE_URL);
    push_all(&mut out, &chars_of("/manga/page/"));
    push_signed(&mut out, page);
    push_all(&mut out, &chars_of("/?m_orderby="));
    push_all(&mut out, &chars_of(sort_id(order)));
    assert(out@ =~= listing_url_of(page, order));
    string_of(&out)
}

/// The URL of the first page of the catalog sorted by `order`.
pub fn home_url(order: SortOrder) -> (r: String)
    ensures
        r@ == home_url_of(order),
{
    let mut out = chars_of(BASE_URL);
    push_all(&mut out, &chars_of("/manga/?m_orderby="));
    push_all(&mut out, &chars_of(sort_id(order)));
    string_of(&out)
}

/// The URL to fetch for a search: the search results when the query, spaces
/// made `+`, is non-empty; else the catalog sorted by the filters' order.
pub open spec fn search_target_of(query: Option<Seq<char>>, page: i32, filters: Seq<SortFilter>) -> Seq<char> {
    let q = match query {
        Some(s) => replaced(s, " "@, "+"@),
        None => Seq::empty(),
    };
    if q.len() == 0 {
        listing_url_of(page, order_of_filters(filters, filters.len() as int))
    } else {
        search_url_of(page, query.unwrap())
    }
}

/// The URL to fetch for a search.
pub fn search_target(query: &Option<String>, page: i32, filters: &Vec<SortFilter>) -> (r: String)
    ensures
        r@ == search_target_of(crate::model::opt_view(*query), page, filters@),
{
    proof {
        reveal_strlit(" ");
    }
    let q: Vec<char> = match query {
        Some(s) => replace_all(&chars_of(s.as_str()), &chars_of(" "), &chars_of("+")),
        None => Vec::new(),
    };
    if q.len() == 0 {
        return listing_url(page, sort_from_filters(filters));
    }
    let mut out = chars_of(BASE_URL);
    push_all(&mut out, &chars_of("/page/"));
    push_signed(&mut out, page);
    push_all(&mut out, &chars_of("/?s="));
    push_all(&mut out, &q);
    push_all(&mut out, &chars_of("&post_type=wp-manga"));
    assert(out@ =~= search_url_of(page, query->Some_0@));
    string_of(&out)
}

} // verus!
