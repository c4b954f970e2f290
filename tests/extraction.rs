use utoon::chapter_number::{infer_chapter_number, is_decimal, number_from_words};
use utoon::detail::{
    apply_chapters, apply_details, chapter_request, classify_status, parse_chapters,
    status_from_lowercase, ChapterNode, DetailDocument,
};
use utoon::home::{compose_home, SectionStyle};
use utoon::links::{chapter_key, detail_url, parse_deep_link, series_key, DeepLink};
use utoon::listing::{parse_listing, ListingDocument, ListingItem};
use utoon::model::{Attr, AttrName, CatalogEntry, Chapter, ChapterNumber, Element, ListingPage, MangaStatus, Viewer};
use utoon::node::first_filled;
use utoon::pages::{extract_pages, reading_url, ChapterDocument};
use utoon::sort::{home_url, listing_url, search_target, sort_for_listing, sort_from_filters, sort_from_index, SortFilter, SortOrder};

fn el(text: Option<&str>, attrs: &[(AttrName, &str)]) -> Element {
    Element {
        text: text.map(|t| t.to_string()),
        attrs: attrs.iter().map(|(n, v)| Attr { name: *n, value: v.to_string() }).collect(),
    }
}

fn item(title: Option<&str>, href: Option<&str>, img: Option<&[(AttrName, &str)]>) -> ListingItem {
    let anchor = match (title, href) {
        (None, None) => None,
        (t, h) => Some(el(t, &h.map(|h| vec![(AttrName::Href, h)]).unwrap_or_default())),
    };
    ListingItem { anchor, image: img.map(|a| el(None, a)) }
}

fn summary(key: &str) -> CatalogEntry {
    CatalogEntry {
        key: key.to_string(),
        title: "Old Title".to_string(),
        cover: Some("old.jpg".to_string()),
        url: None,
        description: None,
        authors: None,
        tags: None,
        status: MangaStatus::Unknown,
        viewer: Viewer::Unknown,
        chapters: None,
    }
}

fn number_value(n: &ChapterNumber) -> f32 {
    match n {
        ChapterNumber::Decimal(s) => s.parse::<f32>().unwrap(),
        ChapterNumber::Position(p) => *p as f32,
    }
}

fn chapter_node(title: Option<&str>, href: &str, class: &str) -> ChapterNode {
    ChapterNode {
        item: el(None, &[(AttrName::Class, class)]),
        anchor: Some(el(title, &[(AttrName::Href, href)])),
    }
}

fn page(keys: &[&str]) -> ListingPage {
    ListingPage { entries: keys.iter().map(|k| summary(k)).collect(), has_next_page: false }
}

fn empty_detail() -> DetailDocument {
    DetailDocument {
        heading: None,
        cover_image: None,
        summary: None,
        authors: vec![],
        status: None,
        genres: vec![],
        post_id: None,
        chapter_nodes: vec![],
    }
}

#[test]
fn listing_keeps_only_valid_items() {
    let doc = ListingDocument {
        items: vec![
            item(Some("First"), Some("https://utoon.net/manga/first-series/"), Some(&[(AttrName::DataSrc, "a.jpg")])),
            item(Some(""), Some("https://utoon.net/manga/no-title/"), None),
            item(Some("No Link"), Some(""), None),
            item(None, None, None),
            item(Some("Second"), Some("https://utoon.net/manga/second/"), None),
        ],
        has_next: true,
    };
    let r = parse_listing(&doc);
    assert!(r.has_next_page);
    assert_eq!(r.entries.len(), 2);
    assert_eq!(r.entries[0].key, "first-series");
    assert_eq!(r.entries[0].title, "First");
    assert_eq!(r.entries[0].cover.as_deref(), Some("a.jpg"));
    assert_eq!(r.entries[0].url.as_deref(), Some("https://utoon.net/manga/first-series/"));
    assert_eq!(r.entries[1].key, "second");
    assert_eq!(r.entries[1].cover.as_deref(), Some(""));
}

#[test]
fn listing_cover_falls_back_to_src() {
    let doc = ListingDocument {
        items: vec![item(
            Some("A"),
            Some("https://utoon.net/manga/a/"),
            Some(&[(AttrName::DataSrc, "   "), (AttrName::Src, " b.png ")]),
        )],
        has_next: false,
    };
    let r = parse_listing(&doc);
    assert!(!r.has_next_page);
    assert_eq!(r.entries[0].cover.as_deref(), Some("b.png"));
}

#[test]
fn listing_of_empty_document() {
    let r = parse_listing(&ListingDocument { items: vec![], has_next: false });
    assert!(r.entries.is_empty());
}

#[test]
fn key_derivation_is_stable_and_distinct() {
    let a = series_key("https://utoon.net/manga/some-series/");
    assert_eq!(a, "some-series");
    assert_eq!(series_key("https://utoon.net/manga/some-series/"), a);
    assert_ne!(series_key("https://utoon.net/manga/other-series/"), a);
    assert_eq!(series_key(&detail_url("abc")), "abc");
}

#[test]
fn chapter_keys_drop_root_and_slashes() {
    assert_eq!(chapter_key("https://utoon.net/manga/s/chapter-1/"), "manga/s/chapter-1");
    assert_eq!(chapter_key("///"), "");
}

#[test]
fn chapter_number_after_label() {
    assert_eq!(number_value(&infer_chapter_number(&Some("Chapter 12.5 – Finale".to_string()), 7)), 12.5);
    match infer_chapter_number(&Some("Chapter 12.5 – Finale".to_string()), 7) {
        ChapterNumber::Decimal(s) => assert_eq!(s, "12.5"),
        other => panic!("unexpected {:?}", other),
    }
}

#[test]
fn chapter_number_short_label() {
    assert_eq!(number_value(&infer_chapter_number(&Some("Ch. 3".to_string()), 9)), 3.0);
}

#[test]
fn chapter_number_falls_back_to_position() {
    let nodes: Vec<ChapterNode> = (0..10)
        .map(|i| chapter_node(Some("Bonus Story"), &format!("https://utoon.net/manga/s/bonus-{}/", i), ""))
        .collect();
    let cs = parse_chapters(&nodes);
    assert_eq!(cs.len(), 10);
    assert_eq!(number_value(&cs[0].chapter_number), 10.0);
    assert_eq!(number_value(&cs[1].chapter_number), 9.0);
    assert_eq!(number_value(&cs[9].chapter_number), 1.0);
}

#[test]
fn chapter_number_label_at_end_uses_bare_number() {
    let ws: Vec<Vec<char>> = ["episode", "7", "chapter"].iter().map(|w| w.chars().collect()).collect();
    assert_eq!(number_from_words(&ws), Some("7".to_string()));
    let ws2: Vec<Vec<char>> = ["vol", "2", "ch", "15a"].iter().map(|w| w.chars().collect()).collect();
    assert_eq!(number_from_words(&ws2), Some("15".to_string()));
    let ws3: Vec<Vec<char>> = ["bonus", "..."].iter().map(|w| w.chars().collect()).collect();
    assert_eq!(number_from_words(&ws3), None);
}

#[test]
fn decimal_literals() {
    let t = |s: &str| is_decimal(&s.chars().collect());
    assert!(t("12.5"));
    assert!(t("12."));
    assert!(t(".5"));
    assert!(!t("."));
    assert!(!t("1.2.3"));
    assert!(!t(""));
}

#[test]
fn chapters_skip_unlinked_and_mark_premium() {
    let nodes = vec![
        chapter_node(Some("Chapter 3"), "https://utoon.net/manga/s/chapter-3/", "wp-manga-chapter premium-block"),
        ChapterNode { item: el(None, &[]), anchor: None },
        chapter_node(Some("Side"), "", ""),
        chapter_node(None, "https://utoon.net/manga/s/extra/", "wp-manga-chapter"),
    ];
    let cs = parse_chapters(&nodes);
    assert_eq!(cs.len(), 2);
    assert!(cs[0].locked);
    assert_eq!(cs[0].key, "manga/s/chapter-3");
    assert_eq!(number_value(&cs[0].chapter_number), 3.0);
    assert!(!cs[1].locked);
    assert_eq!(cs[1].title, None);
    assert_eq!(cs[1].url.as_deref(), Some("https://utoon.net/manga/s/extra/"));
    assert_eq!(number_value(&cs[1].chapter_number), 3.0);
}

#[test]
fn pages_use_alternate_convention_only_when_primary_is_empty() {
    let doc = ChapterDocument {
        primary: vec![el(None, &[(AttrName::Src, "  ")])],
        numbered: vec![
            el(None, &[(AttrName::DataSrc, "1.jpg")]),
            el(None, &[(AttrName::Src, " 2.jpg")]),
            el(None, &[(AttrName::DataLazySrc, "x.jpg"), (AttrName::Src, "3.jpg")]),
        ],
    };
    assert_eq!(extract_pages(&doc), vec!["1.jpg", "2.jpg", "3.jpg"]);
}

#[test]
fn pages_primary_set_wins() {
    let doc = ChapterDocument {
        primary: vec![el(None, &[(AttrName::DataLazySrc, "first.jpg")]), el(None, &[(AttrName::Src, "second.jpg")])],
        numbered: vec![el(None, &[(AttrName::Src, "alt.jpg")])],
    };
    assert_eq!(extract_pages(&doc), vec!["first.jpg", "second.jpg"]);
}

#[test]
fn cascade_trims_and_skips_blank() {
    let e = el(None, &[(AttrName::Src, "c"), (AttrName::DataSrc, " \t "), (AttrName::DataLazySrc, " b ")]);
    let names = vec![AttrName::DataSrc, AttrName::DataLazySrc, AttrName::Src];
    assert_eq!(first_filled(&e, &names).into_iter().collect::<String>(), "b");
    assert!(first_filled(&el(None, &[]), &names).is_empty());
}

#[test]
fn status_classification() {
    assert_eq!(classify_status("Ongoing"), MangaStatus::Ongoing);
    assert_eq!(classify_status("Completed, fully translated"), MangaStatus::Completed);
    assert_eq!(classify_status("On Hiatus"), MangaStatus::Hiatus);
    assert_eq!(classify_status("Dropped by scanlator"), MangaStatus::Cancelled);
    assert_eq!(classify_status("Canceled"), MangaStatus::Cancelled);
    assert_eq!(classify_status("Licensed"), MangaStatus::Unknown);
    assert_eq!(status_from_lowercase("ONGOING"), MangaStatus::Unknown);
    assert_eq!(status_from_lowercase("hiatus, ongoing"), MangaStatus::Ongoing);
}

#[test]
fn details_enrich_entry() {
    let mut doc = empty_detail();
    doc.heading = Some(el(Some("New Title"), &[]));
    doc.cover_image = Some(el(None, &[(AttrName::Src, "cover.png")]));
    doc.summary = Some(el(Some("A story."), &[]));
    doc.authors = vec![el(Some("Alice"), &[]), el(None, &[]), el(Some("Bob"), &[])];
    doc.status = Some(el(Some("OnGoing"), &[]));
    let r = apply_details(summary("my-series"), &doc);
    assert_eq!(r.title, "New Title");
    assert_eq!(r.cover.as_deref(), Some("cover.png"));
    assert_eq!(r.description.as_deref(), Some("A story."));
    assert_eq!(r.url.as_deref(), Some("https://utoon.net/manga/my-series/"));
    assert_eq!(r.viewer, Viewer::Webtoon);
    assert_eq!(r.authors, Some(vec!["Alice".to_string(), "Bob".to_string()]));
    assert_eq!(r.tags, None);
    assert_eq!(r.status, MangaStatus::Ongoing);
}

#[test]
fn details_keep_title_and_cover_when_absent() {
    let r = apply_details(summary("k"), &empty_detail());
    assert_eq!(r.title, "Old Title");
    assert_eq!(r.cover.as_deref(), Some("old.jpg"));
    assert_eq!(r.status, MangaStatus::Unknown);
    assert_eq!(r.authors, None);
}

#[test]
fn chapter_recovery_request() {
    let mut doc = empty_detail();
    assert!(chapter_request(&doc).is_none());
    doc.post_id = Some(el(None, &[(AttrName::Value, "")]));
    assert!(chapter_request(&doc).is_none());
    doc.post_id = Some(el(None, &[(AttrName::Value, "4821")]));
    let q = chapter_request(&doc).unwrap();
    assert_eq!(q.url, "https://utoon.net/wp-admin/admin-ajax.php");
    assert_eq!(q.body, "action=manga_get_chapters&manga=4821");
    doc.chapter_nodes = vec![chapter_node(Some("Chapter 1"), "https://utoon.net/manga/k/chapter-1/", "")];
    assert!(chapter_request(&doc).is_none());
}

#[test]
fn chapters_from_recovered_list() {
    let doc = empty_detail();
    let rec = vec![chapter_node(Some("Chapter 2"), "https://utoon.net/manga/k/chapter-2/", "")];
    let r = apply_chapters(summary("k"), &doc, Some(rec));
    assert_eq!(r.chapters.as_ref().unwrap().len(), 1);
    let r2 = apply_chapters(summary("k"), &doc, None);
    assert_eq!(r2.chapters.unwrap().len(), 0);
}

#[test]
fn home_skips_failed_trending() {
    let sections = compose_home(None, Some(page(&["r"])), Some(page(&["v"])), Some(page(&["n"])), Some(page(&["l1", "l2"])));
    let titles: Vec<&str> = sections.iter().map(|s| s.title.as_str()).collect();
    assert_eq!(titles, vec!["Top Rated", "Most Views", "New", "Latest Updates"]);
    assert_eq!(sections[0].listing.id, "rating");
    assert_eq!(sections[0].style, SectionStyle::Scroller);
    assert_eq!(sections[3].listing.id, "latest");
    assert_eq!(sections[3].style, SectionStyle::MangaList { page_size: 20 });
    assert_eq!(sections[3].entries.len(), 2);
}

#[test]
fn home_skips_empty_sections() {
    let sections = compose_home(Some(page(&["t"])), Some(page(&[])), None, None, None);
    assert_eq!(sections.len(), 1);
    assert_eq!(sections[0].title, "Trending");
    assert_eq!(sections[0].listing.name, "Trending");
    assert!(compose_home(None, None, None, None, None).is_empty());
}

#[test]
fn deep_links() {
    match parse_deep_link("https://utoon.net/manga/some-series/chapter-1/") {
        Some(DeepLink::Series { key }) => assert_eq!(key, "some-series"),
        None => panic!("no match"),
    }
    assert!(parse_deep_link("https://utoon.net/series/some-series/").is_none());
    assert!(parse_deep_link("https://utoon.net/manga/").is_none());
}

#[test]
fn urls_and_sorting() {
    assert_eq!(listing_url(2, SortOrder::Trending), "https://utoon.net/manga/page/2/?m_orderby=trending");
    assert_eq!(listing_url(-13, SortOrder::NewManga), "https://utoon.net/manga/page/-13/?m_orderby=new-manga");
    assert_eq!(home_url(SortOrder::Views), "https://utoon.net/manga/?m_orderby=views");
    assert_eq!(sort_from_index(0), SortOrder::Latest);
    assert_eq!(sort_from_index(1), SortOrder::Alphabet);
    assert_eq!(sort_from_index(5), SortOrder::NewManga);
    assert_eq!(sort_from_index(9), SortOrder::Latest);
    let filters = vec![
        SortFilter { id: "sort".to_string(), index: 2 },
        SortFilter { id: "genre".to_string(), index: 4 },
    ];
    assert_eq!(sort_from_filters(&filters), SortOrder::Rating);
    assert_eq!(search_target(&None, 1, &filters), "https://utoon.net/manga/page/1/?m_orderby=rating");
    assert_eq!(
        search_target(&Some("solo leveling".to_string()), 3, &filters),
        "https://utoon.net/page/3/?s=solo+leveling&post_type=wp-manga"
    );
    assert_eq!(sort_for_listing("Top Rated"), SortOrder::Rating);
    assert_eq!(sort_for_listing("New Releases"), SortOrder::NewManga);
    assert_eq!(sort_for_listing("Whatever"), SortOrder::Latest);
}

#[test]
fn reading_url_falls_back_to_key() {
    let mut c = Chapter {
        key: "manga/s/chapter-1".to_string(),
        title: None,
        url: None,
        chapter_number: ChapterNumber::Position(1),
        locked: false,
    };
    assert_eq!(reading_url(&c), "https://utoon.net/manga/s/chapter-1/");
    c.url = Some("https://utoon.net/x/".to_string());
    assert_eq!(reading_url(&c), "https://utoon.net/x/");
}

#[test]
fn rate_limit_is_two_per_second() {
    let r = utoon::model::site_rate_limit();
    assert_eq!((r.max_requests, r.window_seconds), (2, 1));
}

#[test]
fn inline_chapters_take_precedence_over_recovered() {
    let mut doc = empty_detail();
    doc.chapter_nodes = vec![
        chapter_node(Some("Chapter 5"), "https://utoon.net/manga/k/chapter-5/", ""),
        chapter_node(Some("Chapter 4"), "https://utoon.net/manga/k/chapter-4/", ""),
    ];
    let rec = vec![chapter_node(Some("Chapter 9"), "https://utoon.net/manga/k/chapter-9/", "")];
    let r = apply_chapters(summary("k"), &doc, Some(rec));
    let cs = r.chapters.unwrap();
    assert_eq!(cs.len(), 2);
    assert_eq!(cs[0].key, "manga/k/chapter-5");
    assert_eq!(number_value(&cs[1].chapter_number), 4.0);
    assert_eq!(r.title, "Old Title");
}
