//! Enriching a catalog entry from its series detail document: metadata,
//! status, and the chapter list with its recovery request.
use vstd::prelude::*;
use crate::model::{AttrName, Element, Chapter, CatalogEntry, MangaStatus, Viewer, opt_view, strings_view};
use crate::node::{attr_or_empty, cascade, first_filled, attr_or_blank};
use crate::text::{chars_of, string_of, contains, contains_seq, lowercase, lower_of};
use crate::links::{chapter_key_of, chapter_key, detail_url_of, detail_url, push_all, BASE_URL, base_seq};
use crate::listing::{image_attrs, image_attr_names};
use crate::chapter_number::{number_is, infer_chapter_number};

verus! {

/// One chapter list item: the item node itself and its link anchor, where found.
#[derive(Clone, Debug)]
pub struct ChapterNode {
    pub item: Element,
    pub anchor: Option<Element>,
}

/// A series detail document, reduced to the nodes the parser reads.
#[derive(Clone, Debug)]
pub struct DetailDocument {
    pub heading: Option<Element>,
    pub cover_image: Option<Element>,
    pub summary: Option<Element>,
    pub authors: Vec<Element>,
    pub status: Option<Element>,
    pub genres: Vec<Element>,
    pub post_id: Option<Element>,
    pub chapter_nodes: Vec<ChapterNode>,
}

/// A form-encoded POST that asks the site for a series' chapter list.
#[derive(Clone, Debug)]
pub struct ChapterRequest {
    pub url: String,
    pub body: String,
}

/// The status named by lowercase status text: the first of "ongoing",
/// "completed", "canceled" or "dropped", "hiatus" that occurs in it.
pub open spec fn status_of(lower: Seq<char>) -> MangaStatus {
    if contains_seq(lower, "ongoing"@) {
        MangaStatus::Ongoing
    } else if contains_seq(lower, "completed"@) {
        MangaStatus::Completed
    } else if contains_seq(lower, "canceled"@) || contains_seq(lower, "dropped"@) {
        MangaStatus::Cancelled
    } else if contains_seq(lower, "hiatus"@) {
        MangaStatus::Hiatus
    } else {
        MangaStatus::Unknown
    }
}

/// The status named by status text that is already lowercase.
pub fn status_from_lowercase(lower: &str) -> (r: MangaStatus)
    ensures
        r == status_of(lower@),
{
    let s = chars_of(lower);
    if contains(&s, &chars_of("ongoing")) {
        MangaStatus::Ongoing
    } else if contains(&s, &chars_of("completed")) {
        MangaStatus::Completed
    } else if contains(&s, &chars_of("canceled")) || contains(&s, &chars_of("dropped")) {
        MangaStatus::Cancelled
    } else if contains(&s, &chars_of("hiatus")) {
        MangaStatus::Hiatus
    } else {
        MangaStatus::Unknown
    }
}

/// The status named by status text, in any case.
pub fn classify_status(text: &str) -> (r: MangaStatus)
    ensures
        r == status_of(lower_of(text@)),
{
    let lower = lowercase(text);
    status_from_lowercase(string_of(&lower).as_str())
}

/// A chapter node that can be read: it has an anchor with a non-empty link.
pub open spec fn node_kept(n: ChapterNode) -> bool {
    n.anchor matches Some(a) && attr_or_empty(a, AttrName::Href).len() > 0
}

/// The readable nodes among the first `n`, in order.
pub open spec fn kept_nodes(nodes: Seq<ChapterNode>, n: int) -> Seq<ChapterNode>
    decreases n,
{
    if n <= 0 || n > nodes.len() {
        Seq::empty()
    } else if node_kept(nodes[n - 1]) {
        kept_nodes(nodes, n - 1).push(nodes[n - 1])
    } else {
        kept_nodes(nodes, n - 1)
    }
}

/// `c` is the chapter read from the readable node `n` at `position`.
pub open spec fn chapter_of(c: Chapter, n: ChapterNode, position: usize) -> bool {
    let a = n.anchor.unwrap();
    let href = attr_or_empty(a, AttrName::Href);
    &&& c.key@ == chapter_key_of(href)
    &&& opt_view(c.title) == opt_view(a.text)
    &&& c.url matches Some(u) && u@ == href
    &&& c.locked == contains_seq(attr_or_empty(n.item, AttrName::Class), "premium"@)
    &&& number_is(c.chapter_number, opt_view(a.text), position)
}

/// `r` is the chapter list read from `nodes`: one chapter per readable node,
/// in order, the k-th of them at position `nodes.len() - k`.
pub open spec fn chapters_result(nodes: Seq<ChapterNode>, r: Seq<Chapter>) -> bool {
    let kept = kept_nodes(nodes, nodes.len() as int);
    &&& r.len() == kept.len()
    &&& forall|k: int| 0 <= k < r.len() ==> chapter_of(#[trigger] r[k], kept[k], (nodes.len() - k) as usize)
}

/// A copy of an optional string.
fn copy_opt(o: &Option<String>) -> (r: Option<String>)
    ensures
        opt_view(r) == opt_view(*o),
{
    match o {
        Some(s) => Some(string_of(&chars_of(s.as_str()))),
        None => None,
    }
}

/// Reads the chapters of a chapter list, newest first. Nodes without an
/// anchor or with an empty link are skipped; the ordinal falls back to a
/// position that starts at the node count and drops by one per chapter read.
pub fn parse_chapters(nodes: &Vec<ChapterNode>) -> (r: Vec<Chapter>)
    ensures
        chapters_result(nodes@, r@),
{
    let mut out: Vec<Chapter> = Vec::new();
    let mut i: usize = 0;
    let ghost all = nodes@;
    while i < nodes.len()
        invariant
            i <= nodes.len(),
            all == nodes@,
            out@.len() == kept_nodes(all, i as int).len(),
            out@.len() <= i,
            forall|k: int| 0 <= k < out@.len() ==>
                chapter_of(#[trigger] out@[k], kept_nodes(all, i as int)[k], (nodes.len() - k) as usize),
        decreases nodes.len() - i,
    {
        let node = &nodes[i];
        if let Some(a) = &node.anchor {
            let href = attr_or_blank(a, AttrName::Href);
            if href.len() > 0 {
                let href_s = string_of(&href);
                let class = attr_or_blank(&node.item, AttrName::Class);
                let position: usize = nodes.len() - out.len();
                let c = Chapter {
                    key: chapter_key(href_s.as_str()),
                    title: copy_opt(&a.text),
                    url: Some(href_s),
                    chapter_number: infer_chapter_number(&a.text, position),
                    locked: contains(&class, &chars_of("premium")),
                };
                out.push(c);
            }
        }
        i = i + 1;
    }
    out
}

/// The cover found on a detail document, empty when there is none.
pub open spec fn detail_cover(doc: DetailDocument) -> Seq<char> {
    match doc.cover_image {
        Some(img) => cascade(img, image_attrs()),
        None => Seq::empty(),
    }
}

/// The texts of the first `n` nodes that have one, in order.
pub open spec fn texts_of(elems: Seq<Element>, n: int) -> Seq<Seq<char>>
    decreases n,
{
    if n <= 0 || n > elems.len() {
        Seq::empty()
    } else {
        match elems[n - 1].text {
            Some(t) => texts_of(elems, n - 1).push(t@),
            None => texts_of(elems, n - 1),
        }
    }
}

/// An optional list field set to these names, absent when there are none.
pub open spec fn list_field_is(f: Option<Vec<String>>, names: Seq<Seq<char>>) -> bool {
    if names.len() > 0 {
        f matches Some(v) && strings_view(v@) == names
    } else {
        f is None
    }
}

/// The status text of a detail document, empty when there is none.
pub open spec fn status_text(doc: DetailDocument) -> Seq<char> {
    match doc.status {
        Some(e) => match e.text {
            Some(t) => t@,
            None => Seq::empty(),
        },
        None => Seq::empty(),
    }
}

/// `r` is `old` enriched with the metadata of `doc`.
pub open spec fn details_result(old: CatalogEntry, doc: DetailDocument, r: CatalogEntry) -> bool {
    let cover = detail_cover(doc);
    &&& r.key@ == old.key@
    &&& r.title@ == (match doc.heading {
        Some(h) => match h.text {
            Some(t) => t@,
            None => old.title@,
        },
        None => old.title@,
    })
    &&& opt_view(r.cover) == (if cover.len() > 0 { Some(cover) } else { opt_view(old.cover) })
    &&& opt_view(r.description) == (match doc.summary {
        Some(s) => opt_view(s.text),
        None => None,
    })
    &&& opt_view(r.url) == Some(detail_url_of(old.key@))
    &&& r.viewer == Viewer::Webtoon
    &&& list_field_is(r.authors, texts_of(doc.authors@, doc.authors@.len() as int))
    &&& list_field_is(r.tags, texts_of(doc.genres@, doc.genres@.len() as int))
    &&& r.status == status_of(lower_of(status_text(doc)))
    &&& r.chapters == old.chapters
}

/// The texts of the nodes that have one, in order.
pub fn node_texts(elems: &Vec<Element>) -> (r: Vec<String>)
    ensures
        strings_view(r@) == texts_of(elems@, elems@.len() as int),
{
    let mut out: Vec<String> = Vec::new();
    let mut i: usize = 0;
    while i < elems.len()
        invariant
            i <= elems.len(),
            strings_view(out@) == texts_of(elems@, i as int),
        decreases elems.len() - i,
    {
        if let Some(t) = &elems[i].text {
            let ghost before = out@;
            out.push(string_of(&chars_of(t.as_str())));
            assert(strings_view(out@) =~= strings_view(before).push(t@));
        }
        i = i + 1;
    }
    out
}

/// The list for an optional list field: absent when empty.
fn list_field(v: Vec<String>) -> (r: Option<Vec<String>>)
    ensures
        list_field_is(r, strings_view(v@)),
{
    if v.len() > 0 {
        Some(v)
    } else {
        None
    }
}

/// Enriches `entry` with the metadata of its detail document: title and
/// cover where found, description, canonical URL, webtoon viewer, authors,
/// tags and status.
pub fn apply_details(entry: CatalogEntry, doc: &DetailDocument) -> (r: CatalogEntry)
    ensures
        details_result(entry, *doc, r),
{
    let mut e = entry;
    if let Some(h) = &doc.heading {
        if let Some(t) = &h.text {
            e.title = string_of(&chars_of(t.as_str()));
        }
    }
    if let Some(img) = &doc.cover_image {
        let names = image_attr_names();
        let c = first_filled(img, &names);
        if c.len() > 0 {
            e.cover = Some(string_of(&c));
        }
    }
    e.description = match &doc.summary {
        Some(s) => copy_opt(&s.text),
        None => None,
    };
    e.url = Some(detail_url(e.key.as_str()));
    e.viewer = Viewer::Webtoon;
    e.authors = list_field(node_texts(&doc.authors));
    e.tags = list_field(node_texts(&doc.genres));
    let status_src: Vec<char> = match &doc.status {
        Some(s) => match &s.text {
            Some(t) => chars_of(t.as_str()),
            None => Vec::new(),
        },
        None => Vec::new(),
    };
    e.status = classify_status(string_of(&status_src).as_str());
    e
}

/// The post identifier of a detail document, empty when absent.
pub open spec fn post_id_of(doc: DetailDocument) -> Seq<char> {
    match doc.post_id {
        Some(p) => attr_or_empty(p, AttrName::Value),
        None => Seq::empty(),
    }
}

/// The endpoint that serves chapter lists.
pub open spec fn ajax_url() -> Seq<char> {
    base_seq() + "/wp-admin/admin-ajax.php"@
}

/// The request for the chapter list of `doc`: made only when the document
/// lists no chapter and carries a non-empty post identifier.
pub fn chapter_request(doc: &DetailDocument) -> (r: Option<ChapterRequest>)
    ensures
        match r {
            Some(q) => doc.chapter_nodes@.len() == 0 && post_id_of(*doc).len() > 0
                && q.url@ == ajax_url()
                && q.body@ == "action=manga_get_chapters&manga="@ + post_id_of(*doc),
            None => doc.chapter_nodes@.len() > 0 || post_id_of(*doc).len() == 0,
        },
{
    if doc.chapter_nodes.len() > 0 {
        return None;
    }
    let id = match &doc.post_id {
        Some(p) => attr_or_blank(p, AttrName::Value),
        None => Vec::new(),
    };
    if id.len() == 0 {
        return None;
    }
    let mut url = chars_of(BASE_URL);
    push_all(&mut url, &chars_of("/wp-admin/admin-ajax.php"));
    let mut body = chars_of("action=manga_get_chapters&manga=");
    push_all(&mut body, &id);
    Some(ChapterRequest { url: string_of(&url), body: string_of(&body) })
}

/// Enriches `entry` with its chapter list: the chapters of `doc` when it
/// lists any, else those of the recovered list, else none.
pub fn apply_chapters(entry: CatalogEntry, doc: &DetailDocument, recovered: Option<Vec<ChapterNode>>) -> (r: CatalogEntry)
    ensures
        r.key == entry.key,
        r.title == entry.title,
        r.cover == entry.cover,
        r.url == entry.url,
        r.description == entry.description,
        r.authors == entry.authors,
        r.tags == entry.tags,
        r.status == entry.status,
        r.viewer == entry.viewer,
        r.chapters matches Some(cs) && (if doc.chapter_nodes@.len() > 0 {
            chapters_result(doc.chapter_nodes@, cs@)
        } else {
            match recovered {
                Some(nodes) => chapters_result(nodes@, cs@),
                None => cs@.len() == 0,
            }
        }),
{
    let mut e = entry;
    let chapters = if doc.chapter_nodes.len() > 0 {
        parse_chapters(&doc.chapter_nodes)
    } else {
        match &recovered {
            Some(nodes) => parse_chapters(nodes),
            None => Vec::new(),
        }
    };
    e.chapters = Some(chapters);
    e
}

} // verus!
