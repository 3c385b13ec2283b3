pub mod auth;
pub mod block_models;
pub mod retrieve_blocks;

use vstd::prelude::*;

use crate::routes::typesense::{DocumentView, Product, RowType, TypesenseInsert};
use crate::utilities::json::{json_text, json_value_text, value_at_index, value_at_key, JsonValue};
use crate::utilities::numbers::{parse_u64, u64_from_text};
use crate::utilities::text::{owned, remove_char, same_text, without_char};
use crate::utilities::time::{parse_rfc3339_seconds, rfc3339_seconds};
use vstd::string::StringExecFns;

use block_models::BlockObject;
use retrieve_blocks::{block_contents, block_dates_valid, block_document, checked_parse_block, next_cursor};
use crate::utilities::json::unquoted_text;

verus! {

/// The account whose Notion workspace is to be indexed.
#[derive(Debug, PartialEq)]
pub struct IndexNotionRequest {
    pub email: String,
}

/// The account and the text of a single Notion search.
#[derive(Debug, PartialEq)]
pub struct SingleSearchNotionRequest {
    pub email: String,
    pub query: String,
}

/* ------------------- SEARCH QUERY --------------------------- */
/// A Notion search.
#[derive(Debug, PartialEq)]
pub struct SearchQuery {
    pub query: String,
    pub sort: Option<Sort>,
}

/// A filter of a Notion search.
#[derive(Debug, PartialEq)]
pub struct Filter {
    pub value: String,
    pub property: String,
}

/// The order of a Notion search.
#[derive(Debug, PartialEq)]
pub struct Sort {
    pub direction: String,
    pub timestamp: String,
}

/* ------------------- SEARCH RESPONSE --------------------------- */
/// One page of the results of a Notion search.
#[derive(Debug, PartialEq)]
pub struct SearchResponse {
    pub has_more: bool,
    pub next_cursor: JsonValue,
    pub object: String,
    pub page_or_database: PageOrDatabase,
    pub results: Vec<SResult>,
    pub type_field: String,
}

/// The (empty) `page_or_database` member of a search reply.
#[derive(Debug, PartialEq)]
pub struct PageOrDatabase {}

/// A page or database found by a search.
#[derive(Debug, PartialEq)]
pub struct SResult {
    pub archived: bool,
    pub cover: JsonValue,
    pub created_by: CreatedBy,
    pub created_time: String,
    pub icon: JsonValue,
    pub id: String,
    pub last_edited_by: LastEditedBy,
    pub last_edited_time: String,
    pub object: String,
    pub parent: Parent,
    pub properties: Properties,
    pub url: String,
    pub description: Vec<JsonValue>,
    pub is_inline: Option<bool>,
    pub title: Vec<Title3>,
}

/// Who created a page.
#[derive(Debug, PartialEq)]
pub struct CreatedBy {
    pub id: String,
    pub object: String,
}

/// Who last edited a page.
#[derive(Debug, PartialEq)]
pub struct LastEditedBy {
    pub id: String,
    pub object: String,
}

/// Where a page lives.
#[derive(Debug, PartialEq)]
pub struct Parent {
    pub database_id: Option<String>,
    pub type_field: String,
    pub page_id: Option<String>,
    pub workspace: Option<bool>,
}

/// The properties of a page: its name, tags and title, and every other property.
#[derive(Debug, PartialEq)]
pub struct Properties {
    pub name: Option<Name>,
    pub tags: Option<Tags>,
    pub title: Option<Title>,
    pub extra: Vec<(String, JsonValue)>,
}

/// The `Name` property of a database page.
#[derive(Debug, PartialEq)]
pub struct Name {
    pub id: String,
    pub title: JsonValue,
    pub type_field: String,
    pub name: Option<String>,
}

/// The `Tags` property of a database page.
#[derive(Debug, PartialEq)]
pub struct Tags {
    pub id: String,
    pub multi_select: JsonValue,
    pub type_field: String,
    pub name: Option<String>,
}

/// The `title` property of a page.
#[derive(Debug, PartialEq)]
pub struct Title {
    pub id: String,
    pub title: Vec<Title2>,
    pub type_field: String,
}

/// A run of text of a page title.
#[derive(Debug, PartialEq)]
pub struct Title2 {
    pub annotations: Annotations,
    pub href: JsonValue,
    pub plain_text: String,
    pub text: Text,
    pub type_field: String,
}

/// The styling of a run of a page title.
#[derive(Debug, PartialEq)]
pub struct Annotations {
    pub bold: bool,
    pub code: bool,
    pub color: String,
    pub italic: bool,
    pub strikethrough: bool,
    pub underline: bool,
}

/// The text of a run of a page title.
#[derive(Debug, PartialEq)]
pub struct Text {
    pub content: String,
    pub link: JsonValue,
}

/// A run of text of a database title.
#[derive(Debug, PartialEq)]
pub struct Title3 {
    pub annotations: Annotations2,
    pub href: JsonValue,
    pub plain_text: String,
    pub text: Text2,
    pub type_field: String,
}

/// The styling of a run of a database title.
#[derive(Debug, PartialEq)]
pub struct Annotations2 {
    pub bold: bool,
    pub code: bool,
    pub color: String,
    pub italic: bool,
    pub strikethrough: bool,
    pub underline: bool,
}

/// The text of a run of a database title.
#[derive(Debug, PartialEq)]
pub struct Text2 {
    pub content: String,
    pub link: JsonValue,
}

/// The JSON text of the `plain_text` of the first run of a page's `Name` property, or
/// nothing when there is none.
pub open spec fn name_text(props: Properties) -> Seq<char> {
    match props.name {
        Some(n) => match value_at_index(n.title, 0) {
            Some(first) => match value_at_key(first, "plain_text"@) {
                Some(pt) => json_text(pt),
                None => Seq::empty(),
            },
            None => Seq::empty(),
        },
        None => Seq::empty(),
    }
}

/// The plain text of the first run of a page's `title` property, or nothing when the page
/// has no such property.
pub open spec fn title_text(props: Properties) -> Seq<char> {
    match props.title {
        Some(t) => t.title@[0].plain_text@,
        None => Seq::empty(),
    }
}

/// Whether a search result has neither a name nor a title, so that it is not indexed.
pub open spec fn untitled(r: SResult) -> bool {
    name_text(r.properties).len() == 0 && title_text(r.properties).len() == 0
}

/// The title under which a page is indexed: its name and title, without double quotes.
pub open spec fn page_title(r: SResult) -> Seq<char> {
    without_char(name_text(r.properties) + title_text(r.properties), '"')
}

/// Whether indexing can read a search result: a `title` property
/// has at least one run, and an indexed page has valid RFC 3339 dates.
pub open spec fn page_readable(r: SResult) -> bool {
    &&& (r.properties.title matches Some(t) ==> t.title@.len() > 0)
    &&& (!untitled(r) ==> rfc3339_seconds(r.created_time@) is Some
        && rfc3339_seconds(r.last_edited_time@) is Some)
}

/// The document that indexes a page found by a search.
pub open spec fn page_document(r: SResult) -> DocumentView {
    DocumentView {
        account_email: "test"@,
        id: r.id@,
        title: page_title(r),
        contents: page_title(r),
        url: r.url@,
        added_by: None,
        platform: Product::Notion,
        type_field: RowType::File,
        last_edited_time: rfc3339_seconds(r.last_edited_time@)->0,
        created_time: rfc3339_seconds(r.created_time@)->0,
    }
}

/// The documents of the titled pages of `results`, in order.
pub open spec fn page_documents(results: Seq<SResult>) -> Seq<DocumentView>
    decreases results.len(),
{
    if results.len() == 0 {
        Seq::empty()
    } else if untitled(results.last()) {
        page_documents(results.drop_last())
    } else {
        page_documents(results.drop_last()).push(page_document(results.last()))
    }
}

/// Whether `d` indexes the page `r`: it carries the page's id, title and address, and the
/// Unix seconds of the page's own creation and last edit.
pub open spec fn indexes_page(d: DocumentView, r: SResult) -> bool {
    &&& d.id == r.id@
    &&& d.title == page_title(r)
    &&& d.url == r.url@
    &&& d.platform == Product::Notion
    &&& d.created_time == rfc3339_seconds(r.created_time@)->0
    &&& d.last_edited_time == rfc3339_seconds(r.last_edited_time@)->0
}

/// Whether `d` indexes one of the titled pages of `results`.
pub open spec fn indexes_a_titled_page(d: DocumentView, results: Seq<SResult>) -> bool {
    exists|i: int| 0 <= i < results.len() && !untitled(#[trigger] results[i]) && indexes_page(d, results[i])
}

/// Whether some document of `docs` indexes the page `r`.
pub open spec fn has_document_for(docs: Seq<DocumentView>, r: SResult) -> bool {
    exists|k: int| 0 <= k < docs.len() && indexes_page(#[trigger] docs[k], r)
}

/// Law: every document made from the results of a search indexes one of its titled
/// pages, with that page's creation and last-edit times in the matching fields, and every
/// titled page has such a document.
pub proof fn lemma_page_documents_index_pages(results: Seq<SResult>)
    ensures
        forall|k: int| 0 <= k < page_documents(results).len() ==> indexes_a_titled_page(
            #[trigger] page_documents(results)[k], results),
        forall|i: int| 0 <= i < results.len() && !untitled(#[trigger] results[i]) ==> has_document_for(
            page_documents(results), results[i]),
    decreases results.len(),
{
    if results.len() > 0 {
        let rest = results.drop_last();
        lemma_page_documents_index_pages(rest);
        let docs = page_documents(results);
        let prev = page_documents(rest);
        let n = results.len() - 1;
        assert(results[n] == results.last());
        if untitled(results.last()) {
            assert(docs == prev);
        } else {
            assert(docs == prev.push(page_document(results.last())));
        }
        assert forall|k: int| 0 <= k < docs.len() implies indexes_a_titled_page(#[trigger] docs[k], results) by {
            if k < prev.len() {
                assert(docs[k] == prev[k]);
                assert(indexes_a_titled_page(prev[k], rest));
                let i = choose|i: int| 0 <= i < rest.len() && !untitled(#[trigger] rest[i])
                    && indexes_page(prev[k], rest[i]);
                assert(results[i] == rest[i]);
                assert(!untitled(results[i]) && indexes_page(docs[k], results[i]));
            } else {
                assert(docs[k] == page_document(results.last()));
                assert(!untitled(results[n]) && indexes_page(docs[k], results[n]));
            }
        }
        assert forall|i: int| 0 <= i < results.len() && !untitled(#[trigger] results[i]) implies has_document_for(
            docs, results[i]) by {
            if i < n {
                assert(rest[i] == results[i]);
                assert(has_document_for(prev, rest[i]));
                let k = choose|k: int| 0 <= k < prev.len() && indexes_page(#[trigger] prev[k], rest[i]);
                assert(docs[k] == prev[k]);
                assert(indexes_page(docs[k], results[i]));
            } else {
                assert(docs[prev.len() as int] == page_document(results.last()));
                assert(indexes_page(docs[prev.len() as int], results[i]));
            }
        }
    }
}

fn read_name_text(props: &Properties) -> (r: String)
    ensures
        r@ == name_text(*props),
{
    match &props.name {
        Some(n) => match n.title.get_index(0) {
            Some(first) => match first.get_key("plain_text") {
                Some(pt) => json_value_text(pt),
                None => String::new(),
            },
            None => String::new(),
        },
        None => String::new(),
    }
}

fn read_title_text(props: &Properties) -> (r: String)
    requires
        props.title matches Some(t) ==> t.title@.len() > 0,
    ensures
        r@ == title_text(*props),
{
    match &props.title {
        Some(t) => t.title[0].plain_text.clone(),
        None => String::new(),
    }
}

/// The documents that index the titled pages found by a search, in order; pages with
/// neither a name nor a title are left out.
pub fn parse_pages(response: SearchResponse) -> (r: Vec<TypesenseInsert>)
    requires
        forall|i: int| 0 <= i < response.results@.len() ==> page_readable(#[trigger] response.results@[i]),
    ensures
        r@.map_values(|d: TypesenseInsert| d@) == page_documents(response.results@),
        forall|k: int| 0 <= k < r@.len() ==> indexes_a_titled_page(#[trigger] r@[k]@, response.results@),
        forall|i: int| 0 <= i < response.results@.len() && !untitled(#[trigger] response.results@[i])
            ==> has_document_for(r@.map_values(|d: TypesenseInsert| d@), response.results@[i]),
{
    proof {
        lemma_page_documents_index_pages(response.results@);
    }
    let results = &response.results;
    let mut docs: Vec<TypesenseInsert> = Vec::new();
    let n = results.len();
    let mut i: usize = 0;
    while i < n
        invariant
            n == results@.len(),
            i <= n,
            forall|j: int| 0 <= j < n ==> page_readable(#[trigger] results@[j]),
            docs@.map_values(|d: TypesenseInsert| d@) == page_documents(results@.take(i as int)),
        decreases n - i,
    {
        let result = &results[i];
        assert(page_readable(results@[i as int]));
        assert(results@.take(i as int + 1).drop_last() == results@.take(i as int));
        assert(results@.take(i as int + 1).last() == results@[i as int]);
        let prop_name = read_name_text(&result.properties);
        let prop_title = read_title_text(&result.properties);
        if prop_name.unicode_len() != 0 || prop_title.unicode_len() != 0 {
            let mut both = prop_name.clone();
            both.append(prop_title.as_str());
            let title = remove_char(both.as_str(), '"');
            let contents = title.clone();
            let last_edited_time = match parse_rfc3339_seconds(result.last_edited_time.as_str()) {
                Some(t) => t,
                None => 0,
            };
            let created_time = match parse_rfc3339_seconds(result.created_time.as_str()) {
                Some(t) => t,
                None => 0,
            };
            let ghost before = docs@;
            docs.push(TypesenseInsert {
                account_email: owned("test"),
                id: result.id.clone(),
                title,
                contents,
                url: result.url.clone(),
                added_by: None,
                platform: Product::Notion,
                type_field: RowType::File,
                last_edited_time,
                created_time,
            });
            assert(docs@.map_values(|d: TypesenseInsert| d@) =~= before.map_values(
                |d: TypesenseInsert| d@,
            ).push(page_document(results@[i as int])));
        }
        i = i + 1;
    }
    assert(results@.take(n as int) == results@);
    assert forall|k: int| 0 <= k < docs@.len() implies indexes_a_titled_page(#[trigger] docs@[k]@, response.results@) by {
        assert(docs@[k]@ == docs@.map_values(|d: TypesenseInsert| d@)[k]);
    }
    docs
}


/// The documents of the titled pages found by a search, or `None` when one of the results
/// cannot be read (an empty `title` property, or an invalid date of an indexed page).
pub fn checked_parse_pages(response: SearchResponse) -> (r: Option<Vec<TypesenseInsert>>)
    ensures
        match r {
            Some(docs) => docs@.map_values(|d: TypesenseInsert| d@) == page_documents(response.results@),
            None => exists|i: int| 0 <= i < response.results@.len() && !page_readable(#[trigger] response.results@[i]),
        },
{
    let n = response.results.len();
    let mut i: usize = 0;
    while i < n
        invariant
            n == response.results@.len(),
            i <= n,
            forall|j: int| 0 <= j < i ==> page_readable(#[trigger] response.results@[j]),
        decreases n - i,
    {
        let result = &response.results[i];
        let title_ok = match &result.properties.title {
            Some(t) => t.title.len() > 0,
            None => true,
        };
        if !title_ok {
            assert(!page_readable(response.results@[i as int]));
            return None;
        }
        let prop_name = read_name_text(&result.properties);
        let prop_title = read_title_text(&result.properties);
        if prop_name.unicode_len() != 0 || prop_title.unicode_len() != 0 {
            if parse_rfc3339_seconds(result.created_time.as_str()).is_none()
                || parse_rfc3339_seconds(result.last_edited_time.as_str()).is_none() {
                assert(!page_readable(response.results@[i as int]));
                return None;
            }
        }
        i = i + 1;
    }
    Some(parse_pages(response))
}

/// The documents of the pages of a workspace, one per page id, in the order the ids were
/// first seen.
pub struct PageCollection {
    pages: Vec<TypesenseInsert>,
}

/// The collection `pages` after storing `d`: the document of the same id is replaced in
/// its place, or `d` is added at the end when its id is new.
pub open spec fn stored(pages: Seq<DocumentView>, d: DocumentView) -> Seq<DocumentView> {
    if exists|i: int| 0 <= i < pages.len() && (#[trigger] pages[i]).id == d.id {
        let i = choose|i: int| 0 <= i < pages.len() && (#[trigger] pages[i]).id == d.id;
        pages.update(i, d)
    } else {
        pages.push(d)
    }
}

/// Whether no two documents of `pages` share an id.
pub open spec fn distinct_ids(pages: Seq<DocumentView>) -> bool {
    forall|a: int, b: int| 0 <= a < b < pages.len() ==> pages[a].id != pages[b].id
}

/// The document held under `id`, if any.
pub open spec fn page_with_id(pages: Seq<DocumentView>, id: Seq<char>) -> Option<DocumentView> {
    if exists|i: int| 0 <= i < pages.len() && (#[trigger] pages[i]).id == id {
        let i = choose|i: int| 0 <= i < pages.len() && (#[trigger] pages[i]).id == id;
        Some(pages[i])
    } else {
        None
    }
}

impl PageCollection {
    #[verifier::type_invariant]
    spec fn unique_ids(&self) -> bool {
        distinct_ids(self.pages@.map_values(|d: TypesenseInsert| d@))
    }

    /// The documents held, in order.
    pub closed spec fn view_pages(&self) -> Seq<DocumentView> {
        self.pages@.map_values(|d: TypesenseInsert| d@)
    }

    /// An empty collection.
    pub fn new() -> (r: Self)
        ensures
            r.view_pages().len() == 0,
    {
        let r = PageCollection { pages: Vec::new() };
        assert(r.pages@.map_values(|d: TypesenseInsert| d@) =~= Seq::<DocumentView>::empty());
        r
    }

    /// The documents held, in the order their ids were first seen.
    pub fn pages(&self) -> (r: &Vec<TypesenseInsert>)
        ensures
            r@.map_values(|d: TypesenseInsert| d@) == self.view_pages(),
            distinct_ids(self.view_pages()),
    {
        proof {
            use_type_invariant(self);
        }
        &self.pages
    }

    /// Whether a document with the id `id` is held (whether `id` was seen).
    pub fn contains_id(&self, id: &str) -> (r: bool)
        ensures
            r == exists|i: int| 0 <= i < self.view_pages().len() && (#[trigger] self.view_pages()[i]).id == id@,
    {
        let n = self.pages.len();
        let mut i: usize = 0;
        while i < n
            invariant
                n == self.pages@.len(),
                i <= n,
                forall|j: int| 0 <= j < i ==> (#[trigger] self.pages@[j]).id@ != id@,
            decreases n - i,
        {
            if same_text(self.pages[i].id.as_str(), id) {
                assert(self.view_pages()[i as int].id == id@);
                return true;
            }
            i = i + 1;
        }
        assert forall|j: int| 0 <= j < self.view_pages().len() implies (#[trigger] self.view_pages()[j]).id != id@ by {
            assert(self.view_pages()[j] == self.pages@[j]@);
        }
        false
    }

    /// Stores `d` under its id: a document with the same id is replaced in its place,
    /// otherwise `d` is added at the end.
    pub fn insert(&mut self, d: TypesenseInsert)
        ensures
            final(self).view_pages() == stored(old(self).view_pages(), d@),
            distinct_ids(final(self).view_pages()),
    {
        proof {
            use_type_invariant(&*self);
        }
        let ghost old_view = self.view_pages();
        let ghost dv = d@;
        let mut pages: Vec<TypesenseInsert> = Vec::new();
        std::mem::swap(&mut pages, &mut self.pages);
        let n = pages.len();
        let mut i: usize = 0;
        let mut found: Option<usize> = None;
        while i < n
            invariant
                n == pages@.len(),
                i <= n,
                pages@.map_values(|x: TypesenseInsert| x@) == old_view,
                dv == d@,
                match found {
                    Some(k) => k < n && old_view[k as int].id == dv.id,
                    None => forall|j: int| 0 <= j < i ==> (#[trigger] old_view[j]).id != dv.id,
                },
            decreases n - i,
        {
            if found.is_none() && same_text(pages[i].id.as_str(), d.id.as_str()) {
                assert(old_view[i as int] == pages@.map_values(|x: TypesenseInsert| x@)[i as int]);
                assert(old_view[i as int].id == pages@[i as int].id@);
                assert(dv.id == d.id@);
                found = Some(i);
            }
            i = i + 1;
        }
        match found {
            Some(k) => {
                pages.set(k, d);
                proof {
                    let w = choose|w: int| 0 <= w < old_view.len() && (#[trigger] old_view[w]).id == dv.id;
                    assert(w == k as int);
                    assert(pages@.map_values(|x: TypesenseInsert| x@) =~= old_view.update(k as int, dv));
                }
            },
            None => {
                pages.push(d);
                assert(pages@.map_values(|x: TypesenseInsert| x@) =~= old_view.push(dv));
            },
        }
        self.pages = pages;
    }
}

/// Law: after a document is stored, it is the one held under its id, and the documents
/// held under every other id are unchanged.
pub proof fn lemma_stored_then_found(pages: Seq<DocumentView>, d: DocumentView, other: Seq<char>)
    requires
        distinct_ids(pages),
    ensures
        distinct_ids(stored(pages, d)),
        page_with_id(stored(pages, d), d.id) == Some(d),
        other != d.id ==> page_with_id(stored(pages, d), other) == page_with_id(pages, other),
{
    let s = stored(pages, d);
    if exists|i: int| 0 <= i < pages.len() && (#[trigger] pages[i]).id == d.id {
        let k = choose|i: int| 0 <= i < pages.len() && (#[trigger] pages[i]).id == d.id;
        assert(s[k] == d);
        let w = choose|i: int| 0 <= i < s.len() && (#[trigger] s[i]).id == d.id;
        assert(w == k);
        if other != d.id {
            if exists|i: int| 0 <= i < pages.len() && (#[trigger] pages[i]).id == other {
                let a = choose|i: int| 0 <= i < pages.len() && (#[trigger] pages[i]).id == other;
                assert(s[a] == pages[a]);
                let b = choose|i: int| 0 <= i < s.len() && (#[trigger] s[i]).id == other;
                assert(b == a);
            } else {
                assert forall|i: int| 0 <= i < s.len() implies (#[trigger] s[i]).id != other by {
                    if i != k {
                        assert(s[i] == pages[i]);
                    }
                }
            }
        }
    } else {
        assert(s[pages.len() as int] == d);
        let w = choose|i: int| 0 <= i < s.len() && (#[trigger] s[i]).id == d.id;
        assert(w == pages.len());
        if other != d.id {
            if exists|i: int| 0 <= i < pages.len() && (#[trigger] pages[i]).id == other {
                let a = choose|i: int| 0 <= i < pages.len() && (#[trigger] pages[i]).id == other;
                assert(s[a] == pages[a]);
                let b = choose|i: int| 0 <= i < s.len() && (#[trigger] s[i]).id == other;
                assert(b == a);
            } else {
                assert forall|i: int| 0 <= i < s.len() implies (#[trigger] s[i]).id != other by {
                    if i < pages.len() {
                        assert(s[i] == pages[i]);
                    }
                }
            }
        }
    }
}


/// Whether some document of `pages` has the id `id`.
pub open spec fn seen_id(pages: Seq<DocumentView>, id: Seq<char>) -> bool {
    exists|i: int| 0 <= i < pages.len() && (#[trigger] pages[i]).id == id
}

/// The documents of the blocks of one page that hold text and whose ids are not the ids
/// of pages, in order.
pub open spec fn block_documents(
    blocks: Seq<BlockObject>,
    parent_name: Seq<char>,
    parent_url: Seq<char>,
    pages: Seq<DocumentView>,
) -> Seq<DocumentView>
    decreases blocks.len(),
{
    if blocks.len() == 0 {
        Seq::empty()
    } else {
        let earlier = block_documents(blocks.drop_last(), parent_name, parent_url, pages);
        let b = blocks.last();
        if block_contents(b).len() > 0 && !seen_id(pages, b.id@) {
            earlier.push(block_document(b, parent_name, parent_url))
        } else {
            earlier
        }
    }
}

/// Whether every block of `blocks` that holds text has valid dates.
pub open spec fn blocks_readable(blocks: Seq<BlockObject>) -> bool {
    forall|i: int| 0 <= i < blocks.len() ==> (block_contents(#[trigger] blocks[i]).len() > 0
        ==> block_dates_valid(blocks[i]))
}

/// The documents that index the blocks of the page titled `parent_name` at `parent_url`:
/// one per block that holds text and whose id is not already the id of an indexed page,
/// in order; `Err(())` when a block with text has an invalid date.
pub fn page_block_documents(
    blocks: Vec<BlockObject>,
    parent_name: &str,
    parent_url: &str,
    pages: &PageCollection,
) -> (r: core::result::Result<Vec<TypesenseInsert>, ()>)
    ensures
        match r {
            Ok(docs) => blocks_readable(blocks@) && docs@.map_values(|d: TypesenseInsert| d@)
                == block_documents(blocks@, parent_name@, parent_url@, pages.view_pages()),
            Err(_) => !blocks_readable(blocks@),
        },
{
    let ghost all = blocks@;
    let mut rest = blocks;
    let mut docs: Vec<TypesenseInsert> = Vec::new();
    let n = rest.len();
    let mut i: usize = 0;
    assert(all.skip(0) == all);
    while i < n
        invariant
            n == all.len(),
            all == blocks@,
            i <= n,
            rest@ == all.skip(i as int),
            forall|j: int| 0 <= j < i ==> (block_contents(#[trigger] all[j]).len() > 0
                ==> block_dates_valid(all[j])),
            docs@.map_values(|d: TypesenseInsert| d@) == block_documents(all.take(i as int), parent_name@, parent_url@, pages.view_pages()),
        decreases n - i,
    {
        assert(rest@.len() == n - i);
        let b = rest.remove(0);
        assert(b == all[i as int]);
        assert(rest@ =~= all.skip(i as int + 1));
        assert(all.take(i as int + 1).drop_last() == all.take(i as int));
        assert(all.take(i as int + 1).last() == all[i as int]);
        let ghost bv = b;
        match checked_parse_block(b, parent_name, parent_url) {
            Err(_) => {
                assert(!blocks_readable(all));
                return Err(());
            },
            Ok(None) => {},
            Ok(Some((block_id, doc))) => {
                if !pages.contains_id(block_id.as_str()) {
                    let ghost before = docs@;
                    docs.push(doc);
                    assert(docs@.map_values(|d: TypesenseInsert| d@) =~= before.map_values(
                        |d: TypesenseInsert| d@).push(block_document(bv, parent_name@, parent_url@)));
                }
            },
        }
        i = i + 1;
    }
    assert(all.take(n as int) == all);
    Ok(docs)
}

/// The body of a Notion search: the searched text, and the cursor of the page wanted
/// when it is not the first.
#[derive(Debug, PartialEq)]
pub struct SearchBody {
    pub query: String,
    pub start_cursor: Option<String>,
}

/// The body of the search for `query`, starting at `cursor` when one is given.
pub fn search_body(cursor: Option<String>, query: &str) -> (r: SearchBody)
    ensures
        r.query@ == query@,
        r.start_cursor == cursor,
{
    SearchBody { query: owned(query), start_cursor: cursor }
}

/// What to do with the reply to a search request.
#[derive(Debug, PartialEq)]
pub enum SearchReplyAction {
    /// The reply holds results: read them.
    Read,
    /// The service limits the rate: wait this many seconds and ask again.
    RetryAfter(u64),
    /// The service limits the rate and its `Retry-After` header is not a number.
    InvalidRetryAfter,
    /// Give up with this error.
    Fail(&'static str),
}

/// What to do with a search reply of HTTP status `status` whose `Retry-After` header, if
/// present, reads `retry_after`.
pub fn search_reply_action(status: u16, retry_after: Option<&str>) -> (r: SearchReplyAction)
    ensures
        status == 200 ==> r == SearchReplyAction::Read,
        status == 429 ==> match retry_after {
            Some(t) => match u64_from_text(t@) {
                Some(w) => r == SearchReplyAction::RetryAfter(w),
                None => r == SearchReplyAction::InvalidRetryAfter,
            },
            None => r matches SearchReplyAction::Fail(m) && m@ == "Rate-limited"@,
        },
        status != 200 && status != 429 ==> (r matches SearchReplyAction::Fail(m) && m@
            == "Unexpected HTTP status code"@),
{
    if status == 200 {
        SearchReplyAction::Read
    } else if status == 429 {
        match retry_after {
            Some(t) => match parse_u64(t) {
                Some(w) => SearchReplyAction::RetryAfter(w),
                None => SearchReplyAction::InvalidRetryAfter,
            },
            None => SearchReplyAction::Fail("Rate-limited"),
        }
    } else {
        SearchReplyAction::Fail("Unexpected HTTP status code")
    }
}


/// The collection `pages` after storing each of `docs` in turn.
pub open spec fn stored_all(pages: Seq<DocumentView>, docs: Seq<DocumentView>) -> Seq<DocumentView>
    decreases docs.len(),
{
    if docs.len() == 0 {
        pages
    } else {
        stored(stored_all(pages, docs.drop_last()), docs.last())
    }
}

/// Takes one page of search results into the collection of the workspace's pages: the
/// document of every titled page is stored under its id, in order. Gives the cursor of
/// the next page of results (none when the reply's cursor is `null`); `Err(())`, with the
/// collection unchanged, when a result cannot be read.
pub fn absorb_search_page(pages: &mut PageCollection, response: SearchResponse) -> (r: core::result::Result<Option<String>, ()>)
    ensures
        match r {
            Ok(next) => {
                &&& final(pages).view_pages() == stored_all(old(pages).view_pages(), page_documents(response.results@))
                &&& match next {
                    Some(c) => !(response.next_cursor is Null) && c@ == unquoted_text(response.next_cursor),
                    None => response.next_cursor is Null,
                }
            },
            Err(_) => {
                &&& final(pages).view_pages() == old(pages).view_pages()
                &&& exists|i: int| 0 <= i < response.results@.len() && !page_readable(#[trigger] response.results@[i])
            },
        },
{
    let next = next_cursor(&response.next_cursor);
    let ghost results = response.results@;
    let docs = match checked_parse_pages(response) {
        Some(d) => d,
        None => {
            return Err(());
        },
    };
    let ghost all = docs@.map_values(|d: TypesenseInsert| d@);
    let ghost start = pages.view_pages();
    let mut rest = docs;
    let n = rest.len();
    let mut i: usize = 0;
    assert(rest@.skip(0) == rest@);
    let ghost all_docs = rest@;
    assert(all.take(0) =~= Seq::<DocumentView>::empty());
    while i < n
        invariant
            n == all_docs.len(),
            all == all_docs.map_values(|d: TypesenseInsert| d@),
            all == page_documents(results),
            i <= n,
            rest@ == all_docs.skip(i as int),
            pages.view_pages() == stored_all(start, all.take(i as int)),
        decreases n - i,
    {
        assert(rest@.len() == n - i);
        let d = rest.remove(0);
        assert(d == all_docs[i as int]);
        assert(rest@ =~= all_docs.skip(i as int + 1));
        assert(all.take(i as int + 1).drop_last() =~= all.take(i as int));
        assert(all.take(i as int + 1).last() == d@);
        pages.insert(d);
        i = i + 1;
    }
    assert(all.take(n as int) == all);
    Ok(next)
}

/// The address of Notion's search endpoint.
pub fn search_url() -> (r: &'static str)
    ensures
        r@ == "https://api.notion.com/v1/search"@,
{
    "https://api.notion.com/v1/search"
}

/// The version of the Notion API that requests name.
pub fn notion_version() -> (r: &'static str)
    ensures
        r@ == "2022-06-28"@,
{
    "2022-06-28"
}

/// A new row of a Notion database, with the given title text.
#[derive(Debug, PartialEq)]
pub struct NewRowRequest {
    pub database_id: String,
    pub title_content: String,
}

/// The row that the row-creation endpoint adds to the database `database_id`.
pub fn new_row_request(database_id: String) -> (r: NewRowRequest)
    ensures
        r.database_id == database_id,
        r.title_content@ == "REFACTORED RUST BABYYYY"@,
{
    NewRowRequest { database_id, title_content: owned("REFACTORED RUST BABYYYY") }
}

} // verus!
