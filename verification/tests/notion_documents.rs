use ndex::routes::notion::auth::{notion_basic_authorization, notion_token_request};
use ndex::routes::notion::block_models::{BlockObject, Parent as BlockParent};
use ndex::routes::notion::retrieve_blocks::{blocks_url, checked_parse_block, next_cursor, parse_block};
use ndex::routes::notion::{
    absorb_search_page, checked_parse_pages, page_block_documents, parse_pages, search_reply_action,
    Annotations, CreatedBy, LastEditedBy, Name, PageCollection, PageOrDatabase, Parent,
    Properties, SResult, SearchReplyAction, SearchResponse, Text, Title, Title2,
};
use ndex::routes::typesense::{Product, RowType};
use ndex::utilities::json::JsonValue;

fn text(s: &str) -> JsonValue {
    JsonValue::Text(s.to_string())
}

fn rich_text_object(plain: &str) -> JsonValue {
    JsonValue::Object(vec![(
        "rich_text".to_string(),
        JsonValue::Array(vec![JsonValue::Object(vec![
            ("type".to_string(), text("text")),
            ("plain_text".to_string(), text(plain)),
        ])]),
    )])
}

fn block(id: &str, kind: &str, extras: Vec<(String, JsonValue)>, created: &str) -> BlockObject {
    BlockObject {
        object: "block".to_string(),
        id: id.to_string(),
        parent: BlockParent { type_field: "page_id".to_string(), page_id: "p1".to_string() },
        created_time: created.to_string(),
        last_edited_time: "2023-01-02T03:04:05Z".to_string(),
        has_children: false,
        archived: false,
        type_field: kind.to_string(),
        extras,
    }
}

#[test]
fn paragraph_block_is_indexed_with_its_first_run() {
    let b = block("b1", "paragraph", vec![("paragraph".to_string(), rich_text_object("Say \"hi\""))], "2022-12-31T23:00:00Z");
    let (id, d) = parse_block(b, "Page", "https://notion/p1").unwrap();
    assert_eq!(id, "b1");
    assert_eq!(d.contents, "Say \\hi\\");
    assert_eq!(d.title, "Page");
    assert_eq!(d.url, "https://notion/p1");
    assert_eq!(d.account_email, "test");
    assert_eq!(d.created_time, 1672527600);
    assert_eq!(d.last_edited_time, 1672628645);
    assert_eq!(d.platform, Product::Notion);
    assert_eq!(d.type_field, RowType::File);
}

#[test]
fn other_blocks_are_skipped() {
    let b = block("b2", "image", vec![("image".to_string(), rich_text_object("x"))], "bad date");
    assert!(parse_block(b, "Page", "u").is_none());
    let empty = block("b3", "paragraph", vec![("paragraph".to_string(), JsonValue::Object(vec![]))], "bad date");
    assert!(parse_block(empty, "Page", "u").is_none());
    let bad = block("b4", "quote", vec![("quote".to_string(), rich_text_object("q"))], "bad date");
    assert_eq!(checked_parse_block(bad, "Page", "u"), Err(()));
}

fn page(id: &str, name: Option<&str>, title: Option<&str>) -> SResult {
    SResult {
        archived: false,
        cover: JsonValue::Null,
        created_by: CreatedBy { id: "u".to_string(), object: "user".to_string() },
        created_time: "2022-12-31T23:00:00Z".to_string(),
        icon: JsonValue::Null,
        id: id.to_string(),
        last_edited_by: LastEditedBy { id: "u".to_string(), object: "user".to_string() },
        last_edited_time: "2023-01-02T03:04:05Z".to_string(),
        object: "page".to_string(),
        parent: Parent { database_id: None, type_field: "workspace".to_string(), page_id: None, workspace: Some(true) },
        properties: Properties {
            name: name.map(|n| Name {
                id: "title".to_string(),
                title: JsonValue::Array(vec![JsonValue::Object(vec![("plain_text".to_string(), text(n))])]),
                type_field: "title".to_string(),
                name: None,
            }),
            tags: None,
            title: title.map(|t| Title {
                id: "title".to_string(),
                title: vec![Title2 {
                    annotations: Annotations {
                        bold: false,
                        code: false,
                        color: "default".to_string(),
                        italic: false,
                        strikethrough: false,
                        underline: false,
                    },
                    href: JsonValue::Null,
                    plain_text: t.to_string(),
                    text: Text { content: t.to_string(), link: JsonValue::Null },
                    type_field: "text".to_string(),
                }],
                type_field: "title".to_string(),
            }),
            extra: vec![],
        },
        url: format!("https://notion/{id}"),
        description: vec![],
        is_inline: None,
        title: vec![],
    }
}

fn response(results: Vec<SResult>, cursor: JsonValue) -> SearchResponse {
    SearchResponse {
        has_more: false,
        next_cursor: cursor,
        object: "list".to_string(),
        page_or_database: PageOrDatabase {},
        results,
        type_field: "page_or_database".to_string(),
    }
}

#[test]
fn pages_are_titled_by_name_and_title() {
    let docs = parse_pages(response(
        vec![page("p1", Some("Roadmap"), None), page("p2", None, None), page("p3", None, Some("Notes"))],
        JsonValue::Null,
    ));
    assert_eq!(docs.len(), 2);
    assert_eq!(docs[0].title, "Roadmap");
    assert_eq!(docs[0].contents, "Roadmap");
    assert_eq!(docs[1].id, "p3");
    assert_eq!(docs[1].title, "Notes");
    assert_eq!(docs[1].added_by, None);
}

#[test]
fn page_with_empty_title_list_is_refused() {
    let mut p = page("p1", None, Some("x"));
    p.properties.title.as_mut().unwrap().title.clear();
    assert!(checked_parse_pages(response(vec![p], JsonValue::Null)).is_none());
}

#[test]
fn collection_keeps_one_document_per_id() {
    let mut pages = PageCollection::new();
    let next = absorb_search_page(&mut pages, response(
        vec![page("p1", Some("Old"), None), page("p2", Some("Two"), None)],
        text("cursor-1"),
    ));
    assert_eq!(next, Ok(Some("cursor-1".to_string())));
    let next = absorb_search_page(&mut pages, response(vec![page("p1", Some("New"), None)], JsonValue::Null));
    assert_eq!(next, Ok(None));
    assert_eq!(pages.pages().len(), 2);
    assert_eq!(pages.pages()[0].title, "New");
    assert!(pages.contains_id("p2"));
    assert!(!pages.contains_id("p9"));
}

#[test]
fn blocks_with_page_ids_are_left_out() {
    let mut pages = PageCollection::new();
    absorb_search_page(&mut pages, response(vec![page("p1", Some("Roadmap"), None)], JsonValue::Null)).unwrap();
    let blocks = vec![
        block("p1", "paragraph", vec![("paragraph".to_string(), rich_text_object("dup"))], "2022-12-31T23:00:00Z"),
        block("b1", "heading_1", vec![("heading_1".to_string(), rich_text_object("Intro"))], "2022-12-31T23:00:00Z"),
        block("b2", "divider", vec![], "whatever"),
    ];
    let docs = page_block_documents(blocks, "Roadmap", "https://notion/p1", &pages).unwrap();
    assert_eq!(docs.len(), 1);
    assert_eq!(docs[0].id, "b1");
    assert_eq!(docs[0].contents, "Intro");
}

#[test]
fn cursor_and_urls() {
    assert_eq!(next_cursor(&JsonValue::Null), None);
    assert_eq!(next_cursor(&text("abc")), Some("abc".to_string()));
    assert_eq!(blocks_url("p1", None), "https://api.notion.com/v1/blocks/p1/children");
    assert_eq!(blocks_url("p1", Some("c")), "https://api.notion.com/v1/blocks/p1/children?start_cursor=c");
}

#[test]
fn rate_limited_search_waits() {
    assert_eq!(search_reply_action(200, None), SearchReplyAction::Read);
    assert_eq!(search_reply_action(429, Some("3")), SearchReplyAction::RetryAfter(3));
    assert_eq!(search_reply_action(429, Some("soon")), SearchReplyAction::InvalidRetryAfter);
    assert_eq!(search_reply_action(429, None), SearchReplyAction::Fail("Rate-limited"));
    assert_eq!(search_reply_action(500, Some("3")), SearchReplyAction::Fail("Unexpected HTTP status code"));
}

#[test]
fn notion_token_exchange() {
    assert_eq!(notion_basic_authorization("id", "secret"), "Basic aWQ6c2VjcmV0");
    let r = notion_token_request("code-1");
    assert_eq!(r.grant_type, "authorization_code");
    assert_eq!(r.code, "code-1");
    assert_eq!(r.redirect_uri, "http://localhost:5173/notion-access-redirect");
}
