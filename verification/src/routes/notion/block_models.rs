use vstd::prelude::*;

use crate::utilities::json::JsonValue;

verus! {

/// One page of the children of a Notion block.
#[derive(Debug, PartialEq)]
pub struct BlockResponse {
    pub object: String,
    pub results: Vec<BlockObject>,
    pub next_cursor: JsonValue,
    pub has_more: bool,
    pub type_field: String,
    pub block: Block,
}

/// A child block as the index reads it: its common fields, and the content object held
/// under the block's type (with every other member of the reply).
#[derive(Debug, PartialEq)]
pub struct BlockObject {
    pub object: String,
    pub id: String,
    pub parent: Parent,
    pub created_time: String,
    pub last_edited_time: String,
    pub has_children: bool,
    pub archived: bool,
    pub type_field: String,
    pub extras: Vec<(String, JsonValue)>,
}

/// A child block with the content objects of the common block types.
#[derive(Debug, PartialEq)]
pub struct Result {
    pub object: String,
    pub id: String,
    pub parent: Parent,
    pub created_time: String,
    pub last_edited_time: String,
    pub created_by: CreatedBy,
    pub last_edited_by: LastEditedBy,
    pub has_children: bool,
    pub archived: bool,
    pub type_field: String,
    pub child_page: Option<ChildPage>,
    pub paragraph: Option<Paragraph>,
    pub heading_2: Option<Heading2>,
    pub heading_3: Option<Heading3>,
    pub bulleted_list_item: Option<BulletedListItem>,
}

/// The page a block belongs to.
#[derive(Debug, PartialEq)]
pub struct Parent {
    pub type_field: String,
    pub page_id: String,
}

/// Who created a block.
#[derive(Debug, PartialEq)]
pub struct CreatedBy {
    pub object: String,
    pub id: String,
}

/// Who last edited a block.
#[derive(Debug, PartialEq)]
pub struct LastEditedBy {
    pub object: String,
    pub id: String,
}

/// The content of a child-page block.
#[derive(Debug, PartialEq)]
pub struct ChildPage {
    pub title: String,
}

/// The content of a paragraph block.
#[derive(Debug, PartialEq)]
pub struct Paragraph {
    pub rich_text: Vec<RichText>,
    pub color: String,
}

/// A run of text of a paragraph.
#[derive(Debug, PartialEq)]
pub struct RichText {
    pub type_field: String,
    pub text: Text,
    pub annotations: Annotations,
    pub plain_text: String,
    pub href: JsonValue,
}

/// The text of a run of a paragraph.
#[derive(Debug, PartialEq)]
pub struct Text {
    pub content: String,
    pub link: JsonValue,
}

/// The styling of a run of a paragraph.
#[derive(Debug, PartialEq)]
pub struct Annotations {
    pub bold: bool,
    pub italic: bool,
    pub strikethrough: bool,
    pub underline: bool,
    pub code: bool,
    pub color: String,
}

/// The content of a second-level heading block.
#[derive(Debug, PartialEq)]
pub struct Heading2 {
    pub rich_text: Vec<RichText2>,
    pub is_toggleable: bool,
    pub color: String,
}

/// A run of text of a second-level heading.
#[derive(Debug, PartialEq)]
pub struct RichText2 {
    pub type_field: String,
    pub text: Text2,
    pub annotations: Annotations2,
    pub plain_text: String,
    pub href: JsonValue,
}

/// The text of a run of a second-level heading.
#[derive(Debug, PartialEq)]
pub struct Text2 {
    pub content: String,
    pub link: JsonValue,
}

/// The styling of a run of a second-level heading.
#[derive(Debug, PartialEq)]
pub struct Annotations2 {
    pub bold: bool,
    pub italic: bool,
    pub strikethrough: bool,
    pub underline: bool,
    pub code: bool,
    pub color: String,
}

/// The content of a third-level heading block.
#[derive(Debug, PartialEq)]
pub struct Heading3 {
    pub rich_text: Vec<RichText3>,
    pub is_toggleable: bool,
    pub color: String,
}

/// A run of text of a third-level heading.
#[derive(Debug, PartialEq)]
pub struct RichText3 {
    pub type_field: String,
    pub text: Text3,
    pub annotations: Annotations3,
    pub plain_text: String,
    pub href: JsonValue,
}

/// The text of a run of a third-level heading.
#[derive(Debug, PartialEq)]
pub struct Text3 {
    pub content: String,
    pub link: JsonValue,
}

/// The styling of a run of a third-level heading.
#[derive(Debug, PartialEq)]
pub struct Annotations3 {
    pub bold: bool,
    pub italic: bool,
    pub strikethrough: bool,
    pub underline: bool,
    pub code: bool,
    pub color: String,
}

/// The content of a bulleted list item block.
#[derive(Debug, PartialEq)]
pub struct BulletedListItem {
    pub rich_text: Vec<RichText4>,
    pub color: String,
}

/// A run of text of a bulleted list item.
#[derive(Debug, PartialEq)]
pub struct RichText4 {
    pub type_field: String,
    pub text: Text4,
    pub annotations: Annotations4,
    pub plain_text: String,
    pub href: JsonValue,
}

/// The text of a run of a bulleted list item.
#[derive(Debug, PartialEq)]
pub struct Text4 {
    pub content: String,
    pub link: JsonValue,
}

/// The styling of a run of a bulleted list item.
#[derive(Debug, PartialEq)]
pub struct Annotations4 {
    pub bold: bool,
    pub italic: bool,
    pub strikethrough: bool,
    pub underline: bool,
    pub code: bool,
    pub color: String,
}

/// The block whose children were listed (the reply's `block` member, without content).
#[derive(Debug, PartialEq)]
pub struct Block {}

} // verus!
