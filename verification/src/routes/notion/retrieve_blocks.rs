use vstd::prelude::*;

use super::block_models::BlockObject;
use crate::routes::typesense::{DocumentView, Product, RowType, TypesenseInsert};
use crate::utilities::json::{
    json_unquoted_text, member_value, unquoted_text, value_at_index, value_at_key, JsonValue,
};
use crate::utilities::text::{concat2, concat3, owned, remove_char, same_text, without_char};
use crate::utilities::time::{parse_rfc3339_seconds, rfc3339_seconds};

verus! {

/// The block types whose content is rich text that the index reads.
pub open spec fn is_text_block(t: Seq<char>) -> bool {
    ||| t == "paragraph"@
    ||| t == "heading_1"@
    ||| t == "heading_2"@
    ||| t == "heading_3"@
    ||| t == "callout"@
    ||| t == "quote"@
    ||| t == "bulleted_list_item"@
    ||| t == "numbered_list_item"@
    ||| t == "toggle"@
    ||| t == "todo"@
    ||| t == "code"@
}

/// The `plain_text` of the first rich-text run of the content object held under `t`.
pub open spec fn first_plain_text(extras: Seq<(String, JsonValue)>, t: Seq<char>) -> Option<JsonValue> {
    match member_value(extras, t) {
        Some(content) => match value_at_key(content, "rich_text"@) {
            Some(runs) => match value_at_index(runs, 0) {
                Some(first) => value_at_key(first, "plain_text"@),
                None => None,
            },
            None => None,
        },
        None => None,
    }
}

/// The type of a block, without double quotes.
pub open spec fn block_type(b: BlockObject) -> Seq<char> {
    without_char(b.type_field@, '"')
}

/// The text that the index reads from a block: the first run of a rich-text block,
/// without double quotes; empty for any other block.
pub open spec fn block_contents(b: BlockObject) -> Seq<char> {
    let t = block_type(b);
    if is_text_block(t) {
        match first_plain_text(b.extras@, t) {
            Some(c) => unquoted_text(c),
            None => Seq::empty(),
        }
    } else {
        Seq::empty()
    }
}

/// Whether both dates of a block are valid RFC 3339 date-times.
pub open spec fn block_dates_valid(b: BlockObject) -> bool {
    &&& rfc3339_seconds(b.created_time@) is Some
    &&& rfc3339_seconds(b.last_edited_time@) is Some
}

/// The document that indexes a block of the page titled `parent_name` at `parent_url`.
pub open spec fn block_document(b: BlockObject, parent_name: Seq<char>, parent_url: Seq<char>) -> DocumentView {
    DocumentView {
        account_email: "test"@,
        id: b.id@,
        title: parent_name,
        contents: block_contents(b),
        url: parent_url,
        added_by: None,
        platform: Product::Notion,
        type_field: RowType::File,
        last_edited_time: rfc3339_seconds(b.last_edited_time@)->0,
        created_time: rfc3339_seconds(b.created_time@)->0,
    }
}

/// Law: the text of a block is indexed exactly for the block types paragraph, heading_1,
/// heading_2, heading_3, callout, quote, bulleted_list_item, numbered_list_item, toggle,
/// todo and code: a block of one of these types whose first rich-text run has plain text
/// is indexed with that text (without double quotes), in a document titled and linked by
/// its page; a block of any other type holds no text to index.
pub proof fn lemma_text_block_types(b: BlockObject, pt: JsonValue, parent_name: Seq<char>, parent_url: Seq<char>)
    ensures
        ({
            let t = block_type(b);
            ||| t == "paragraph"@
            ||| t == "heading_1"@
            ||| t == "heading_2"@
            ||| t == "heading_3"@
            ||| t == "callout"@
            ||| t == "quote"@
            ||| t == "bulleted_list_item"@
            ||| t == "numbered_list_item"@
            ||| t == "toggle"@
            ||| t == "todo"@
            ||| t == "code"@
        }) ==> (first_plain_text(b.extras@, block_type(b)) == Some(pt) ==> {
            &&& block_contents(b) == unquoted_text(pt)
            &&& block_document(b, parent_name, parent_url).contents == unquoted_text(pt)
            &&& block_document(b, parent_name, parent_url).title == parent_name
            &&& block_document(b, parent_name, parent_url).url == parent_url
            &&& block_document(b, parent_name, parent_url).id == b.id@
        }),
        !({
            let t = block_type(b);
            ||| t == "paragraph"@
            ||| t == "heading_1"@
            ||| t == "heading_2"@
            ||| t == "heading_3"@
            ||| t == "callout"@
            ||| t == "quote"@
            ||| t == "bulleted_list_item"@
            ||| t == "numbered_list_item"@
            ||| t == "toggle"@
            ||| t == "todo"@
            ||| t == "code"@
        }) ==> block_contents(b).len() == 0,
{
}

/// The address of one page of the children of the block `page_id`.
pub fn blocks_url(page_id: &str, cursor: Option<&str>) -> (r: String)
    ensures
        r@ == "https://api.notion.com/v1/blocks/"@ + page_id@ + "/children"@ + match cursor {
            Some(c) => "?start_cursor="@ + c@,
            None => Seq::<char>::empty(),
        },
{
    let base = concat3("https://api.notion.com/v1/blocks/", page_id, "/children");
    match cursor {
        Some(c) => {
            let q = concat2("?start_cursor=", c);
            concat2(base.as_str(), q.as_str())
        },
        None => base,
    }
}

/// The cursor of the next page of a listing: none when the reply's cursor is `null`,
/// its JSON text without double quotes otherwise.
pub fn next_cursor(cursor: &JsonValue) -> (r: Option<String>)
    ensures
        match r {
            Some(c) => !(cursor is Null) && c@ == unquoted_text(*cursor),
            None => cursor is Null,
        },
{
    if cursor.is_null() {
        None
    } else {
        Some(json_unquoted_text(cursor))
    }
}

fn text_block_type(t: &str) -> (r: bool)
    ensures
        r == is_text_block(t@),
{
    same_text(t, "paragraph") || same_text(t, "heading_1") || same_text(t, "heading_2")
        || same_text(t, "heading_3") || same_text(t, "callout") || same_text(t, "quote")
        || same_text(t, "bulleted_list_item") || same_text(t, "numbered_list_item")
        || same_text(t, "toggle") || same_text(t, "todo") || same_text(t, "code")
}

fn find_member<'a>(members: &'a Vec<(String, JsonValue)>, key: &str) -> (r: Option<&'a JsonValue>)
    ensures
        match r {
            Some(x) => member_value(members@, key@) == Some(*x),
            None => member_value(members@, key@) is None,
        },
{
    let n = members.len();
    let mut i: usize = 0;
    assert(members@.skip(0) == members@);
    while i < n
        invariant
            n == members@.len(),
            i <= n,
            member_value(members@, key@) == member_value(members@.skip(i as int), key@),
        decreases n - i,
    {
        assert(members@.skip(i as int).skip(1) == members@.skip(i as int + 1));
        assert(members@.skip(i as int)[0] == members@[i as int]);
        if same_text(members[i].0.as_str(), key) {
            return Some(&members[i].1);
        }
        i = i + 1;
    }
    None
}

/// The text that the index reads from a block.
fn read_block_contents(b: &BlockObject) -> (r: String)
    ensures
        r@ == block_contents(*b),
{
    let t = remove_char(b.type_field.as_str(), '"');
    if !text_block_type(t.as_str()) {
        return String::new();
    }
    let found = match find_member(&b.extras, t.as_str()) {
        Some(content) => match content.get_key("rich_text") {
            Some(runs) => match runs.get_index(0) {
                Some(first) => first.get_key("plain_text"),
                None => None,
            },
            None => None,
        },
        None => None,
    };
    match found {
        Some(c) => json_unquoted_text(c),
        None => String::new(),
    }
}

/// The block's id and the document that indexes it, for a block that holds text;
/// `None` for a block without text.
pub fn parse_block(response: BlockObject, parent_name: &str, parent_url: &str) -> (r: Option<(String, TypesenseInsert)>)
    requires
        block_contents(response).len() > 0 ==> block_dates_valid(response),
    ensures
        match r {
            Some((id, d)) => {
                &&& block_contents(response).len() > 0
                &&& id@ == response.id@
                &&& d@ == block_document(response, parent_name@, parent_url@)
            },
            None => block_contents(response).len() == 0,
        },
{
    let contents = read_block_contents(&response);
    if contents.unicode_len() == 0 {
        return None;
    }
    let created_time = match parse_rfc3339_seconds(response.created_time.as_str()) {
        Some(t) => t,
        None => 0,
    };
    let last_edited_time = match parse_rfc3339_seconds(response.last_edited_time.as_str()) {
        Some(t) => t,
        None => 0,
    };
    let block_id = response.id;
    Some((
        block_id.clone(),
        TypesenseInsert {
            account_email: owned("test"),
            id: block_id,
            title: owned(parent_name),
            contents,
            url: owned(parent_url),
            added_by: None,
            created_time,
            last_edited_time,
            platform: Product::Notion,
            type_field: RowType::File,
        },
    ))
}

/// The block's id and document, as `parse_block` gives them, or `Err(())` for a block
/// with text whose dates are not valid RFC 3339 date-times.
pub fn checked_parse_block(response: BlockObject, parent_name: &str, parent_url: &str) -> (r: core::result::Result<Option<(String, TypesenseInsert)>, ()>)
    ensures
        match r {
            Ok(Some((id, d))) => {
                &&& block_contents(response).len() > 0
                &&& block_dates_valid(response)
                &&& id@ == response.id@
                &&& d@ == block_document(response, parent_name@, parent_url@)
            },
            Ok(None) => block_contents(response).len() == 0,
            Err(_) => block_contents(response).len() > 0 && !block_dates_valid(response),
        },
{
    let contents = read_block_contents(&response);
    if contents.unicode_len() != 0 {
        if parse_rfc3339_seconds(response.created_time.as_str()).is_none()
            || parse_rfc3339_seconds(response.last_edited_time.as_str()).is_none() {
            return Err(());
        }
    }
    Ok(parse_block(response, parent_name, parent_url))
}

} // verus!
