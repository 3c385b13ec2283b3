use vstd::prelude::*;

use crate::utilities::text::same_text;

verus! {

/// One page of the list of a mailbox's messages.
#[derive(Debug, PartialEq)]
pub struct MessagesList {
    pub messages: Vec<Message>,
    pub next_page_token: Option<String>,
    pub result_size_estimate: i64,
}

/// A message reference in a message list.
#[derive(Debug, PartialEq)]
pub struct Message {
    pub id: String,
    pub thread_id: String,
}

/// A message as the mail service returns it.
#[derive(Debug, PartialEq)]
pub struct ParsedMail {
    pub history_id: String,
    pub id: String,
    pub internal_date: String,
    pub label_ids: Vec<String>,
    pub payload: Payload,
    pub size_estimate: i64,
    pub snippet: String,
    pub thread_id: String,
}

/// The top-level part of a message.
#[derive(Debug, PartialEq)]
pub struct Payload {
    pub body: Body,
    pub filename: String,
    pub headers: HeaderIndex,
    pub mime_type: String,
    pub part_id: String,
    pub parts: Vec<Part>,
}

/// The body of the top-level part.
#[derive(Debug, PartialEq)]
pub struct Body {
    pub size: i64,
    pub data: Option<String>,
}

/// One header line of a message.
#[derive(Debug, PartialEq)]
pub struct Header {
    pub name: String,
    pub value: String,
}

/// A nested part of a message.
#[derive(Debug, PartialEq)]
pub struct Part {
    pub body: PartBody,
    pub filename: String,
    pub headers: HeaderIndex,
    pub mime_type: String,
    pub part_id: String,
    pub parts: Option<Vec<Part>>,
}

/// The body of a nested part.
#[derive(Debug, PartialEq)]
pub struct PartBody {
    pub data: Option<String>,
    pub size: i64,
    pub attachment_id: Option<String>,
}

/// One header line of a nested part.
#[derive(Debug, PartialEq)]
pub struct PartHeader {
    pub name: String,
    pub value: String,
}

/// All values of one header name, in the order the header lines came.
#[derive(Debug, PartialEq)]
pub struct HeaderValues {
    pub name: String,
    pub values: Vec<String>,
}

/// The header lines of a message, grouped by name.
#[derive(Debug, PartialEq)]
pub struct HeaderIndex {
    entries: Vec<HeaderValues>,
}

/// The values of the header lines of `hs` whose name is `name`, in order.
pub open spec fn values_named(hs: Seq<Header>, name: Seq<char>) -> Seq<Seq<char>>
    decreases hs.len(),
{
    if hs.len() == 0 {
        Seq::empty()
    } else if hs.last().name@ == name {
        values_named(hs.drop_last(), name).push(hs.last().value@)
    } else {
        values_named(hs.drop_last(), name)
    }
}

/// What grouping `hs` by name holds under `name`: its values, if any line has that name.
pub open spec fn grouped_values(hs: Seq<Header>, name: Seq<char>) -> Option<Seq<Seq<char>>> {
    if values_named(hs, name).len() > 0 {
        Some(values_named(hs, name))
    } else {
        None
    }
}

/// The values of the first entry of `entries` named `name`.
pub open spec fn entry_values(entries: Seq<HeaderValues>, name: Seq<char>) -> Option<Seq<Seq<char>>>
    decreases entries.len(),
{
    if entries.len() == 0 {
        None
    } else if entries[0].name@ == name {
        Some(entries[0].values@.map_values(|v: String| v@))
    } else {
        entry_values(entries.skip(1), name)
    }
}

impl HeaderIndex {
    /// The values held under `name`, if the name occurs.
    pub closed spec fn values_for(&self, name: Seq<char>) -> Option<Seq<Seq<char>>> {
        entry_values(self.entries@, name)
    }

    /// The grouped names and their values, in the order the names first came.
    pub closed spec fn entries_view(&self) -> Seq<HeaderValues> {
        self.entries@
    }

    /// An index without headers.
    pub fn new() -> (r: Self)
        ensures
            forall|name: Seq<char>| r.values_for(name) is None,
            r.entries_view().len() == 0,
    {
        HeaderIndex { entries: Vec::new() }
    }

    /// The grouped names and their values, in the order the names first came.
    pub fn entries(&self) -> (r: &Vec<HeaderValues>)
        ensures
            r@ == self.entries_view(),
    {
        &self.entries
    }

    /// The values held under `name`, in order, when the name occurs.
    pub fn values(&self, name: &str) -> (r: Option<&Vec<String>>)
        ensures
            match r {
                Some(vs) => self.values_for(name@) == Some(vs@.map_values(|v: String| v@)),
                None => self.values_for(name@) is None,
            },
    {
        let n = self.entries.len();
        let mut i: usize = 0;
        assert(self.entries@.skip(0) == self.entries@);
        while i < n
            invariant
                n == self.entries@.len(),
                i <= n,
                entry_values(self.entries@, name@) == entry_values(self.entries@.skip(i as int), name@),
            decreases n - i,
        {
            assert(self.entries@.skip(i as int).skip(1) == self.entries@.skip(i as int + 1));
            assert(self.entries@.skip(i as int)[0] == self.entries@[i as int]);
            if same_text(self.entries[i].name.as_str(), name) {
                return Some(&self.entries[i].values);
            }
            i = i + 1;
        }
        None
    }
}

proof fn lemma_values_named_nonempty(hs: Seq<Header>, name: Seq<char>)
    ensures
        values_named(hs, name).len() > 0 <==> exists|i: int| 0 <= i < hs.len() && #[trigger] hs[i].name@ == name,
    decreases hs.len(),
{
    if hs.len() > 0 {
        lemma_values_named_nonempty(hs.drop_last(), name);
        if exists|i: int| 0 <= i < hs.drop_last().len() && #[trigger] hs.drop_last()[i].name@ == name {
            let i = choose|i: int| 0 <= i < hs.drop_last().len() && #[trigger] hs.drop_last()[i].name@ == name;
            assert(hs[i].name@ == name);
        }
        if exists|i: int| 0 <= i < hs.len() && #[trigger] hs[i].name@ == name {
            let i = choose|i: int| 0 <= i < hs.len() && #[trigger] hs[i].name@ == name;
            if i < hs.len() - 1 {
                assert(hs.drop_last()[i].name@ == name);
            }
        }
    }
}

proof fn lemma_entry_values_unique(entries: Seq<HeaderValues>, j: int)
    requires
        0 <= j < entries.len(),
        forall|a: int, b: int| 0 <= a < b < entries.len() ==> entries[a].name@ != entries[b].name@,
    ensures
        entry_values(entries, entries[j].name@) == Some(entries[j].values@.map_values(|v: String| v@)),
    decreases j,
{
    if j > 0 {
        lemma_entry_values_unique(entries.skip(1), j - 1);
    }
}

proof fn lemma_entry_values_absent(entries: Seq<HeaderValues>, name: Seq<char>)
    requires
        forall|a: int| 0 <= a < entries.len() ==> entries[a].name@ != name,
    ensures
        entry_values(entries, name) is None,
    decreases entries.len(),
{
    if entries.len() > 0 {
        lemma_entry_values_absent(entries.skip(1), name);
    }
}

/// The values of the lines of `headers` named `name`, in order.
fn collect_values(headers: &Vec<Header>, name: &str) -> (r: Vec<String>)
    ensures
        r@.map_values(|v: String| v@) == values_named(headers@, name@),
{
    let mut r: Vec<String> = Vec::new();
    let n = headers.len();
    let mut i: usize = 0;
    while i < n
        invariant
            n == headers@.len(),
            i <= n,
            r@.map_values(|v: String| v@) == values_named(headers@.take(i as int), name@),
        decreases n - i,
    {
        assert(headers@.take(i as int + 1).drop_last() == headers@.take(i as int));
        if same_text(headers[i].name.as_str(), name) {
            r.push(headers[i].value.clone());
            assert(r@.map_values(|v: String| v@) =~= values_named(headers@.take(i as int), name@).push(
                headers@[i as int].value@));
        }
        i = i + 1;
    }
    assert(headers@.take(n as int) == headers@);
    r
}

/// Groups the header lines of a message by name: every name that occurs is held once,
/// with all of its values in the order the lines came.
pub fn headers_map_from_vec(headers: Vec<Header>) -> (r: HeaderIndex)
    ensures
        forall|name: Seq<char>| #[trigger] r.values_for(name) == grouped_values(headers@, name),
{
    // The distinct names, in the order they first come.
    let mut names: Vec<String> = Vec::new();
    let n = headers.len();
    let mut i: usize = 0;
    while i < n
        invariant
            n == headers@.len(),
            i <= n,
            forall|a: int, b: int| 0 <= a < b < names@.len() ==> names@[a]@ != names@[b]@,
            forall|a: int| 0 <= a < names@.len() ==> exists|k: int| 0 <= k < n && #[trigger] headers@[k].name@ == (#[trigger] names@[a])@,
            forall|k: int| 0 <= k < i ==> exists|a: int| 0 <= a < names@.len() && (#[trigger] names@[a])@ == (#[trigger] headers@[k]).name@,
        decreases n - i,
    {
        let mut seen = false;
        let m = names.len();
        let mut j: usize = 0;
        while j < m
            invariant
                m == names@.len(),
                n == headers@.len(),
                i < n,
                j <= m,
                seen ==> exists|a: int| 0 <= a < m && (#[trigger] names@[a])@ == headers@[i as int].name@,
                !seen ==> forall|a: int| 0 <= a < j ==> (#[trigger] names@[a])@ != headers@[i as int].name@,
            decreases m - j,
        {
            if same_text(names[j].as_str(), headers[i].name.as_str()) {
                seen = true;
            }
            j = j + 1;
        }
        if !seen {
            let ghost before = names@;
            names.push(headers[i].name.clone());
            assert forall|a: int| 0 <= a < names@.len() implies exists|k: int| 0 <= k < n && #[trigger] headers@[k].name@ == (#[trigger] names@[a])@ by {
                if a < before.len() {
                    assert(names@[a] == before[a]);
                } else {
                    assert(headers@[i as int].name@ == names@[a]@);
                }
            }
            assert forall|k: int| 0 <= k < i + 1 implies exists|a: int| 0 <= a < names@.len() && (#[trigger] names@[a])@ == (#[trigger] headers@[k]).name@ by {
                if k < i {
                    let a = choose|a: int| 0 <= a < before.len() && (#[trigger] before[a])@ == headers@[k].name@;
                    assert(names@[a] == before[a]);
                } else {
                    assert(names@[before.len() as int]@ == headers@[k].name@);
                }
            }
        }
        i = i + 1;
    }
    // Every distinct name with its values.
    let mut entries: Vec<HeaderValues> = Vec::new();
    let m = names.len();
    let mut j: usize = 0;
    while j < m
        invariant
            m == names@.len(),
            j <= m,
            entries@.len() == j,
            forall|a: int| 0 <= a < j ==> (#[trigger] entries@[a]).name@ == names@[a]@,
            forall|a: int| 0 <= a < j ==> (#[trigger] entries@[a]).values@.map_values(|v: String| v@)
                == values_named(headers@, names@[a]@),
        decreases m - j,
    {
        let values = collect_values(&headers, names[j].as_str());
        entries.push(HeaderValues { name: names[j].clone(), values });
        j = j + 1;
    }
    let r = HeaderIndex { entries };
    assert forall|name: Seq<char>| #[trigger] r.values_for(name) == grouped_values(headers@, name) by {
        lemma_values_named_nonempty(headers@, name);
        if exists|a: int| 0 <= a < m && (#[trigger] names@[a])@ == name {
            let a = choose|a: int| 0 <= a < m && (#[trigger] names@[a])@ == name;
            lemma_entry_values_unique(r.entries@, a);
            let k = choose|k: int| 0 <= k < n && #[trigger] headers@[k].name@ == names@[a]@;
            assert(headers@[k].name@ == name);
        } else {
            assert forall|a: int| 0 <= a < r.entries@.len() implies r.entries@[a].name@ != name by {
                assert(r.entries@[a].name@ == names@[a]@);
            }
            lemma_entry_values_absent(r.entries@, name);
            assert forall|k: int| 0 <= k < headers@.len() implies #[trigger] headers@[k].name@ != name by {
                let a = choose|a: int| 0 <= a < names@.len() && (#[trigger] names@[a])@ == (#[trigger] headers@[k]).name@;
            }
        }
    }
    r
}

} // verus!
