//! The JSON bodies sent to the appliance.
//!
//! Every body is one flat JSON object. Its members are kept as plain values,
//! in the order in which they are written; turning them into JSON text is
//! left to whoever sends the request.

use vstd::prelude::*;

verus! {

/// The value of one member of a request body.
#[derive(Debug, Clone, PartialEq, Eq)]
pub enum JsonValue {
    Number(u32),
    Text(String),
    /// The empty object `{}`.
    EmptyObject,
}

/// Mathematical value of a [`JsonValue`].
pub enum JsonValueView {
    Number(u32),
    Text(Seq<char>),
    EmptyObject,
}

impl View for JsonValue {
    type V = JsonValueView;

    open spec fn view(&self) -> JsonValueView {
        match self {
            JsonValue::Number(n) => JsonValueView::Number(*n),
            JsonValue::Text(text) => JsonValueView::Text(text@),
            JsonValue::EmptyObject => JsonValueView::EmptyObject,
        }
    }
}

/// One member of a request body: a name and its value.
#[derive(Debug, Clone, PartialEq, Eq)]
pub struct Member {
    pub name: String,
    pub value: JsonValue,
}

/// Mathematical value of a [`Member`].
pub struct MemberView {
    pub name: Seq<char>,
    pub value: JsonValueView,
}

impl View for Member {
    type V = MemberView;

    open spec fn view(&self) -> MemberView {
        MemberView { name: self.name@, value: self.value@ }
    }
}

impl DeepView for Member {
    type V = MemberView;

    open spec fn deep_view(&self) -> MemberView {
        self@
    }
}

/// A request body: one JSON object.
#[derive(Debug, Clone, PartialEq, Eq)]
pub struct Payload {
    pub members: Vec<Member>,
}

impl View for Payload {
    type V = Seq<MemberView>;

    open spec fn view(&self) -> Seq<MemberView> {
        self.members.deep_view()
    }
}

impl DeepView for Payload {
    type V = Seq<MemberView>;

    open spec fn deep_view(&self) -> Seq<MemberView> {
        self@
    }
}

/// The empty object `{}`.
pub open spec fn empty_object() -> Seq<MemberView> {
    Seq::empty()
}

/// The request for one page of a table: the page number, the number of rows
/// in a page, no sort order and no search phrase.
pub open spec fn search_object(current: u32, row_count: u32) -> Seq<MemberView> {
    seq![
        MemberView { name: "current"@, value: JsonValueView::Number(current) },
        MemberView { name: "rowCount"@, value: JsonValueView::Number(row_count) },
        MemberView { name: "sort"@, value: JsonValueView::EmptyObject },
        MemberView { name: "searchPhrase"@, value: JsonValueView::Text(Seq::empty()) },
    ]
}

/// The reference to a snapshot: its identifier and its name.
pub open spec fn snapshot_object(uuid: Seq<char>, name: Seq<char>) -> Seq<MemberView> {
    seq![
        MemberView { name: "uuid"@, value: JsonValueView::Text(uuid) },
        MemberView { name: "name"@, value: JsonValueView::Text(name) },
    ]
}

impl Payload {
    /// The empty object `{}`.
    pub fn empty() -> (payload: Payload)
        ensures
            payload@ == empty_object(),
    {
        let members: Vec<Member> = Vec::new();
        assert(members.deep_view() =~= empty_object());
        Payload { members }
    }

    /// The request for page `current` of a table, `row_count` rows to a page.
    pub fn search(current: u32, row_count: u32) -> (payload: Payload)
        ensures
            payload@ == search_object(current, row_count),
    {
        let mut members: Vec<Member> = Vec::new();
        members.push(Member { name: String::from_str("current"), value: JsonValue::Number(current) });
        members.push(
            Member { name: String::from_str("rowCount"), value: JsonValue::Number(row_count) },
        );
        members.push(Member { name: String::from_str("sort"), value: JsonValue::EmptyObject });
        members.push(
            Member { name: String::from_str("searchPhrase"), value: JsonValue::Text(String::new()) },
        );
        assert(members.deep_view() =~= search_object(current, row_count));
        Payload { members }
    }

    /// The reference to the snapshot `uuid` under the name `name`.
    pub fn snapshot(uuid: &str, name: &str) -> (payload: Payload)
        ensures
            payload@ == snapshot_object(uuid@, name@),
    {
        let mut members: Vec<Member> = Vec::new();
        members.push(
            Member { name: String::from_str("uuid"), value: JsonValue::Text(String::from_str(uuid)) },
        );
        members.push(
            Member { name: String::from_str("name"), value: JsonValue::Text(String::from_str(name)) },
        );
        assert(members.deep_view() =~= snapshot_object(uuid@, name@));
        Payload { members }
    }
}

} // verus!
