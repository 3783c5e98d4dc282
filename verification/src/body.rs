//! The body of one page: a JSON object that names the listed scope, holds
//! the users of the page and counts them.

use vstd::prelude::*;
use crate::json::{
    as_items,
    as_text,
    as_unsigned,
    items_of,
    json_document,
    json_tree,
    member,
    member_of,
    parse_document,
    text_of,
    unsigned_of,
    JsonTree,
};

verus! {

/// A user of the database.
#[derive(Clone, Debug, PartialEq, Eq)]
pub struct User {
    pub id: String,
}

/// A user as plain values.
pub struct UserView {
    pub id: Seq<char>,
}

impl View for User {
    type V = UserView;

    open spec fn view(&self) -> UserView {
        UserView { id: self.id@ }
    }
}

/// What the body of a page holds. A body that was read holds as many users
/// as it declares.
#[derive(Clone, Debug, PartialEq, Eq)]
pub struct PageBody {
    /// The server's identifier of the listed scope.
    pub rid: String,
    /// The users of the page, in the server's order.
    pub users: Vec<User>,
    /// The number of users that the server declares for the page.
    pub count: u32,
}

/// A body as plain values.
pub struct PageBodyView {
    pub rid: Seq<char>,
    pub users: Seq<UserView>,
    pub count: u32,
}

impl View for PageBody {
    type V = PageBodyView;

    open spec fn view(&self) -> PageBodyView {
        PageBodyView {
            rid: self.rid@,
            users: self.users@.map_values(|u: User| u@),
            count: self.count,
        }
    }
}

/// The part of a body that does not fit the page.
#[derive(Clone, Copy, Debug, PartialEq, Eq, Structural)]
pub enum BodyField {
    /// `_rid` is missing or is no string.
    ResourceId,
    /// `Users` is missing, is no array, or holds an item without a string
    /// `id`.
    Users,
    /// `_count` is missing, is no unsigned integer of 32 bits, or is not the
    /// number of users under `Users`.
    Count,
}

/// Why a body is not a page.
#[derive(Clone, Debug, PartialEq, Eq)]
pub enum BodyFault {
    /// The bytes are no JSON document; the parser's message.
    Syntax(String),
    /// The document is JSON, but a part of it does not fit.
    Field(BodyField),
}

/// The text under `key` in a record.
pub open spec fn text_member(tree: JsonTree, key: Seq<char>) -> Option<Seq<char>> {
    match member_of(tree, key) {
        Some(m) => text_of(m),
        None => None,
    }
}

/// The user that a JSON value describes: a record with a string `id`.
pub open spec fn user_of(tree: JsonTree) -> Option<UserView> {
    match text_member(tree, "id"@) {
        Some(id) => Some(UserView { id }),
        None => None,
    }
}

/// The users that the items of an array describe, where each describes one.
pub open spec fn users_of(items: Seq<JsonTree>) -> Option<Seq<UserView>> {
    if forall|i: int| 0 <= i < items.len() ==> (#[trigger] user_of(items[i])) is Some {
        Some(items.map_values(|t: JsonTree| user_of(t).unwrap()))
    } else {
        None
    }
}

/// The users under `Users`.
pub open spec fn users_member(tree: JsonTree) -> Option<Seq<UserView>> {
    match member_of(tree, "Users"@) {
        Some(m) => match items_of(m) {
            Some(items) => users_of(items),
            None => None,
        },
        None => None,
    }
}

/// The count under `_count`.
pub open spec fn count_member(tree: JsonTree) -> Option<u32> {
    match member_of(tree, "_count"@) {
        Some(m) => match unsigned_of(m) {
            Some(n) => if n <= u32::MAX {
                Some(n as u32)
            } else {
                None
            },
            None => None,
        },
        None => None,
    }
}

/// The page that a document holds, or the first part of it that does not
/// fit: the resource id is looked at first, then the users, then the count,
/// which must be the number of users.
pub open spec fn page_of(tree: JsonTree) -> Result<PageBodyView, BodyField> {
    match text_member(tree, "_rid"@) {
        None => Err(BodyField::ResourceId),
        Some(rid) => match users_member(tree) {
            None => Err(BodyField::Users),
            Some(users) => match count_member(tree) {
                Some(count) if count == users.len() => Ok(PageBodyView { rid, users, count }),
                _ => Err(BodyField::Count),
            },
        },
    }
}

/// The text under `key` in a JSON object, as a string of its own.
fn read_text_member(value: &serde_json::Value, key: &str) -> (r: Option<String>)
    ensures
        r.is_some() == text_member(json_tree(*value), key@).is_some(),
        r matches Some(s) ==> text_member(json_tree(*value), key@) == Some(s@),
{
    match member(value, key) {
        Some(m) => match as_text(m) {
            Some(s) => Some(s.to_owned()),
            None => None,
        },
        None => None,
    }
}

/// The users that the items of a JSON array describe, in their order.
fn read_users(items: &Vec<serde_json::Value>) -> (r: Option<Vec<User>>)
    ensures
        match r {
            Some(users) => users_of(items@.map_values(|v| json_tree(v))) == Some(
                users@.map_values(|u: User| u@),
            ),
            None => users_of(items@.map_values(|v| json_tree(v))) is None,
        },
{
    let ghost trees = items@.map_values(|v| json_tree(v));
    let mut users: Vec<User> = Vec::new();
    let mut i: usize = 0;
    while i < items.len()
        invariant
            i <= items.len(),
            users.len() == i,
            trees == items@.map_values(|v| json_tree(v)),
            forall|j: int| 0 <= j < i ==> (#[trigger] user_of(trees[j])) == Some(users@[j]@),
        decreases items.len() - i,
    {
        assert(trees[i as int] == json_tree(items@[i as int]));
        match read_text_member(&items[i], "id") {
            Some(id) => {
                users.push(User { id });
            },
            None => {
                assert(user_of(trees[i as int]) is None);
                return None;
            },
        }
        i = i + 1;
    }
    assert(users_of(trees).unwrap() =~= users@.map_values(|u: User| u@));
    Some(users)
}

/// Reads the page out of a JSON value.
pub fn read_page(value: &serde_json::Value) -> (r: Result<PageBody, BodyField>)
    ensures
        r matches Ok(body) ==> body.users.len() == body.count,
        match r {
            Ok(body) => page_of(json_tree(*value)) == Ok::<PageBodyView, BodyField>(body@),
            Err(field) => page_of(json_tree(*value)) == Err::<PageBodyView, BodyField>(field),
        },
{
    let rid = match read_text_member(value, "_rid") {
        Some(rid) => rid,
        None => {
            return Err(BodyField::ResourceId);
        },
    };
    let users = match member(value, "Users") {
        Some(m) => match as_items(m) {
            Some(items) => read_users(items),
            None => None,
        },
        None => None,
    };
    let users = match users {
        Some(users) => users,
        None => {
            return Err(BodyField::Users);
        },
    };
    let count = match member(value, "_count") {
        Some(m) => as_unsigned(m),
        None => None,
    };
    match count {
        Some(n) => {
            if n <= 0xffff_ffff && n as usize == users.len() {
                Ok(PageBody { rid, users, count: n as u32 })
            } else {
                Err(BodyField::Count)
            }
        },
        None => Err(BodyField::Count),
    }
}

/// Reads the page out of the bytes of a body. The bytes must be a JSON
/// document, and the document must be a page. Where they are no document,
/// the failure carries the parser's message.
pub fn decode_body(bytes: &[u8]) -> (r: Result<PageBody, BodyFault>)
    ensures
        match json_document(bytes@) {
            Err(message) => r matches Err(BodyFault::Syntax(m)) && m@ == message,
            Ok(tree) => match page_of(tree) {
                Ok(view) => r matches Ok(body) && body@ == view,
                Err(field) => r matches Err(BodyFault::Field(f)) && f == field,
            },
        },
{
    match parse_document(bytes) {
        Ok(value) => match read_page(&value) {
            Ok(body) => Ok(body),
            Err(field) => Err(BodyFault::Field(field)),
        },
        Err(message) => Err(BodyFault::Syntax(message)),
    }
}

} // verus!
