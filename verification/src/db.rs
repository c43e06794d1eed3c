use vstd::prelude::*;

use crate::messages::{ItemId, Money, UserId};

verus! {

/// One query that the request logic needs answered by the database.
#[derive(Debug, PartialEq, Eq)]
pub enum DbRequest {
    /// The money of a user.
    GetBalance(UserId),
    /// The password hash and id of the user with this name.
    GetUserHashAndId(String),
    /// Insert a user with this name and password hash.
    InsertUser(String, String),
    /// The Unix second from which a user may work again.
    GetUserCanWorkAt(UserId),
    /// Set the Unix second from which a user may work again.
    SetUserCanWorkAt(UserId, i64),
    /// Add an amount (possibly negative) to the money of a user.
    ChangeUserMoney(UserId, Money),
    /// The catalogue `(id, name, price)`, ordered by id.
    GetAllItems,
    /// The `(name, description)` of each item that a user owns.
    GetUserItems(UserId),
    /// The price of an item.
    GetItemPrice(ItemId),
    /// Record that a user owns one more of an item.
    AddUserItem(UserId, ItemId),
    /// Remove one record that a user owns an item.
    RemoveUserItem(UserId, ItemId),
    /// Whether a user owns an item.
    GetUserHasItem(UserId, ItemId),
}

/// What the database answered to a `DbRequest`; `None` or `false` where the
/// row was missing or the query failed.
#[derive(Debug, PartialEq, Eq)]
pub enum DbReply {
    /// Answer to `GetBalance`.
    Balance(Option<Money>),
    /// Answer to `GetUserHashAndId`: `(password_hash, id)`.
    UserHashAndId(Option<(String, UserId)>),
    /// Answer to a write (`InsertUser`, `SetUserCanWorkAt`, `ChangeUserMoney`,
    /// `AddUserItem`, `RemoveUserItem`): whether it succeeded.
    Written(bool),
    /// Answer to `GetUserCanWorkAt`.
    CanWorkAt(Option<i64>),
    /// Answer to `GetAllItems`.
    AllItems(Option<Vec<(ItemId, String, Money)>>),
    /// Answer to `GetUserItems`.
    UserItems(Option<Vec<(String, String)>>),
    /// Answer to `GetItemPrice`.
    ItemPrice(Option<Money>),
    /// Answer to `GetUserHasItem`.
    HasItem(Option<bool>),
}

} // verus!
