//! The item model shared by the Pass client and the command line tools.

use vstd::prelude::*;

verus! {

/// Identifier of a share, that is, of a vault as one user sees it.
#[derive(Debug)]
pub struct ShareId(pub String);

impl ShareId {
    pub fn new(id: String) -> (r: Self)
        ensures
            r.0 == id,
    {
        ShareId(id)
    }

    pub fn value(&self) -> (r: &str)
        ensures
            r@ == self.0@,
    {
        self.0.as_str()
    }
}

impl Clone for ShareId {
    fn clone(&self) -> (r: Self)
        ensures
            r == *self,
    {
        ShareId(self.0.clone())
    }
}

/// Identifier of an item inside a share.
#[derive(Debug)]
pub struct ItemId(pub String);

impl ItemId {
    pub fn new(id: String) -> (r: Self)
        ensures
            r.0 == id,
    {
        ItemId(id)
    }

    pub fn value(&self) -> (r: &str)
        ensures
            r@ == self.0@,
    {
        self.0.as_str()
    }
}

impl Clone for ItemId {
    fn clone(&self) -> (r: Self)
        ensures
            r == *self,
    {
        ItemId(self.0.clone())
    }
}

/// Whether an item is in use or in the trash.
#[derive(Debug, Clone, Copy, PartialEq, Eq)]
pub enum ItemState {
    Active,
    Trashed,
}

/// The key material of an SSH key item.
#[derive(Debug, Clone)]
pub struct SshKeyData {
    pub private_key: String,
    pub public_key: String,
}

/// What kind of item this is, with the data of that kind.
#[derive(Debug, Clone)]
pub enum ItemContent {
    Note,
    Alias,
    SshKey(SshKeyData),
}

/// The value of a custom field that a user added to an item.
#[derive(Debug, Clone)]
pub enum ItemExtraFieldContent {
    Text(String),
    Hidden(String),
    Totp(String),
    Timestamp(i64),
}

/// A custom field: a name chosen by the user and a typed value.
#[derive(Debug, Clone)]
pub struct ItemExtraField {
    pub name: String,
    pub content: ItemExtraFieldContent,
}

/// The decrypted content of an item.
#[derive(Debug, Clone)]
pub struct ItemData {
    pub title: String,
    pub note: String,
    pub item_uuid: String,
    pub content: ItemContent,
    pub extra_fields: Vec<ItemExtraField>,
}

/// An item as listed from a share.
#[derive(Debug, Clone)]
pub struct Item {
    pub id: ItemId,
    pub share_id: ShareId,
    pub state: ItemState,
    pub content: ItemData,
}

} // verus!
