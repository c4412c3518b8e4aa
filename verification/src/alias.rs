//! Creating an email alias: the command, the choice of suffix and mailbox,
//! and the requests sent to the Pass API.

use vstd::prelude::*;
use crate::domain::{ItemContent, ItemData, ItemExtraField, ItemId};

verus! {

/// How a command prints its result.
#[derive(Debug, Clone, Copy, PartialEq, Eq)]
pub enum OutputFormat {
    Human,
    Json,
}

/// The alias subcommands of the command line tool.
#[derive(Debug)]
pub enum AliasCommands {
    /// Create a new alias `[prefix].[suffix]` in the vault of `share_id`.
    Create { share_id: String, prefix: String, output: OutputFormat },
}

/// An alias that was created: its address and the id of its item.
#[derive(Debug)]
pub struct CreatedAliasItem {
    pub alias: String,
    pub item_id: ItemId,
}

/// Why an alias cannot be created.
#[derive(Debug, Clone, Copy, PartialEq, Eq)]
pub enum AliasError {
    /// The alias options offer no suffix.
    NoSuffix,
    /// The alias options offer no mailbox.
    NoMailbox,
    /// The created item came back without an alias address.
    MissingAliasEmail,
}

impl AliasError {
    /// The message shown to the user.
    pub fn message(&self) -> (r: String)
        ensures
            r@ == match self {
                AliasError::NoSuffix => "No suffix found"@,
                AliasError::NoMailbox => "No mailbox found"@,
                AliasError::MissingAliasEmail => "Error getting email from created alias"@,
            },
    {
        match self {
            AliasError::NoSuffix => String::from_str("No suffix found"),
            AliasError::NoMailbox => String::from_str("No mailbox found"),
            AliasError::MissingAliasEmail => String::from_str(
                "Error getting email from created alias",
            ),
        }
    }
}

/// A suffix that the server offers for new aliases, with its signature.
#[derive(Debug)]
pub struct AliasSuffix {
    pub suffix: String,
    pub signed_suffix: String,
}

/// A mailbox that aliases can forward to.
#[derive(Debug)]
pub struct AliasMailbox {
    pub id: i64,
    pub email: String,
}

/// The suffixes and mailboxes that the server offers for a vault.
#[derive(Debug)]
pub struct AliasOptions {
    pub suffixes: Vec<AliasSuffix>,
    pub mailboxes: Vec<AliasMailbox>,
}

/// Takes the last offered suffix and the last offered mailbox.
pub fn take_alias_suffix_and_mailbox(options: AliasOptions) -> (r: Result<(AliasSuffix, AliasMailbox), AliasError>)
    ensures
        options.suffixes@.len() == 0 ==> r == Err::<(AliasSuffix, AliasMailbox), AliasError>(
            AliasError::NoSuffix,
        ),
        options.suffixes@.len() > 0 && options.mailboxes@.len() == 0 ==> r == Err::<
            (AliasSuffix, AliasMailbox),
            AliasError,
        >(AliasError::NoMailbox),
        options.suffixes@.len() > 0 && options.mailboxes@.len() > 0 ==> r == Ok::<
            (AliasSuffix, AliasMailbox),
            AliasError,
        >((options.suffixes@.last(), options.mailboxes@.last())),
{
    let mut options = options;
    let suffix = match options.suffixes.pop() {
        Some(s) => s,
        None => {
            return Err(AliasError::NoSuffix);
        },
    };
    let mailbox = match options.mailboxes.pop() {
        Some(m) => m,
        None => {
            return Err(AliasError::NoMailbox);
        },
    };
    Ok((suffix, mailbox))
}

/// The title of the item that holds a new alias.
pub fn alias_item_title(prefix: &str) -> (r: String)
    ensures
        r@ == "Alias for "@ + prefix@,
{
    String::from_str("Alias for ").concat(prefix)
}

/// The content of the item that holds a new alias: the title, an empty
/// note, the item's uuid, alias content and no custom fields.
pub fn alias_item_data(title: String, item_uuid: String) -> (r: ItemData)
    ensures
        r.title == title,
        r.note@ == Seq::<char>::empty(),
        r.item_uuid == item_uuid,
        r.content == ItemContent::Alias,
        r.extra_fields@ == Seq::<ItemExtraField>::empty(),
{
    ItemData {
        title,
        note: String::new(),
        item_uuid,
        content: ItemContent::Alias,
        extra_fields: Vec::new(),
    }
}

/// The encrypted item sent along with a new alias.
#[derive(Debug)]
pub struct CreateItemRequest {
    pub key_rotation: u8,
    pub content_format_version: u32,
    pub content: String,
    pub item_key: String,
}

/// The request that creates an alias with a custom prefix.
#[derive(Debug)]
pub struct CreateAliasRequest {
    pub prefix: String,
    pub signed_suffix: String,
    pub mailbox_ids: Vec<i64>,
    pub alias_name: Option<String>,
    pub item: CreateItemRequest,
}

/// The request that creates the alias `prefix` with the chosen suffix,
/// forwarding to the chosen mailbox, with no alias name.
pub fn create_alias_request(
    prefix: &str,
    suffix: AliasSuffix,
    mailbox: AliasMailbox,
    item: CreateItemRequest,
) -> (r: CreateAliasRequest)
    ensures
        r.prefix@ == prefix@,
        r.signed_suffix == suffix.signed_suffix,
        r.mailbox_ids@ == seq![mailbox.id],
        r.alias_name is None,
        r.item == item,
{
    let mut mailbox_ids: Vec<i64> = Vec::new();
    mailbox_ids.push(mailbox.id);
    CreateAliasRequest {
        prefix: prefix.to_owned(),
        signed_suffix: suffix.signed_suffix,
        mailbox_ids,
        alias_name: None,
        item,
    }
}

/// The created alias from the server's answer: its address, which the
/// answer must carry, and the id of its item.
pub fn created_alias_item(alias_email: Option<String>, item_id: String) -> (r: Result<CreatedAliasItem, AliasError>)
    ensures
        match alias_email {
            Some(email) => r == Ok::<CreatedAliasItem, AliasError>(
                CreatedAliasItem { alias: email, item_id: ItemId(item_id) },
            ),
            None => r == Err::<CreatedAliasItem, AliasError>(AliasError::MissingAliasEmail),
        },
{
    let email = match alias_email {
        Some(email) => email,
        None => {
            return Err(AliasError::MissingAliasEmail);
        },
    };
    Ok(CreatedAliasItem { alias: email, item_id: ItemId::new(item_id) })
}

} // verus!
