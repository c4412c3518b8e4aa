//! Moving an item from one vault to another: checking the command's
//! arguments and resolving an item given by its title.

use vstd::prelude::*;
use crate::domain::{Item, ItemId, ShareId};

verus! {

/// How the command names the item to move.
#[derive(Debug)]
pub enum ItemQuery {
    ItemId(ItemId),
    ItemTitle(String),
}

/// How the command names a vault.
#[derive(Debug)]
pub enum ShareQuery {
    ShareId(ShareId),
    VaultName(String),
}

/// A checked request to move an item: the source vault, given by share id
/// or by name, the item, and the destination vault.
#[derive(Debug)]
pub enum MoveItemQuery {
    FromShareId { from_share_id: ShareId, item_query: ItemQuery, to_share_query: ShareQuery },
    FromVaultName { from_vault_name: String, item_query: ItemQuery, to_share_query: ShareQuery },
}

/// Why the arguments of the move command are refused.
#[derive(Debug, Clone, Copy, PartialEq, Eq)]
pub enum MoveQueryError {
    MissingSource,
    ConflictingSource,
    MissingItem,
    ConflictingItem,
    MissingDestination,
    ConflictingDestination,
}

impl MoveQueryError {
    /// The message shown to the user.
    pub fn message(&self) -> (r: String)
        ensures
            r@ == match self {
                MoveQueryError::MissingSource => "Please provide either --from-share-id or --from-vault"@,
                MoveQueryError::ConflictingSource => "Please provide either --from-share-id or --from-vault, not both"@,
                MoveQueryError::MissingItem => "Please provide either --item-id or --item-title"@,
                MoveQueryError::ConflictingItem => "Please provide either --item-id or --item-title, not both"@,
                MoveQueryError::MissingDestination => "Please provide either --to-share-id or --to-vault-name"@,
                MoveQueryError::ConflictingDestination => "Please provide either --to-share-id or --to-vault-name, not both"@,
            },
    {
        match self {
            MoveQueryError::MissingSource => String::from_str(
                "Please provide either --from-share-id or --from-vault",
            ),
            MoveQueryError::ConflictingSource => String::from_str(
                "Please provide either --from-share-id or --from-vault, not both",
            ),
            MoveQueryError::MissingItem => String::from_str(
                "Please provide either --item-id or --item-title",
            ),
            MoveQueryError::ConflictingItem => String::from_str(
                "Please provide either --item-id or --item-title, not both",
            ),
            MoveQueryError::MissingDestination => String::from_str(
                "Please provide either --to-share-id or --to-vault-name",
            ),
            MoveQueryError::ConflictingDestination => String::from_str(
                "Please provide either --to-share-id or --to-vault-name, not both",
            ),
        }
    }
}

/// The error for a pair of exclusive arguments: none if exactly one is given.
pub open spec fn exclusive_pair_error(
    first: bool,
    second: bool,
    missing: MoveQueryError,
    conflicting: MoveQueryError,
) -> Option<MoveQueryError> {
    if first && second {
        Some(conflicting)
    } else if !first && !second {
        Some(missing)
    } else {
        None
    }
}

/// The first error among the three pairs, checked source, item, destination.
pub open spec fn move_query_error(
    from_share_id: bool,
    from_vault: bool,
    item_id: bool,
    item_title: bool,
    to_share_id: bool,
    to_vault_name: bool,
) -> Option<MoveQueryError> {
    let source = exclusive_pair_error(
        from_share_id,
        from_vault,
        MoveQueryError::MissingSource,
        MoveQueryError::ConflictingSource,
    );
    let item = exclusive_pair_error(
        item_id,
        item_title,
        MoveQueryError::MissingItem,
        MoveQueryError::ConflictingItem,
    );
    let destination = exclusive_pair_error(
        to_share_id,
        to_vault_name,
        MoveQueryError::MissingDestination,
        MoveQueryError::ConflictingDestination,
    );
    if source is Some {
        source
    } else if item is Some {
        item
    } else {
        destination
    }
}

/// The item query named by exactly one of the two arguments.
pub open spec fn item_query_of(item_id: Option<String>, item_title: Option<String>) -> ItemQuery {
    match item_id {
        Some(id) => ItemQuery::ItemId(ItemId(id)),
        None => ItemQuery::ItemTitle(item_title.unwrap()),
    }
}

/// The vault named by exactly one of the two arguments.
pub open spec fn share_query_of(share_id: Option<String>, vault_name: Option<String>) -> ShareQuery {
    match share_id {
        Some(id) => ShareQuery::ShareId(ShareId(id)),
        None => ShareQuery::VaultName(vault_name.unwrap()),
    }
}

/// The query that a valid set of arguments describes.
pub open spec fn move_query_of(
    from_share_id: Option<String>,
    from_vault: Option<String>,
    item_id: Option<String>,
    item_title: Option<String>,
    to_share_id: Option<String>,
    to_vault_name: Option<String>,
) -> MoveItemQuery {
    let item_query = item_query_of(item_id, item_title);
    let to_share_query = share_query_of(to_share_id, to_vault_name);
    match from_share_id {
        Some(id) => MoveItemQuery::FromShareId {
            from_share_id: ShareId(id),
            item_query,
            to_share_query,
        },
        None => MoveItemQuery::FromVaultName {
            from_vault_name: from_vault.unwrap(),
            item_query,
            to_share_query,
        },
    }
}

/// Makes an exclusive pair of arguments into a vault query.
fn share_query_from(
    share_id: Option<String>,
    vault_name: Option<String>,
    missing: MoveQueryError,
    conflicting: MoveQueryError,
) -> (r: Result<ShareQuery, MoveQueryError>)
    ensures
        match exclusive_pair_error(share_id is Some, vault_name is Some, missing, conflicting) {
            Some(e) => r == Err::<ShareQuery, MoveQueryError>(e),
            None => r == Ok::<ShareQuery, MoveQueryError>(share_query_of(share_id, vault_name)),
        },
{
    match (share_id, vault_name) {
        (Some(id), None) => Ok(ShareQuery::ShareId(ShareId::new(id))),
        (None, Some(name)) => Ok(ShareQuery::VaultName(name)),
        (None, None) => Err(missing),
        (Some(_), Some(_)) => Err(conflicting),
    }
}

impl MoveItemQuery {
    /// Checks the arguments of the move command: each of the source vault,
    /// the item and the destination vault must be given exactly once, by
    /// identifier or by name. The first pair that is not is reported.
    pub fn new(
        from_share_id: Option<String>,
        from_vault: Option<String>,
        item_id: Option<String>,
        item_title: Option<String>,
        to_share_id: Option<String>,
        to_vault_name: Option<String>,
    ) -> (r: Result<Self, MoveQueryError>)
        ensures
            match move_query_error(
                from_share_id is Some,
                from_vault is Some,
                item_id is Some,
                item_title is Some,
                to_share_id is Some,
                to_vault_name is Some,
            ) {
                Some(e) => r == Err::<MoveItemQuery, MoveQueryError>(e),
                None => r == Ok::<MoveItemQuery, MoveQueryError>(
                    move_query_of(
                        from_share_id,
                        from_vault,
                        item_id,
                        item_title,
                        to_share_id,
                        to_vault_name,
                    ),
                ),
            },
    {
        let from_query = share_query_from(
            from_share_id,
            from_vault,
            MoveQueryError::MissingSource,
            MoveQueryError::ConflictingSource,
        )?;
        let item_query = match (item_id, item_title) {
            (Some(id), None) => ItemQuery::ItemId(ItemId::new(id)),
            (None, Some(title)) => ItemQuery::ItemTitle(title),
            (None, None) => {
                return Err(MoveQueryError::MissingItem);
            },
            (Some(_), Some(_)) => {
                return Err(MoveQueryError::ConflictingItem);
            },
        };
        let to_share_query = share_query_from(
            to_share_id,
            to_vault_name,
            MoveQueryError::MissingDestination,
            MoveQueryError::ConflictingDestination,
        )?;
        match from_query {
            ShareQuery::ShareId(from_share_id) => Ok(
                MoveItemQuery::FromShareId { from_share_id, item_query, to_share_query },
            ),
            ShareQuery::VaultName(from_vault_name) => Ok(
                MoveItemQuery::FromVaultName { from_vault_name, item_query, to_share_query },
            ),
        }
    }
}

/// Why an item given by its title cannot be moved.
#[derive(Debug)]
pub enum MoveItemError {
    ItemNotFound { title: String },
}

impl MoveItemError {
    /// The message shown to the user.
    pub fn message(&self) -> (r: String)
        ensures
            r@ == match self {
                MoveItemError::ItemNotFound { title } => "No item found with title: "@ + title@,
            },
    {
        match self {
            MoveItemError::ItemNotFound { title } => String::from_str(
                "No item found with title: ",
            ).concat(title.as_str()),
        }
    }
}

/// The item has this title.
pub open spec fn has_title(item: Item, title: Seq<char>) -> bool {
    item.content.title@ == title
}

/// The id of the first of `items` with this title, if any.
pub open spec fn first_item_with_title(items: Seq<Item>, title: Seq<char>) -> Option<ItemId>
    decreases items.len(),
{
    if items.len() == 0 {
        None
    } else if has_title(items[0], title) {
        Some(items[0].id)
    } else {
        first_item_with_title(items.drop_first(), title)
    }
}

/// `first_item_with_title` picks the first index that has the title.
proof fn lemma_first_item_with_title(items: Seq<Item>, title: Seq<char>, i: int)
    requires
        0 <= i <= items.len(),
        forall|j: int| 0 <= j < i ==> !has_title(#[trigger] items[j], title),
        i < items.len() ==> has_title(items[i], title),
    ensures
        first_item_with_title(items, title) == if i < items.len() {
            Some(items[i].id)
        } else {
            None::<ItemId>
        },
    decreases i,
{
    if items.len() > 0 && i > 0 {
        let rest = items.drop_first();
        assert forall|j: int| 0 <= j < i - 1 implies !has_title(#[trigger] rest[j], title) by {
            assert(rest[j] == items[j + 1]);
        }
        if i < items.len() {
            assert(rest[i - 1] == items[i]);
        }
        assert(!has_title(items[0], title));
        lemma_first_item_with_title(rest, title, i - 1);
    }
}

/// The outcome of looking for an item by title among `items`.
pub open spec fn item_by_title(items: Seq<Item>, title: String) -> Result<ItemId, MoveItemError> {
    match first_item_with_title(items, title@) {
        Some(id) => Ok(id),
        None => Err(MoveItemError::ItemNotFound { title }),
    }
}

/// Finds the first of `items` with the given title and gives its id.
pub fn find_item_by_title(items: &Vec<Item>, title: &String) -> (r: Result<ItemId, MoveItemError>)
    ensures
        r == item_by_title(items@, *title),
        r matches Ok(id) ==> exists|i: int|
            0 <= i < items@.len() && (#[trigger] items@[i]).content.title@ == title@
                && items@[i].id == id && forall|j: int|
                0 <= j < i ==> (#[trigger] items@[j]).content.title@ != title@,
        r is Err ==> forall|i: int|
            0 <= i < items@.len() ==> (#[trigger] items@[i]).content.title@ != title@,
{
    let n = items.len();
    for i in 0..n
        invariant
            n == items@.len(),
            forall|j: int| 0 <= j < i ==> !has_title(#[trigger] items@[j], title@),
    {
        if items[i].content.title == *title {
            proof {
                lemma_first_item_with_title(items@, title@, i as int);
            }
            return Ok(items[i].id.clone());
        }
    }
    proof {
        lemma_first_item_with_title(items@, title@, n as int);
    }
    Err(MoveItemError::ItemNotFound { title: title.clone() })
}

/// What is known so far of the ids that the move needs.
#[derive(Debug)]
pub struct MoveProgress {
    pub from_share_id: Option<ShareId>,
    pub item_id: Option<ItemId>,
    pub to_share_id: Option<ShareId>,
}

/// What the move command asks of the Pass API next.
#[derive(Debug)]
pub enum MoveAction {
    /// Look up the source vault by name.
    FindSourceVault(String),
    /// List the items of the source share, to find the item by its title.
    ListSourceItems(ShareId),
    /// Look up the destination vault by name.
    FindDestinationVault(String),
    /// Move the item; the command ends with the new item id.
    MoveItem { from_share_id: ShareId, item_id: ItemId, to_share_id: ShareId },
    /// The command fails.
    Fail(MoveItemError),
}

/// What the Pass API answered to the last action.
#[derive(Debug)]
pub enum MoveEvent {
    SourceVaultFound(ShareId),
    SourceItemsListed(Vec<Item>),
    DestinationVaultFound(ShareId),
}

impl MoveItemQuery {
    /// How the item is named.
    pub open spec fn spec_item_query(self) -> ItemQuery {
        match self {
            MoveItemQuery::FromShareId { item_query, .. } => item_query,
            MoveItemQuery::FromVaultName { item_query, .. } => item_query,
        }
    }

    /// How the destination vault is named.
    pub open spec fn spec_to_share_query(self) -> ShareQuery {
        match self {
            MoveItemQuery::FromShareId { to_share_query, .. } => to_share_query,
            MoveItemQuery::FromVaultName { to_share_query, .. } => to_share_query,
        }
    }
}

/// The progress holds every id that the query gives directly.
pub open spec fn move_progress_fits(q: MoveItemQuery, p: MoveProgress) -> bool {
    &&& (q matches MoveItemQuery::FromShareId { from_share_id, .. } ==> p.from_share_id == Some(
        from_share_id,
    ))
    &&& (q.spec_item_query() matches ItemQuery::ItemId(id) ==> p.item_id == Some(id))
    &&& (q.spec_to_share_query() matches ShareQuery::ShareId(id) ==> p.to_share_id == Some(id))
}

/// What is known before any call: the ids that the query gives directly.
pub open spec fn initial_move_progress(q: MoveItemQuery) -> MoveProgress {
    MoveProgress {
        from_share_id: match q {
            MoveItemQuery::FromShareId { from_share_id, .. } => Some(from_share_id),
            MoveItemQuery::FromVaultName { .. } => None,
        },
        item_id: match q.spec_item_query() {
            ItemQuery::ItemId(id) => Some(id),
            ItemQuery::ItemTitle(_) => None,
        },
        to_share_id: match q.spec_to_share_query() {
            ShareQuery::ShareId(id) => Some(id),
            ShareQuery::VaultName(_) => None,
        },
    }
}

/// The next action: resolve the source, then the item, then the
/// destination, each only when the query did not give it; then move.
pub open spec fn next_move_action(q: MoveItemQuery, p: MoveProgress) -> MoveAction {
    match p.from_share_id {
        None => MoveAction::FindSourceVault(
            match q {
                MoveItemQuery::FromVaultName { from_vault_name, .. } => from_vault_name,
                MoveItemQuery::FromShareId { from_share_id, .. } => from_share_id.0,
            },
        ),
        Some(from_share_id) => match p.item_id {
            None => MoveAction::ListSourceItems(from_share_id),
            Some(item_id) => match p.to_share_id {
                None => MoveAction::FindDestinationVault(
                    match q.spec_to_share_query() {
                        ShareQuery::VaultName(name) => name,
                        ShareQuery::ShareId(id) => id.0,
                    },
                ),
                Some(to_share_id) => MoveAction::MoveItem { from_share_id, item_id, to_share_id },
            },
        },
    }
}

/// What an answer of the Pass API teaches: the id of a vault looked up by
/// name, or the id of the item found by title; an item title that no listed
/// item has ends the command. An answer about what the query gave directly
/// changes nothing.
pub open spec fn apply_move_event(q: MoveItemQuery, p: MoveProgress, e: MoveEvent) -> Result<
    MoveProgress,
    MoveItemError,
> {
    match e {
        MoveEvent::SourceVaultFound(id) => match q {
            MoveItemQuery::FromVaultName { .. } => Ok(MoveProgress { from_share_id: Some(id), ..p }),
            MoveItemQuery::FromShareId { .. } => Ok(p),
        },
        MoveEvent::SourceItemsListed(items) => match q.spec_item_query() {
            ItemQuery::ItemTitle(title) => match item_by_title(items@, title) {
                Ok(id) => Ok(MoveProgress { item_id: Some(id), ..p }),
                Err(err) => Err(err),
            },
            ItemQuery::ItemId(_) => Ok(p),
        },
        MoveEvent::DestinationVaultFound(id) => match q.spec_to_share_query() {
            ShareQuery::VaultName(_) => Ok(MoveProgress { to_share_id: Some(id), ..p }),
            ShareQuery::ShareId(_) => Ok(p),
        },
    }
}

impl MoveItemQuery {
    /// Where the move starts: the ids that the query gives, and the first
    /// action.
    pub fn begin_move(&self) -> (r: (MoveProgress, MoveAction))
        ensures
            r.0 == initial_move_progress(*self),
            r.1 == next_move_action(*self, r.0),
            move_progress_fits(*self, r.0),
            r.0.from_share_id matches Some(id) ==> *self matches MoveItemQuery::FromShareId {
                from_share_id,
                ..
            } && from_share_id == id,
            r.0.item_id matches Some(id) ==> self.spec_item_query() == ItemQuery::ItemId(id),
            r.0.to_share_id matches Some(id) ==> self.spec_to_share_query() == ShareQuery::ShareId(
                id,
            ),
            r.1 matches MoveAction::MoveItem { from_share_id, item_id, to_share_id } ==> {
                &&& *self matches MoveItemQuery::FromShareId { from_share_id: f, .. } && f
                    == from_share_id
                &&& self.spec_item_query() == ItemQuery::ItemId(item_id)
                &&& self.spec_to_share_query() == ShareQuery::ShareId(to_share_id)
            },
    {
        let from_share_id = match self {
            MoveItemQuery::FromShareId { from_share_id, .. } => Some(from_share_id.clone()),
            MoveItemQuery::FromVaultName { .. } => None,
        };
        let item_id = match self.item_query() {
            ItemQuery::ItemId(id) => Some(id.clone()),
            ItemQuery::ItemTitle(_) => None,
        };
        let to_share_id = match self.to_share_query() {
            ShareQuery::ShareId(id) => Some(id.clone()),
            ShareQuery::VaultName(_) => None,
        };
        let progress = MoveProgress { from_share_id, item_id, to_share_id };
        let action = self.next_action(&progress);
        (progress, action)
    }

    /// Takes in the answer to the last action and gives the next action.
    pub fn continue_move(&self, progress: MoveProgress, event: MoveEvent) -> (r: (
        MoveProgress,
        MoveAction,
    ))
        requires
            move_progress_fits(*self, progress),
        ensures
            match apply_move_event(*self, progress, event) {
                Ok(p) => r.0 == p && r.1 == next_move_action(*self, p),
                Err(e) => r.0 == progress && r.1 == MoveAction::Fail(e),
            },
            move_progress_fits(*self, r.0),
            r.0.to_share_id matches Some(t) ==> progress.to_share_id == Some(t) || (event
                == MoveEvent::DestinationVaultFound(t) && self.spec_to_share_query() is VaultName),
            r.0.from_share_id matches Some(f) ==> progress.from_share_id == Some(f) || (event
                == MoveEvent::SourceVaultFound(f) && *self is FromVaultName),
            r.0.item_id matches Some(i) ==> progress.item_id == Some(i) || (
            event matches MoveEvent::SourceItemsListed(items) && self.spec_item_query() matches ItemQuery::ItemTitle(
                title,
            ) && exists|k: int|
                0 <= k < items@.len() && (#[trigger] items@[k]).content.title@ == title@
                    && items@[k].id == i),
    {
        match event {
            MoveEvent::SourceVaultFound(id) => {
                let p = match self {
                    MoveItemQuery::FromVaultName { .. } => MoveProgress {
                        from_share_id: Some(id),
                        ..progress
                    },
                    MoveItemQuery::FromShareId { .. } => progress,
                };
                let action = self.next_action(&p);
                (p, action)
            },
            MoveEvent::SourceItemsListed(items) => {
                match self.item_query() {
                    ItemQuery::ItemTitle(title) => match find_item_by_title(&items, title) {
                        Ok(id) => {
                            let p = MoveProgress { item_id: Some(id), ..progress };
                            let action = self.next_action(&p);
                            (p, action)
                        },
                        Err(e) => (progress, MoveAction::Fail(e)),
                    },
                    ItemQuery::ItemId(_) => {
                        let action = self.next_action(&progress);
                        (progress, action)
                    },
                }
            },
            MoveEvent::DestinationVaultFound(id) => {
                let p = match self.to_share_query() {
                    ShareQuery::VaultName(_) => MoveProgress { to_share_id: Some(id), ..progress },
                    ShareQuery::ShareId(_) => progress,
                };
                let action = self.next_action(&p);
                (p, action)
            },
        }
    }

    fn item_query(&self) -> (r: &ItemQuery)
        ensures
            *r == self.spec_item_query(),
    {
        match self {
            MoveItemQuery::FromShareId { item_query, .. } => item_query,
            MoveItemQuery::FromVaultName { item_query, .. } => item_query,
        }
    }

    fn to_share_query(&self) -> (r: &ShareQuery)
        ensures
            *r == self.spec_to_share_query(),
    {
        match self {
            MoveItemQuery::FromShareId { to_share_query, .. } => to_share_query,
            MoveItemQuery::FromVaultName { to_share_query, .. } => to_share_query,
        }
    }

    fn next_action(&self, p: &MoveProgress) -> (r: MoveAction)
        ensures
            r == next_move_action(*self, *p),
    {
        match &p.from_share_id {
            None => MoveAction::FindSourceVault(
                match self {
                    MoveItemQuery::FromVaultName { from_vault_name, .. } => from_vault_name.clone(),
                    MoveItemQuery::FromShareId { from_share_id, .. } => from_share_id.0.clone(),
                },
            ),
            Some(from_share_id) => match &p.item_id {
                None => MoveAction::ListSourceItems(from_share_id.clone()),
                Some(item_id) => match &p.to_share_id {
                    None => MoveAction::FindDestinationVault(
                        match self.to_share_query() {
                            ShareQuery::VaultName(name) => name.clone(),
                            ShareQuery::ShareId(id) => id.0.clone(),
                        },
                    ),
                    Some(to_share_id) => MoveAction::MoveItem {
                        from_share_id: from_share_id.clone(),
                        item_id: item_id.clone(),
                        to_share_id: to_share_id.clone(),
                    },
                },
            },
        }
    }
}

} // verus!
