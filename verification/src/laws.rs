//! Properties that hold across the functions of the library.

use vstd::prelude::*;
use crate::domain::{Item, ItemData, ItemState};
use crate::move_item::{
    ItemQuery, MoveAction, MoveEvent, MoveItemQuery, MoveProgress, ShareQuery, apply_move_event,
    first_item_with_title, initial_move_progress, item_by_title, move_progress_fits,
    move_query_error, next_move_action,
};
use crate::domain::{ItemContent, ItemId};
use crate::info::{UserInfoUser, UserResponse};
use vstd::std_specs::convert::FromSpec;
use crate::ssh_agent::{
    SshKeyItem, field_offers_passphrase, items_whose_key_loads, key_load_error,
    key_load_failures, names_a_passphrase,
    offered_passphrase_decrypts, offered_private_key, openssh_private_key_decrypts,
    openssh_private_key_encrypted, openssh_private_key_parses, passphrase_candidate,
    passphrase_search_terms, ssh_keys_of,
};
use crate::domain::ItemExtraFieldContent;
use crate::text::{lowercase, seq_contains};
use crate::ssh_key_item::{SshKeyItemCreatePayload, is_ssh_key_item_data};

verus! {

/// The agent only serves keys of active SSH key items, each from an item of
/// the list, with that item's private key, in the order of the list.
pub proof fn lemma_served_keys_come_from_active_items(items: Seq<Item>)
    ensures
        forall|k: int|
            #![trigger ssh_keys_of(items)[k]]
            0 <= k < ssh_keys_of(items).len() ==> exists|i: int|
                0 <= i < items.len() && #[trigger] items[i] == ssh_keys_of(items)[k].item
                    && offered_private_key(items[i]) == Some(ssh_keys_of(items)[k].private_key)
                    && items[i].state == ItemState::Active,
        ssh_keys_of(items).len() <= items.len(),
    decreases items.len(),
{
    if items.len() > 0 {
        let rest = items.drop_last();
        lemma_served_keys_come_from_active_items(rest);
        assert forall|k: int|
            #![trigger ssh_keys_of(items)[k]]
            0 <= k < ssh_keys_of(items).len() implies exists|i: int|
            0 <= i < items.len() && #[trigger] items[i] == ssh_keys_of(items)[k].item
                && offered_private_key(items[i]) == Some(ssh_keys_of(items)[k].private_key)
                && items[i].state == ItemState::Active by {
            if k < ssh_keys_of(rest).len() {
                let i = choose|i: int|
                    0 <= i < rest.len() && #[trigger] rest[i] == ssh_keys_of(rest)[k].item
                        && offered_private_key(rest[i]) == Some(ssh_keys_of(rest)[k].private_key)
                        && rest[i].state == ItemState::Active;
                assert(items[i] == rest[i]);
            } else {
                assert(items[items.len() - 1] == items.last());
            }
        }
    }
}

/// An active SSH key item created from a payload is served by the agent
/// with the payload's private key. When the payload had a non-empty
/// passphrase, that passphrase is the one and only candidate for opening
/// the key; without a passphrase there is no candidate.
pub proof fn lemma_created_ssh_key_item_is_served_with_its_passphrase(
    payload: SshKeyItemCreatePayload,
    item_uuid: String,
    item: Item,
)
    requires
        item.state == ItemState::Active,
        is_ssh_key_item_data(payload, item_uuid, item.content),
    ensures
        ssh_keys_of(seq![item]) == seq![SshKeyItem { item, private_key: payload.private_key }],
        match payload.passphrase {
            Some(p) => p@.len() > 0 ==> forall|q: Seq<char>|
                passphrase_candidate(item.content.extra_fields@, q) <==> q == p@,
            None => forall|q: Seq<char>| !passphrase_candidate(item.content.extra_fields@, q),
        },
{
    assert(seq![item].drop_last() =~= Seq::<Item>::empty());
    assert(ssh_keys_of(Seq::<Item>::empty()) =~= Seq::<SshKeyItem>::empty());
    assert(seq![item].last() == item);
    assert(offered_private_key(item) == Some(payload.private_key));
    assert(ssh_keys_of(seq![item]) =~= seq![
        SshKeyItem { item, private_key: payload.private_key },
    ]);
    let fields = item.content.extra_fields@;
    match payload.passphrase {
        Some(p) => {
            assert forall|q: Seq<char>|
                p@.len() > 0 implies passphrase_candidate(fields, q) <==> q == p@ by {
                if q == p@ {
                    assert(field_offers_passphrase(fields[0], q));
                }
            }
        },
        None => {},
    }
}

/// The arguments of the move command are accepted exactly when each of the
/// three pairs (source, item, destination) is given once and only once.
pub proof fn lemma_move_query_accepted_iff_each_pair_given_once(
    from_share_id: bool,
    from_vault: bool,
    item_id: bool,
    item_title: bool,
    to_share_id: bool,
    to_vault_name: bool,
)
    ensures
        move_query_error(
            from_share_id,
            from_vault,
            item_id,
            item_title,
            to_share_id,
            to_vault_name,
        ) is None <==> (from_share_id != from_vault && item_id != item_title && to_share_id
            != to_vault_name),
{
}


/// A vault or item that the move command was given by id is never looked
/// up: the source vault is searched only when named, the items are listed
/// only when the item is given by title, and the destination vault is
/// searched only when named.
pub proof fn lemma_move_looks_up_only_what_was_named(q: MoveItemQuery, p: MoveProgress)
    requires
        move_progress_fits(q, p),
    ensures
        next_move_action(q, p) is FindSourceVault ==> q is FromVaultName,
        next_move_action(q, p) is ListSourceItems ==> q.spec_item_query() is ItemTitle,
        next_move_action(q, p) is FindDestinationVault ==> q.spec_to_share_query() is VaultName,
{
}

/// How many of the three ids the move still lacks.
pub open spec fn missing_move_ids(p: MoveProgress) -> nat {
    (if p.from_share_id is None { 1nat } else { 0nat }) + (if p.item_id is None {
        1nat
    } else {
        0nat
    }) + (if p.to_share_id is None { 1nat } else { 0nat })
}

/// The answer that the Pass API gives to an action.
pub open spec fn answers_move_action(a: MoveAction, e: MoveEvent) -> bool {
    match a {
        MoveAction::FindSourceVault(_) => e is SourceVaultFound,
        MoveAction::ListSourceItems(_) => e is SourceItemsListed,
        MoveAction::FindDestinationVault(_) => e is DestinationVaultFound,
        _ => false,
    }
}

/// Each answer to the action that the move asked for supplies one missing
/// id, unless it ends the command: the move reaches its last call after at
/// most three answers.
pub proof fn lemma_each_answer_supplies_an_id(q: MoveItemQuery, p: MoveProgress, e: MoveEvent)
    requires
        move_progress_fits(q, p),
        answers_move_action(next_move_action(q, p), e),
    ensures
        apply_move_event(q, p, e) matches Ok(next) ==> missing_move_ids(next) + 1
            == missing_move_ids(p),
{
}


/// If `needle` occurs in `text` and `part` occurs in `needle` at `offset`,
/// then `part` occurs in `text`.
proof fn lemma_contains_through(text: Seq<char>, needle: Seq<char>, part: Seq<char>, offset: int)
    requires
        seq_contains(text, needle),
        0 <= offset,
        offset + part.len() <= needle.len(),
        needle.subrange(offset, offset + part.len()) == part,
    ensures
        seq_contains(text, part),
{
    let i = choose|i: int|
        0 <= i && i + needle.len() <= text.len() && #[trigger] text.subrange(i, i + needle.len())
            == needle;
    assert forall|j: int| 0 <= j < part.len() implies text.subrange(
        i + offset,
        i + offset + part.len(),
    )[j] == part[j] by {
        assert(text.subrange(i, i + needle.len())[offset + j] == needle[offset + j]);
        assert(needle.subrange(offset, offset + part.len())[j] == needle[offset + j]);
    }
    assert(text.subrange(i + offset, i + offset + part.len()) =~= part);
}

/// A field name names a passphrase exactly when, lowercased, it contains
/// "pass" or "pwd": every longer search term contains "pass".
pub proof fn lemma_passphrase_names_contain_pass_or_pwd(name: Seq<char>)
    ensures
        names_a_passphrase(name) <==> (seq_contains(lowercase(name), "pass"@) || seq_contains(
            lowercase(name),
            "pwd"@,
        )),
{
    reveal_strlit("passphrase");
    reveal_strlit("password");
    reveal_strlit("pass");
    reveal_strlit("pwd");
    reveal_strlit("key password");
    reveal_strlit("ssh pass");
    reveal_strlit("ssh password");
    reveal_strlit("key pass");
    let l = lowercase(name);
    let terms = passphrase_search_terms();
    if names_a_passphrase(name) {
        let k = choose|k: int| 0 <= k < terms.len() && #[trigger] seq_contains(l, terms[k]);
        if k == 3 {
            assert(terms[3] == "pwd"@);
        } else {
            let offset: int = if k <= 2 { 0 } else { 4 };
            assert(terms[k].subrange(offset, offset + 4) =~= "pass"@);
            lemma_contains_through(l, terms[k], "pass"@, offset);
        }
    }
    if seq_contains(l, "pass"@) {
        assert(seq_contains(l, terms[2]));
    }
    if seq_contains(l, "pwd"@) {
        assert(seq_contains(l, terms[3]));
    }
}


/// A key whose item has a non-empty hidden field holding a passphrase that
/// opens it loads, whatever the field is named and whatever other fields
/// the item has.
pub proof fn lemma_hidden_field_with_the_passphrase_opens_the_key(
    item: Item,
    text: Seq<char>,
    i: int,
    passphrase: Seq<char>,
)
    requires
        0 <= i < item.content.extra_fields@.len(),
        item.content.extra_fields@[i].content matches ItemExtraFieldContent::Hidden(value) && value@
            == passphrase,
        passphrase.len() > 0,
        openssh_private_key_parses(text),
        openssh_private_key_encrypted(text) ==> openssh_private_key_decrypts(text, passphrase),
    ensures
        key_load_error(item, text) is None,
{
    assert(field_offers_passphrase(item.content.extra_fields@[i], passphrase));
    assert(passphrase_candidate(item.content.extra_fields@, passphrase));
    if openssh_private_key_encrypted(text) {
        assert(offered_passphrase_decrypts(item, text));
    }
}

/// An SSH key item created with the passphrase of its private key loads.
pub proof fn lemma_created_ssh_key_item_loads(
    payload: SshKeyItemCreatePayload,
    item_uuid: String,
    item: Item,
)
    requires
        is_ssh_key_item_data(payload, item_uuid, item.content),
        payload.passphrase matches Some(p) && p@.len() > 0 && (openssh_private_key_encrypted(
            payload.private_key@,
        ) ==> openssh_private_key_decrypts(payload.private_key@, p@)),
        openssh_private_key_parses(payload.private_key@),
    ensures
        key_load_error(item, payload.private_key@) is None,
{
    let p = payload.passphrase.unwrap();
    lemma_hidden_field_with_the_passphrase_opens_the_key(item, payload.private_key@, 0, p@);
}


/// The keys that load are those of items of the list, in the list's order:
/// every item whose key loads is in the list, and every item of the list
/// either loads or fails, never both. When every key loads, the loaded
/// items are the list itself, so the k-th opened key comes from the k-th
/// item.
pub proof fn lemma_loaded_keys_come_from_their_own_items(items: Seq<SshKeyItem>)
    ensures
        forall|k: int|
            #![trigger items_whose_key_loads(items)[k]]
            0 <= k < items_whose_key_loads(items).len() ==> exists|i: int|
                0 <= i < items.len() && items[i] == items_whose_key_loads(items)[k]
                    && key_load_error(items[i].item, items[i].private_key@) is None,
        items_whose_key_loads(items).len() + key_load_failures(items).len() == items.len(),
        (forall|i: int|
            0 <= i < items.len() ==> key_load_error(
                (#[trigger] items[i]).item,
                items[i].private_key@,
            ) is None) ==> items_whose_key_loads(items) == items,
    decreases items.len(),
{
    if items.len() > 0 {
        let rest = items.drop_last();
        lemma_loaded_keys_come_from_their_own_items(rest);
        let loaded = items_whose_key_loads(items);
        assert forall|k: int|
            #![trigger items_whose_key_loads(items)[k]]
            0 <= k < loaded.len() implies exists|i: int|
                0 <= i < items.len() && items[i] == loaded[k] && key_load_error(
                    items[i].item,
                    items[i].private_key@,
                ) is None by {
            if k < items_whose_key_loads(rest).len() {
                let i = choose|i: int|
                    0 <= i < rest.len() && rest[i] == items_whose_key_loads(rest)[k]
                        && key_load_error(rest[i].item, rest[i].private_key@) is None;
                assert(items[i] == rest[i]);
            } else {
                assert(items[items.len() - 1] == items.last());
            }
        }
        if forall|i: int|
            0 <= i < items.len() ==> key_load_error(
                (#[trigger] items[i]).item,
                items[i].private_key@,
            ) is None {
            assert forall|i: int|
                0 <= i < rest.len() implies key_load_error(
                    (#[trigger] rest[i]).item,
                    rest[i].private_key@,
                ) is None by {
                assert(rest[i] == items[i]);
            }
            assert(items[items.len() - 1] == items.last());
            assert(items_whose_key_loads(items) =~= rest.push(items.last()));
            assert(rest.push(items.last()) =~= items);
        }
    } else {
        assert(items_whose_key_loads(items) =~= items);
    }
}

/// An item is found for a title only if its title is exactly that title,
/// character for character, and it is the first such item; no item is
/// found only when no item has exactly that title.
pub proof fn lemma_found_item_has_exactly_the_title(items: Seq<Item>, title: String)
    ensures
        item_by_title(items, title) matches Ok(id) ==> exists|i: int|
            0 <= i < items.len() && (#[trigger] items[i]).content.title@ == title@ && items[i].id
                == id && forall|j: int|
                0 <= j < i ==> (#[trigger] items[j]).content.title@ != title@,
        item_by_title(items, title) is Err ==> forall|i: int|
            0 <= i < items.len() ==> (#[trigger] items[i]).content.title@ != title@,
    decreases items.len(),
{
    if items.len() > 0 {
        let rest = items.drop_first();
        lemma_found_item_has_exactly_the_title(rest, title);
        if items[0].content.title@ != title@ {
            assert(first_item_with_title(items, title@) == first_item_with_title(rest, title@));
            match item_by_title(rest, title) {
                Ok(id) => {
                    let i = choose|i: int|
                        0 <= i < rest.len() && (#[trigger] rest[i]).content.title@ == title@
                            && rest[i].id == id && forall|j: int|
                            0 <= j < i ==> (#[trigger] rest[j]).content.title@ != title@;
                    assert(items[i + 1] == rest[i]);
                    assert forall|j: int|
                        0 <= j < i + 1 implies (#[trigger] items[j]).content.title@ != title@ by {
                        if j > 0 {
                            assert(items[j] == rest[j - 1]);
                        }
                    }
                },
                Err(_) => {
                    assert forall|i: int|
                        0 <= i < items.len() implies (#[trigger] items[i]).content.title@
                            != title@ by {
                        if i > 0 {
                            assert(items[i] == rest[i - 1]);
                        }
                    }
                },
            }
        }
    }
}

/// The move's destination is the one given by id, or else the one that the
/// lookup of the destination vault answered: a move starts at once only
/// when source, item and destination were all given by id, and with exactly
/// those ids; a destination named by vault name is unknown until the
/// lookup answers; no other answer supplies a destination.
pub proof fn lemma_move_destination_is_given_or_answered(
    q: MoveItemQuery,
    p: MoveProgress,
    e: MoveEvent,
)
    ensures
        q.spec_to_share_query() is VaultName ==> initial_move_progress(q).to_share_id is None,
        next_move_action(q, initial_move_progress(q)) matches MoveAction::MoveItem {
            from_share_id,
            item_id,
            to_share_id,
        } ==> {
            &&& q matches MoveItemQuery::FromShareId { from_share_id: f, .. } && f
                == from_share_id
            &&& q.spec_item_query() == ItemQuery::ItemId(item_id)
            &&& q.spec_to_share_query() == ShareQuery::ShareId(to_share_id)
        },
        apply_move_event(q, p, e) matches Ok(next) ==> (next.to_share_id matches Some(t)
            ==> p.to_share_id == Some(t) || (e == MoveEvent::DestinationVaultFound(t)
            && q.spec_to_share_query() is VaultName)),
{
}

/// The user shown keeps the id and the email of the server's answer; the
/// name is the user's name, or the email when the user has none.
pub proof fn lemma_user_info_keeps_id_and_email(v: UserResponse)
    ensures
        UserInfoUser::from_spec(v).id
            == v.id,
        UserInfoUser::from_spec(v).email
            == v.email,
        v.name matches Some(n) ==> UserInfoUser::from_spec(v).name == n,
        v.name is None ==> UserInfoUser::from_spec(v).name == v.email,
{
}

/// The content of an SSH key item keeps the payload's title, uuid and key
/// pair, whether or not a passphrase is given.
pub proof fn lemma_ssh_key_item_keeps_title_and_keys(
    payload: SshKeyItemCreatePayload,
    item_uuid: String,
    data: ItemData,
)
    requires
        is_ssh_key_item_data(payload, item_uuid, data),
    ensures
        data.title == payload.title,
        data.item_uuid == item_uuid,
        data.content matches ItemContent::SshKey(key) && key.private_key == payload.private_key
            && key.public_key == payload.public_key,
{
}

} // verus!
