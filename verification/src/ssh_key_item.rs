//! Creating an SSH key item.

use vstd::prelude::*;
use crate::domain::{ItemContent, ItemData, ItemExtraField, ItemExtraFieldContent, SshKeyData};

verus! {

/// What the user gives to create an SSH key item.
#[derive(Debug, Clone)]
pub struct SshKeyItemCreatePayload {
    pub title: String,
    pub private_key: String,
    pub public_key: String,
    pub passphrase: Option<String>,
}

/// `data` is the content of the SSH key item for `payload`: its title, an
/// empty note, the uuid, the key pair, and, when a passphrase is given, a
/// hidden custom field named "Passphrase" that holds it, and no other field.
pub open spec fn is_ssh_key_item_data(
    payload: SshKeyItemCreatePayload,
    item_uuid: String,
    data: ItemData,
) -> bool {
    &&& data.title == payload.title
    &&& data.note@ == Seq::<char>::empty()
    &&& data.item_uuid == item_uuid
    &&& data.content == ItemContent::SshKey(
        SshKeyData { private_key: payload.private_key, public_key: payload.public_key },
    )
    &&& match payload.passphrase {
        Some(passphrase) => data.extra_fields@.len() == 1 && data.extra_fields@[0].name@
            == "Passphrase"@ && data.extra_fields@[0].content == ItemExtraFieldContent::Hidden(
            passphrase,
        ),
        None => data.extra_fields@.len() == 0,
    }
}

/// The content of the SSH key item for `payload`: its title, an empty note,
/// the key pair, and, when a passphrase is given, a hidden custom field
/// named "Passphrase" that holds it.
pub fn ssh_key_item_data(payload: SshKeyItemCreatePayload, item_uuid: String) -> (r: ItemData)
    ensures
        is_ssh_key_item_data(payload, item_uuid, r),
        r.title == payload.title,
        r.note@.len() == 0,
        r.item_uuid == item_uuid,
        r.content matches ItemContent::SshKey(key) && key.private_key == payload.private_key
            && key.public_key == payload.public_key,
        payload.passphrase is None ==> r.extra_fields@.len() == 0,
        payload.passphrase matches Some(p) ==> r.extra_fields@.len() == 1
            && r.extra_fields@[0].content == ItemExtraFieldContent::Hidden(p),
{
    let mut extra_fields: Vec<ItemExtraField> = Vec::new();
    match payload.passphrase {
        Some(passphrase) => {
            extra_fields.push(
                ItemExtraField {
                    name: String::from_str("Passphrase"),
                    content: ItemExtraFieldContent::Hidden(passphrase),
                },
            );
        },
        None => {},
    }
    ItemData {
        title: payload.title,
        note: String::new(),
        item_uuid,
        content: ItemContent::SshKey(
            SshKeyData { private_key: payload.private_key, public_key: payload.public_key },
        ),
        extra_fields,
    }
}

} // verus!
