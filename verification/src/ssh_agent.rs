//! Choosing the SSH keys that the agent serves from the items of a vault,
//! finding their passphrases, and opening them.

use vstd::prelude::*;
use crate::domain::{Item, ItemContent, ItemExtraField, ItemExtraFieldContent, ItemState, ShareId};
pub use crate::openssh::{
    OpensshKey, openssh_private_key_decrypts, openssh_private_key_encrypted,
    openssh_private_key_parses,
};
use crate::openssh::{decrypt_openssh_private_key, parse_openssh_private_key};
use crate::text::{
    all_ascii, ascii_lowercase, chars_of, contains_chars, lowercase, seq_contains, to_lowercase,
};

verus! {

/// Which vaults the agent takes its keys from.
#[derive(Debug, Clone)]
pub enum VaultQuery {
    ShareId(ShareId),
    VaultName(String),
    All,
}

/// An SSH key item together with its private key in OpenSSH format.
#[derive(Debug, Clone)]
pub struct SshKeyItem {
    pub item: Item,
    pub private_key: String,
}

/// The private key that an item offers to the agent: the key of an active
/// SSH key item; trashed items and items of other kinds offer none.
pub open spec fn offered_private_key(item: Item) -> Option<String> {
    match item.state {
        ItemState::Active => match item.content.content {
            ItemContent::SshKey(key) => Some(key.private_key),
            _ => None,
        },
        ItemState::Trashed => None,
    }
}

/// The SSH key items of `items`, in their order.
pub open spec fn ssh_keys_of(items: Seq<Item>) -> Seq<SshKeyItem>
    decreases items.len(),
{
    if items.len() == 0 {
        Seq::empty()
    } else {
        let rest = ssh_keys_of(items.drop_last());
        match offered_private_key(items.last()) {
            Some(key) => rest.push(SshKeyItem { item: items.last(), private_key: key }),
            None => rest,
        }
    }
}

/// Keeps the active SSH key items, in order, each with its private key.
pub fn extract_ssh_keys(items: Vec<Item>) -> (r: Vec<SshKeyItem>)
    ensures
        r@ == ssh_keys_of(items@),
{
    let ghost all = items@;
    let mut r: Vec<SshKeyItem> = Vec::new();
    for item in it: items
        invariant
            it.seq() == all,
            r@ == ssh_keys_of(all.take(it.index() as int)),
    {
        let ghost before = all.take(it.index() as int);
        proof {
            assert(all.take(it.index() + 1).drop_last() =~= before);
            assert(all.take(it.index() + 1).last() == item);
        }
        let private_key = match item.state {
            ItemState::Active => match &item.content.content {
                ItemContent::SshKey(key) => Some(key.private_key.clone()),
                _ => None,
            },
            ItemState::Trashed => None,
        };
        match private_key {
            Some(key) => {
                r.push(SshKeyItem { item, private_key: key });
            },
            None => {},
        }
    }
    assert(all.take(all.len() as int) =~= all);
    r
}


/// The words looked for, case-insensitively, in the names of custom fields
/// that may hold the passphrase of a key.
pub open spec fn passphrase_search_terms() -> Seq<Seq<char>> {
    seq![
        "passphrase"@,
        "password"@,
        "pass"@,
        "pwd"@,
        "key password"@,
        "ssh pass"@,
        "ssh password"@,
        "key pass"@,
    ]
}

/// The number of search terms.
pub const PASSPHRASE_SEARCH_TERM_COUNT: usize = 8;

/// The search term at `index`.
fn passphrase_search_term(index: usize) -> (t: &'static str)
    requires
        index < PASSPHRASE_SEARCH_TERM_COUNT,
    ensures
        t@ == passphrase_search_terms()[index as int],
{
    match index {
        0 => "passphrase",
        1 => "password",
        2 => "pass",
        3 => "pwd",
        4 => "key password",
        5 => "ssh pass",
        6 => "ssh password",
        _ => "key pass",
    }
}

/// The lowercased field name contains one of the search terms.
pub open spec fn names_a_passphrase(name: Seq<char>) -> bool {
    exists|k: int|
        0 <= k < passphrase_search_terms().len() && #[trigger] seq_contains(
            lowercase(name),
            passphrase_search_terms()[k],
        )
}

/// `field` offers `p` as a passphrase: `p` is the value of a hidden field,
/// or the value of a text field whose name names a passphrase.
pub open spec fn field_offers_passphrase(field: ItemExtraField, p: Seq<char>) -> bool {
    match field.content {
        ItemExtraFieldContent::Hidden(value) => value@ == p,
        ItemExtraFieldContent::Text(value) => value@ == p && names_a_passphrase(field.name@),
        _ => false,
    }
}

/// The passphrases worth trying for a key: the non-empty values that some
/// custom field offers.
pub open spec fn passphrase_candidate(fields: Seq<ItemExtraField>, p: Seq<char>) -> bool {
    &&& p.len() > 0
    &&& exists|i: int| 0 <= i < fields.len() && field_offers_passphrase(#[trigger] fields[i], p)
}

/// The characters of each string.
pub open spec fn string_views(v: Seq<String>) -> Seq<Seq<char>> {
    v.map_values(|s: String| s@)
}

/// Adds `s` to `set` unless a string with the same characters is there.
fn insert_unique(set: &mut Vec<String>, s: String)
    requires
        string_views(old(set)@).no_duplicates(),
    ensures
        string_views(final(set)@).no_duplicates(),
        forall|p: Seq<char>|
            #![trigger string_views(final(set)@).contains(p)]
            string_views(final(set)@).contains(p) <==> (string_views(old(set)@).contains(p) || p
                == s@),
{
    let n = set.len();
    let mut i: usize = 0;
    while i < n
        invariant
            n == set@.len(),
            set@ == old(set)@,
            string_views(set@).no_duplicates(),
            i <= n,
            forall|k: int| 0 <= k < i ==> set@[k]@ != s@,
        decreases n - i,
    {
        if set[i] == s {
            assert(string_views(set@)[i as int] == s@);
            return;
        }
        i = i + 1;
    }
    let ghost before = set@;
    set.push(s);
    assert(string_views(set@) =~= string_views(before).push(s@));
    assert(!string_views(before).contains(s@)) by {
        if string_views(before).contains(s@) {
            let k = choose|k: int| 0 <= k < string_views(before).len() && string_views(before)[k] == s@;
            assert(before[k]@ == s@);
        }
    }
    assert forall|p: Seq<char>|
        #![trigger string_views(set@).contains(p)]
        string_views(set@).contains(p) <==> (string_views(before).contains(p) || p == s@) by {
        if string_views(set@).contains(p) && p != s@ {
            let k = choose|k: int| 0 <= k < string_views(set@).len() && string_views(set@)[k] == p;
            assert(string_views(before)[k] == p);
        }
        if string_views(before).contains(p) {
            let k = choose|k: int| 0 <= k < string_views(before).len() && string_views(before)[k] == p;
            assert(string_views(set@)[k] == p);
        }
        if p == s@ {
            assert(string_views(set@)[before.len() as int] == p);
        }
    }
}

/// Whether the name of a custom field contains, once lowercased, one of
/// the passphrase search terms. The search ignores case: for an ASCII name
/// the answer depends only on the name with its letters lowercased, and is
/// whether that contains "pass" or "pwd".
pub fn field_name_names_a_passphrase(name: &str) -> (r: bool)
    ensures
        r == names_a_passphrase(name@),
        all_ascii(name@) ==> (r <==> (seq_contains(ascii_lowercase(name@), "pass"@)
            || seq_contains(ascii_lowercase(name@), "pwd"@))),
{
    let lower = to_lowercase(name);
    let lower_chars = chars_of(lower.as_str());
    let mut k: usize = 0;
    while k < PASSPHRASE_SEARCH_TERM_COUNT
        invariant
            lower_chars@ == lowercase(name@),
            all_ascii(name@) ==> lowercase(name@) == ascii_lowercase(name@),
            k <= PASSPHRASE_SEARCH_TERM_COUNT,
            forall|j: int|
                0 <= j < k ==> !#[trigger] seq_contains(
                    lowercase(name@),
                    passphrase_search_terms()[j],
                ),
        decreases PASSPHRASE_SEARCH_TERM_COUNT - k,
    {
        let term = chars_of(passphrase_search_term(k));
        if contains_chars(&lower_chars, &term) {
            proof {
                assert(names_a_passphrase(name@));
                crate::laws::lemma_passphrase_names_contain_pass_or_pwd(name@);
            }
            return true;
        }
        k = k + 1;
    }
    proof {
        crate::laws::lemma_passphrase_names_contain_pass_or_pwd(name@);
    }
    false
}

/// The passphrases that the custom fields of `item` may hold: the values of
/// text and hidden fields whose name contains a search term, and, as a
/// fallback, the values of all hidden fields. Empty values are skipped and
/// each passphrase is listed once.
pub fn find_passphrases_in_extra_fields(item: &Item) -> (r: Vec<String>)
    ensures
        string_views(r@).no_duplicates(),
        forall|p: Seq<char>|
            #![trigger string_views(r@).contains(p)]
            string_views(r@).contains(p) <==> passphrase_candidate(
                item.content.extra_fields@,
                p,
            ),
{
    let fields = &item.content.extra_fields;
    let n = fields.len();
    let mut res: Vec<String> = Vec::new();
    assert(string_views(res@) =~= Seq::<Seq<char>>::empty());
    // Fields whose name looks like that of a passphrase.
    let mut i: usize = 0;
    while i < n
        invariant
            n == fields@.len(),
            fields == &item.content.extra_fields,
            i <= n,
            string_views(res@).no_duplicates(),
            forall|p: Seq<char>|
                #![trigger string_views(res@).contains(p)]
                string_views(res@).contains(p) <==> (p.len() > 0 && exists|j: int|
                    0 <= j < i && named_field_offers(#[trigger] fields@[j], p)),
        decreases n - i,
    {
        let field = &fields[i];
        let ghost old_res = res@;
        if field_name_names_a_passphrase(field.name.as_str()) {
            let content = match &field.content {
                ItemExtraFieldContent::Text(s) => Some(s.clone()),
                ItemExtraFieldContent::Hidden(s) => Some(s.clone()),
                ItemExtraFieldContent::Totp(_) => None,
                ItemExtraFieldContent::Timestamp(_) => None,
            };
            match content {
                Some(passphrase) => {
                    if !passphrase.as_str().is_empty() {
                        insert_unique(&mut res, passphrase);
                    }
                },
                None => {},
            }
        }
        assert forall|p: Seq<char>|
            #![trigger string_views(res@).contains(p)]
            string_views(res@).contains(p) <==> (p.len() > 0 && exists|j: int|
                0 <= j < i + 1 && named_field_offers(#[trigger] fields@[j], p)) by {
            if p.len() > 0 && named_field_offers(fields@[i as int], p) {
            }
            if string_views(old_res).contains(p) {
            }
        }
        i = i + 1;
    }
    // Every hidden field, as a fallback.
    let mut i: usize = 0;
    while i < n
        invariant
            n == fields@.len(),
            fields == &item.content.extra_fields,
            i <= n,
            string_views(res@).no_duplicates(),
            forall|p: Seq<char>|
                #![trigger string_views(res@).contains(p)]
                string_views(res@).contains(p) <==> (p.len() > 0 && ((exists|j: int|
                    0 <= j < n && named_field_offers(#[trigger] fields@[j], p)) || exists|j: int|
                    0 <= j < i && hidden_field_offers(#[trigger] fields@[j], p))),
        decreases n - i,
    {
        let field = &fields[i];
        let ghost old_res = res@;
        match &field.content {
            ItemExtraFieldContent::Hidden(value) => {
                if !value.as_str().is_empty() {
                    insert_unique(&mut res, value.clone());
                }
            },
            _ => {},
        }
        assert forall|p: Seq<char>|
            #![trigger string_views(res@).contains(p)]
            string_views(res@).contains(p) <==> (p.len() > 0 && ((exists|j: int|
                0 <= j < n && named_field_offers(#[trigger] fields@[j], p)) || exists|j: int|
                0 <= j < i + 1 && hidden_field_offers(#[trigger] fields@[j], p))) by {
            if p.len() > 0 && hidden_field_offers(fields@[i as int], p) {
            }
            if string_views(old_res).contains(p) {
            }
        }
        i = i + 1;
    }
    assert forall|p: Seq<char>|
        #![trigger string_views(res@).contains(p)]
        string_views(res@).contains(p) <==> passphrase_candidate(
            item.content.extra_fields@,
            p,
        ) by {
        if passphrase_candidate(item.content.extra_fields@, p) {
            let j = choose|j: int|
                0 <= j < fields@.len() && field_offers_passphrase(#[trigger] fields@[j], p);
            assert(named_field_offers(fields@[j], p) || hidden_field_offers(fields@[j], p));
        }
        if string_views(res@).contains(p) {
            if exists|j: int| 0 <= j < n && named_field_offers(#[trigger] fields@[j], p) {
                let j = choose|j: int| 0 <= j < n && named_field_offers(#[trigger] fields@[j], p);
                assert(field_offers_passphrase(fields@[j], p));
            } else {
                let j = choose|j: int| 0 <= j < n && hidden_field_offers(#[trigger] fields@[j], p);
                assert(field_offers_passphrase(fields@[j], p));
            }
        }
    }
    res
}

/// `field` is a text or hidden field with value `p` whose name names a
/// passphrase.
spec fn named_field_offers(field: ItemExtraField, p: Seq<char>) -> bool {
    &&& names_a_passphrase(field.name@)
    &&& match field.content {
        ItemExtraFieldContent::Hidden(value) => value@ == p,
        ItemExtraFieldContent::Text(value) => value@ == p,
        _ => false,
    }
}

/// `field` is a hidden field with value `p`.
spec fn hidden_field_offers(field: ItemExtraField, p: Seq<char>) -> bool {
    match field.content {
        ItemExtraFieldContent::Hidden(value) => value@ == p,
        _ => false,
    }
}


/// Why a key of an SSH key item could not be opened. Each error carries the
/// title of the item.
#[derive(Debug)]
pub enum KeyLoadError {
    /// The private key is not valid OpenSSH PEM text.
    Parse { title: String },
    /// The key is encrypted and none of the passphrases found opens it.
    Decrypt { title: String },
    /// The key is encrypted and no custom field offers a passphrase.
    MissingPassphrase { title: String },
}

impl KeyLoadError {
    /// The title of the item whose key could not be opened.
    pub open spec fn spec_title(self) -> String {
        match self {
            KeyLoadError::Parse { title } => title,
            KeyLoadError::Decrypt { title } => title,
            KeyLoadError::MissingPassphrase { title } => title,
        }
    }

    /// The message shown to the user.
    pub fn message(&self) -> (r: String)
        ensures
            r@ == match self {
                KeyLoadError::Parse { title } => "Failed to parse SSH private key for item '"@
                    + title@ + "'"@,
                KeyLoadError::Decrypt { title } => "Failed to decrypt SSH key '"@ + title@
                    + "' with provided passphrase"@,
                KeyLoadError::MissingPassphrase { title } => "SSH key '"@ + title@
                    + "' is encrypted but no passphrase found in extra fields. Please add a Hidden field named 'Passphrase' or 'Password' with the key's passphrase."@,
            },
    {
        match self {
            KeyLoadError::Parse { title } => String::from_str(
                "Failed to parse SSH private key for item '",
            ).concat(title.as_str()).concat("'"),
            KeyLoadError::Decrypt { title } => String::from_str("Failed to decrypt SSH key '").concat(
                title.as_str(),
            ).concat("' with provided passphrase"),
            KeyLoadError::MissingPassphrase { title } => String::from_str("SSH key '").concat(
                title.as_str(),
            ).concat(
                "' is encrypted but no passphrase found in extra fields. Please add a Hidden field named 'Passphrase' or 'Password' with the key's passphrase.",
            ),
        }
    }
}

/// Some custom field of the item offers a passphrase.
pub open spec fn offers_some_passphrase(item: Item) -> bool {
    exists|p: Seq<char>| passphrase_candidate(item.content.extra_fields@, p)
}

/// Some passphrase that the item offers opens the encrypted key in `text`.
pub open spec fn offered_passphrase_decrypts(item: Item, text: Seq<char>) -> bool {
    exists|p: Seq<char>|
        passphrase_candidate(item.content.extra_fields@, p) && #[trigger]
        openssh_private_key_decrypts(text, p)
}

/// Why the key text of `item` cannot be opened, if it can't: it is not an
/// OpenSSH private key; or it is encrypted and no custom field offers a
/// passphrase; or it is encrypted and none of the offered passphrases opens
/// it. An unencrypted key, or an encrypted key that one of the offered
/// passphrases opens, loads.
pub open spec fn key_load_error(item: Item, text: Seq<char>) -> Option<KeyLoadError> {
    let title = item.content.title;
    if !openssh_private_key_parses(text) {
        Some(KeyLoadError::Parse { title })
    } else if !openssh_private_key_encrypted(text) {
        None
    } else if !offers_some_passphrase(item) {
        Some(KeyLoadError::MissingPassphrase { title })
    } else if offered_passphrase_decrypts(item, text) {
        None
    } else {
        Some(KeyLoadError::Decrypt { title })
    }
}

/// What loading the key text of `item` gives: the error of
/// `key_load_error`, or else a key that is not encrypted.
pub open spec fn key_load_outcome(item: Item, text: Seq<char>, r: Result<OpensshKey, KeyLoadError>) -> bool {
    match key_load_error(item, text) {
        Some(e) => r == Err::<OpensshKey, KeyLoadError>(e),
        None => r matches Ok(k) && !k.spec_encrypted(),
    }
}

/// Tries the passphrases in order until one opens the key in `text`.
fn decrypt_with_any(text: &str, passphrases: &Vec<String>) -> (r: Option<OpensshKey>)
    ensures
        r is Some <==> openssh_private_key_parses(text@) && exists|i: int|
            0 <= i < passphrases@.len() && #[trigger] openssh_private_key_decrypts(
                text@,
                passphrases@[i]@,
            ),
        r matches Some(k) ==> !k.spec_encrypted() && k.decoded_from(text@),
{
    let n = passphrases.len();
    let mut i: usize = 0;
    while i < n
        invariant
            n == passphrases@.len(),
            i <= n,
            forall|j: int|
                0 <= j < i ==> !(openssh_private_key_parses(text@)
                    && #[trigger] openssh_private_key_decrypts(text@, passphrases@[j]@)),
        decreases n - i,
    {
        match decrypt_openssh_private_key(text, passphrases[i].as_str()) {
            Ok(key) => {
                return Some(key);
            },
            Err(_) => {},
        }
        i = i + 1;
    }
    None
}

/// Parses the private key of `item` and, when it is encrypted, decrypts it
/// with the first passphrase found in the item's custom fields that opens
/// it.
pub fn load_and_decrypt_key(item: &Item, private_key_str: &str) -> (r: Result<OpensshKey, KeyLoadError>)
    ensures
        key_load_outcome(*item, private_key_str@, r),
        r matches Ok(k) ==> k.decoded_from(private_key_str@),
{
    let parsed = match parse_openssh_private_key(private_key_str) {
        Ok(key) => key,
        Err(_) => {
            return Err(KeyLoadError::Parse { title: item.content.title.clone() });
        },
    };
    if !parsed.is_encrypted() {
        return Ok(parsed);
    }
    let passphrases = find_passphrases_in_extra_fields(item);
    let ghost views = string_views(passphrases@);
    if passphrases.len() == 0 {
        assert(!offers_some_passphrase(*item)) by {
            if offers_some_passphrase(*item) {
                let p = choose|p: Seq<char>| passphrase_candidate(item.content.extra_fields@, p);
                assert(views.contains(p));
            }
        }
        return Err(KeyLoadError::MissingPassphrase { title: item.content.title.clone() });
    }
    assert(offers_some_passphrase(*item)) by {
        assert(views.contains(views[0]));
    }
    let opened = decrypt_with_any(private_key_str, &passphrases);
    proof {
        if offered_passphrase_decrypts(*item, private_key_str@) {
            let p = choose|p: Seq<char>|
                passphrase_candidate(item.content.extra_fields@, p) && #[trigger]
                openssh_private_key_decrypts(private_key_str@, p);
            assert(views.contains(p));
            let i = choose|i: int| 0 <= i < views.len() && views[i] == p;
            assert(passphrases@[i]@ == p);
        }
        if opened is Some {
            let i = choose|i: int|
                0 <= i < passphrases@.len() && #[trigger] openssh_private_key_decrypts(
                    private_key_str@,
                    passphrases@[i]@,
                );
            assert(views[i] == passphrases@[i]@);
            assert(views.contains(passphrases@[i]@));
        }
    }
    match opened {
        Some(key) => Ok(key),
        None => Err(KeyLoadError::Decrypt { title: item.content.title.clone() }),
    }
}

/// A key that loaded, with the title of its item.
#[derive(Debug)]
pub struct OpenedSshKey {
    pub title: String,
    pub key: OpensshKey,
}

/// The keys of a list of SSH key items: those that loaded, and the errors
/// of those that did not, each in the order of the items.
#[derive(Debug)]
pub struct OpenedSshKeys {
    pub keys: Vec<OpenedSshKey>,
    pub failures: Vec<KeyLoadError>,
}

/// The titles of the items whose key loads, in order.
pub open spec fn loaded_key_titles(items: Seq<SshKeyItem>) -> Seq<String>
    decreases items.len(),
{
    if items.len() == 0 {
        Seq::empty()
    } else {
        let rest = loaded_key_titles(items.drop_last());
        let last = items.last();
        match key_load_error(last.item, last.private_key@) {
            None => rest.push(last.item.content.title),
            Some(_) => rest,
        }
    }
}

/// The errors of the items whose key does not load, in order.
pub open spec fn key_load_failures(items: Seq<SshKeyItem>) -> Seq<KeyLoadError>
    decreases items.len(),
{
    if items.len() == 0 {
        Seq::empty()
    } else {
        let rest = key_load_failures(items.drop_last());
        let last = items.last();
        match key_load_error(last.item, last.private_key@) {
            None => rest,
            Some(e) => rest.push(e),
        }
    }
}

/// The items whose key loads, in order.
pub open spec fn items_whose_key_loads(items: Seq<SshKeyItem>) -> Seq<SshKeyItem>
    decreases items.len(),
{
    if items.len() == 0 {
        Seq::empty()
    } else {
        let rest = items_whose_key_loads(items.drop_last());
        let last = items.last();
        match key_load_error(last.item, last.private_key@) {
            None => rest.push(last),
            Some(_) => rest,
        }
    }
}

/// The titles of the opened keys.
pub open spec fn opened_key_titles(keys: Seq<OpenedSshKey>) -> Seq<String> {
    keys.map_values(|k: OpenedSshKey| k.title)
}

/// Loads the key of each SSH key item, in order: the keys that load are
/// kept with the titles of their items, the others are reported by their
/// errors and skipped.
pub fn load_ssh_keys(items: &Vec<SshKeyItem>) -> (r: OpenedSshKeys)
    ensures
        opened_key_titles(r.keys@) == loaded_key_titles(items@),
        r.failures@ == key_load_failures(items@),
        forall|i: int| 0 <= i < r.keys@.len() ==> !(#[trigger] r.keys@[i]).key.spec_encrypted(),
        r.keys@.len() == items_whose_key_loads(items@).len(),
        forall|i: int|
            #![trigger r.keys@[i]]
            0 <= i < r.keys@.len() ==> r.keys@[i].title == items_whose_key_loads(
                items@,
            )[i].item.content.title && r.keys@[i].key.decoded_from(
                items_whose_key_loads(items@)[i].private_key@,
            ),
{
    let mut keys: Vec<OpenedSshKey> = Vec::new();
    let mut failures: Vec<KeyLoadError> = Vec::new();
    let n = items.len();
    for i in 0..n
        invariant
            n == items@.len(),
            opened_key_titles(keys@) == loaded_key_titles(items@.take(i as int)),
            failures@ == key_load_failures(items@.take(i as int)),
            forall|j: int| 0 <= j < keys@.len() ==> !(#[trigger] keys@[j]).key.spec_encrypted(),
            keys@.len() == items_whose_key_loads(items@.take(i as int)).len(),
            forall|j: int|
                #![trigger keys@[j]]
                0 <= j < keys@.len() ==> keys@[j].title == items_whose_key_loads(
                    items@.take(i as int),
                )[j].item.content.title && keys@[j].key.decoded_from(
                    items_whose_key_loads(items@.take(i as int))[j].private_key@,
                ),
    {
        proof {
            assert(items@.take(i + 1).drop_last() =~= items@.take(i as int));
            assert(items@.take(i + 1).last() == items@[i as int]);
        }
        let ssh_item = &items[i];
        let ghost before = keys@;
        match load_and_decrypt_key(&ssh_item.item, ssh_item.private_key.as_str()) {
            Ok(key) => {
                keys.push(OpenedSshKey { title: ssh_item.item.content.title.clone(), key });
                assert(opened_key_titles(keys@) =~= opened_key_titles(before).push(
                    ssh_item.item.content.title,
                ));
            },
            Err(e) => {
                failures.push(e);
            },
        }
    }
    assert(items@.take(n as int) =~= items@);
    OpenedSshKeys { keys, failures }
}

/// The items of the shares that could be listed, share after share.
pub open spec fn listed_items(results: Seq<(ShareId, Result<Vec<Item>, String>)>) -> Seq<Item>
    decreases results.len(),
{
    if results.len() == 0 {
        Seq::empty()
    } else {
        let rest = listed_items(results.drop_last());
        match results.last().1 {
            Ok(items) => rest + items@,
            Err(_) => rest,
        }
    }
}

/// The shares that could not be listed, each with its error, in order.
pub open spec fn listing_failures(results: Seq<(ShareId, Result<Vec<Item>, String>)>) -> Seq<(ShareId, String)>
    decreases results.len(),
{
    if results.len() == 0 {
        Seq::empty()
    } else {
        let rest = listing_failures(results.drop_last());
        match results.last().1 {
            Ok(_) => rest,
            Err(e) => rest.push((results.last().0, e)),
        }
    }
}

/// Gathers the items of every share that could be listed; the shares that
/// failed are returned with their errors, so that they can be reported and
/// skipped.
pub fn collect_share_items(results: Vec<(ShareId, Result<Vec<Item>, String>)>) -> (r: (
    Vec<Item>,
    Vec<(ShareId, String)>,
))
    ensures
        r.0@ == listed_items(results@),
        r.1@ == listing_failures(results@),
{
    let ghost all = results@;
    let mut items: Vec<Item> = Vec::new();
    let mut failures: Vec<(ShareId, String)> = Vec::new();
    for entry in it: results
        invariant
            it.seq() == all,
            items@ == listed_items(all.take(it.index() as int)),
            failures@ == listing_failures(all.take(it.index() as int)),
    {
        proof {
            assert(all.take(it.index() + 1).drop_last() =~= all.take(it.index() as int));
            assert(all.take(it.index() + 1).last() == entry);
        }
        let (share_id, result) = entry;
        match result {
            Ok(listed) => {
                let mut listed = listed;
                items.append(&mut listed);
            },
            Err(e) => {
                failures.push((share_id, e));
            },
        }
    }
    assert(all.take(all.len() as int) =~= all);
    (items, failures)
}

} // verus!
