use pass::domain::{
    Item, ItemContent, ItemData, ItemExtraField, ItemExtraFieldContent, ItemId, ItemState,
    ShareId, SshKeyData,
};
use pass::ssh_agent::{
    collect_share_items, extract_ssh_keys, field_name_names_a_passphrase,
    find_passphrases_in_extra_fields, load_and_decrypt_key, load_ssh_keys, KeyLoadError,
    SshKeyItem, PASSPHRASE_SEARCH_TERM_COUNT,
};

/// An unencrypted OpenSSH private key, built from fixed key bytes.
fn plain_key() -> String {
    let mut bytes = [0u8; 64];
    for (i, b) in bytes.iter_mut().enumerate() {
        *b = i as u8 + 1;
    }
    let keypair = ssh_key::private::Ed25519Keypair::from_bytes(&bytes).unwrap();
    let key = ssh_key::PrivateKey::from(keypair);
    key.to_openssh(ssh_key::LineEnding::LF).unwrap().to_string()
}

/// The same key, encrypted with the passphrase "hunter2".
fn encrypted_key() -> String {
    let key = ssh_key::PrivateKey::from_openssh(plain_key()).unwrap();
    let kdf = ssh_key::Kdf::Bcrypt { salt: vec![7u8; 16], rounds: 2 };
    let encrypted = key
        .encrypt_with(ssh_key::Cipher::Aes256Ctr, kdf, 0x1234_5678, "hunter2")
        .unwrap();
    assert!(encrypted.is_encrypted());
    encrypted.to_openssh(ssh_key::LineEnding::LF).unwrap().to_string()
}

fn field(name: &str, content: ItemExtraFieldContent) -> ItemExtraField {
    ItemExtraField { name: name.to_string(), content }
}

fn text(v: &str) -> ItemExtraFieldContent {
    ItemExtraFieldContent::Text(v.to_string())
}

fn hidden(v: &str) -> ItemExtraFieldContent {
    ItemExtraFieldContent::Hidden(v.to_string())
}

fn item(id: &str, state: ItemState, content: ItemContent, fields: Vec<ItemExtraField>) -> Item {
    Item {
        id: ItemId::new(id.to_string()),
        share_id: ShareId::new("share".to_string()),
        state,
        content: ItemData {
            title: format!("title-{id}"),
            note: String::new(),
            item_uuid: format!("uuid-{id}"),
            content,
            extra_fields: fields,
        },
    }
}

fn ssh(private_key: &str) -> ItemContent {
    ItemContent::SshKey(SshKeyData {
        private_key: private_key.to_string(),
        public_key: "ssh-ed25519 AAAA".to_string(),
    })
}

fn sorted(mut v: Vec<String>) -> Vec<String> {
    v.sort();
    v
}

#[test]
fn extract_keeps_active_ssh_key_items_in_order() {
    let items = vec![
        item("1", ItemState::Active, ssh("k1"), vec![]),
        item("2", ItemState::Trashed, ssh("k2"), vec![]),
        item("3", ItemState::Active, ItemContent::Note, vec![]),
        item("4", ItemState::Active, ItemContent::Alias, vec![]),
        item("5", ItemState::Active, ssh("k5"), vec![]),
    ];
    let keys: Vec<SshKeyItem> = extract_ssh_keys(items);
    assert_eq!(keys.len(), 2);
    assert_eq!(keys[0].private_key, "k1");
    assert_eq!(keys[0].item.id.value(), "1");
    assert_eq!(keys[1].private_key, "k5");
    assert_eq!(keys[1].item.id.value(), "5");
}

#[test]
fn extract_of_nothing_is_nothing() {
    assert!(extract_ssh_keys(vec![]).is_empty());
    let trashed = vec![item("1", ItemState::Trashed, ssh("k"), vec![])];
    assert!(extract_ssh_keys(trashed).is_empty());
}

#[test]
fn passphrases_match_field_names_case_insensitively() {
    let it = item(
        "1",
        ItemState::Active,
        ssh("k"),
        vec![
            field("SSH PASSPHRASE", text("secret-a")),
            field("My PwD", text("secret-b")),
            field("Notes", text("not a passphrase")),
            field("Keypass", text("secret-c")),
        ],
    );
    let found = sorted(find_passphrases_in_extra_fields(&it));
    assert_eq!(found, vec!["secret-a", "secret-b", "secret-c"]);
}

#[test]
fn passphrases_fall_back_to_every_hidden_field() {
    let it = item(
        "1",
        ItemState::Active,
        ssh("k"),
        vec![
            field("Anything", hidden("hidden-1")),
            field("Comment", text("visible")),
            field("Password", ItemExtraFieldContent::Totp("otpauth://x".to_string())),
            field("Pass date", ItemExtraFieldContent::Timestamp(12)),
        ],
    );
    let found = sorted(find_passphrases_in_extra_fields(&it));
    assert_eq!(found, vec!["hidden-1"]);
}

#[test]
fn passphrases_skip_empty_values_and_repeat_none() {
    let it = item(
        "1",
        ItemState::Active,
        ssh("k"),
        vec![
            field("password", text("")),
            field("passphrase", hidden("same")),
            field("other", hidden("same")),
            field("pwd", text("same")),
            field("x", hidden("")),
        ],
    );
    let found = find_passphrases_in_extra_fields(&it);
    assert_eq!(found, vec!["same".to_string()]);
}

#[test]
fn no_fields_no_passphrases() {
    let it = item("1", ItemState::Active, ssh("k"), vec![]);
    assert!(find_passphrases_in_extra_fields(&it).is_empty());
    assert_eq!(PASSPHRASE_SEARCH_TERM_COUNT, 8);
}

#[test]
fn field_names_are_matched_ignoring_case() {
    assert!(field_name_names_a_passphrase("SSH PassPhrase"));
    assert!(field_name_names_a_passphrase("PWD"));
    assert!(field_name_names_a_passphrase("KEY PASS"));
    assert!(!field_name_names_a_passphrase("Pa ss"));
    assert!(!field_name_names_a_passphrase(""));
}

#[test]
fn load_plain_key() {
    let plain = plain_key();
    let it = item("1", ItemState::Active, ssh(&plain), vec![]);
    let key = load_and_decrypt_key(&it, &plain).unwrap();
    assert!(!key.encrypted);
    assert!(!key.key.is_encrypted());
}

#[test]
fn load_rejects_text_that_is_not_a_key() {
    let it = item("1", ItemState::Active, ssh("nope"), vec![]);
    let e = load_and_decrypt_key(&it, "not a key").unwrap_err();
    assert!(matches!(e, KeyLoadError::Parse { ref title } if title == "title-1"));
    assert_eq!(e.message(), "Failed to parse SSH private key for item 'title-1'");
}

#[test]
fn load_decrypts_with_the_passphrase_field() {
    let encrypted = encrypted_key();
    let it = item(
        "1",
        ItemState::Active,
        ssh(&encrypted),
        vec![field("Passphrase", hidden("hunter2"))],
    );
    let key = load_and_decrypt_key(&it, &encrypted).unwrap();
    assert!(!key.encrypted);
    assert!(!key.key.is_encrypted());
}

#[test]
fn load_reports_a_wrong_passphrase() {
    let encrypted = encrypted_key();
    let it = item(
        "2",
        ItemState::Active,
        ssh(&encrypted),
        vec![field("password", text("wrong"))],
    );
    let e = load_and_decrypt_key(&it, &encrypted).unwrap_err();
    assert!(matches!(e, KeyLoadError::Decrypt { ref title } if title == "title-2"));
    assert_eq!(
        e.message(),
        "Failed to decrypt SSH key 'title-2' with provided passphrase"
    );
}

#[test]
fn load_reports_a_missing_passphrase() {
    let encrypted = encrypted_key();
    let it = item("3", ItemState::Active, ssh(&encrypted), vec![]);
    let e = load_and_decrypt_key(&it, &encrypted).unwrap_err();
    assert!(matches!(e, KeyLoadError::MissingPassphrase { ref title } if title == "title-3"));
    assert_eq!(
        e.message(),
        "SSH key 'title-3' is encrypted but no passphrase found in extra fields. \
        Please add a Hidden field named 'Passphrase' or 'Password' with the key's passphrase."
    );
}

#[test]
fn load_tries_every_offered_passphrase() {
    let encrypted = encrypted_key();
    let it = item(
        "4",
        ItemState::Active,
        ssh(&encrypted),
        vec![
            field("password", text("wrong")),
            field("Notes", hidden("also wrong")),
            field("Passphrase", hidden("hunter2")),
        ],
    );
    let key = load_and_decrypt_key(&it, &encrypted).unwrap();
    assert!(!key.encrypted);
}

#[test]
fn load_ssh_keys_keeps_the_keys_that_load_in_order() {
    let encrypted = encrypted_key();
    let items = extract_ssh_keys(vec![
        item("1", ItemState::Active, ssh(&plain_key()), vec![]),
        item("2", ItemState::Active, ssh("garbage"), vec![]),
        item("3", ItemState::Active, ssh(&encrypted), vec![]),
        item("4", ItemState::Active, ssh(&encrypted), vec![field("pwd", text("hunter2"))]),
    ]);
    let opened = load_ssh_keys(&items);
    let titles: Vec<&str> = opened.keys.iter().map(|k| k.title.as_str()).collect();
    assert_eq!(titles, vec!["title-1", "title-4"]);
    assert!(opened.keys.iter().all(|k| !k.key.encrypted && !k.key.key.is_encrypted()));
    assert_eq!(opened.failures.len(), 2);
    assert!(matches!(opened.failures[0], KeyLoadError::Parse { ref title } if title == "title-2"));
    assert!(matches!(
        opened.failures[1],
        KeyLoadError::MissingPassphrase { ref title } if title == "title-3"
    ));
}

#[test]
fn collect_share_items_keeps_listed_items_and_reports_failures() {
    let results = vec![
        (
            ShareId::new("a".to_string()),
            Ok(vec![item("1", ItemState::Active, ItemContent::Note, vec![])]),
        ),
        (ShareId::new("b".to_string()), Err("offline".to_string())),
        (
            ShareId::new("c".to_string()),
            Ok(vec![
                item("2", ItemState::Active, ItemContent::Note, vec![]),
                item("3", ItemState::Active, ItemContent::Note, vec![]),
            ]),
        ),
    ];
    let (items, failures) = collect_share_items(results);
    let ids: Vec<&str> = items.iter().map(|i| i.id.value()).collect();
    assert_eq!(ids, vec!["1", "2", "3"]);
    assert_eq!(failures.len(), 1);
    assert_eq!(failures[0].0.value(), "b");
    assert_eq!(failures[0].1, "offline");
}

#[test]
fn passphrase_names_are_those_containing_pass_or_pwd() {
    for (name, found) in [
        ("Keypass", true),
        ("PASSWORD", true),
        ("my pwd", true),
        ("PaSs", true),
        ("pas", false),
        ("Secret", false),
        ("p w d", false),
    ] {
        let it = item("1", ItemState::Active, ssh("k"), vec![field(name, text("value"))]);
        let got = find_passphrases_in_extra_fields(&it);
        assert_eq!(!got.is_empty(), found, "field name {name}");
    }
}

#[test]
fn created_ssh_key_item_loads_with_its_passphrase() {
    let encrypted = encrypted_key();
    let payload = pass::ssh_key_item::SshKeyItemCreatePayload {
        title: "laptop".to_string(),
        private_key: encrypted.clone(),
        public_key: "ssh-ed25519 AAAA".to_string(),
        passphrase: Some("hunter2".to_string()),
    };
    let data = pass::ssh_key_item::ssh_key_item_data(payload, "uuid-1".to_string());
    let it = Item {
        id: ItemId::new("i".to_string()),
        share_id: ShareId::new("s".to_string()),
        state: ItemState::Active,
        content: data,
    };
    let key = load_and_decrypt_key(&it, &encrypted).unwrap();
    assert!(!key.encrypted);
}
