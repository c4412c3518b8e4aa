use pass::alias::{
    alias_item_data, alias_item_title, create_alias_request, created_alias_item,
    take_alias_suffix_and_mailbox, AliasCommands, AliasError, AliasMailbox, AliasOptions,
    AliasSuffix, CreateItemRequest, OutputFormat,
};
use pass::credentials::{CliCredentialProvider, CredentialError, PERSONAL_ACCESS_TOKEN_ENV_VAR};
use pass::domain::{ItemContent, ItemExtraFieldContent, ItemState};
use pass::first_time_setup::FirstTimeSetupKey;
use pass::info::{UserInfoUser, UserResponse};
use pass::personal_access_token::PersonalAccessTokenId;
use pass::session::{check_session_lock, login_success_message, SessionCommands, SessionLockError};
use pass::ssh_agent::{extract_ssh_keys, find_passphrases_in_extra_fields};
use pass::ssh_key_item::{ssh_key_item_data, SshKeyItemCreatePayload};

fn suffix(s: &str) -> AliasSuffix {
    AliasSuffix { suffix: s.to_string(), signed_suffix: format!("signed{s}") }
}

fn mailbox(id: i64) -> AliasMailbox {
    AliasMailbox { id, email: format!("m{id}@example.com") }
}

fn item_request() -> CreateItemRequest {
    CreateItemRequest {
        key_rotation: 3,
        content_format_version: 6,
        content: "Y29udGVudA==".to_string(),
        item_key: "a2V5".to_string(),
    }
}

#[test]
fn alias_takes_the_last_suffix_and_mailbox() {
    let options = AliasOptions {
        suffixes: vec![suffix(".a@x"), suffix(".b@x")],
        mailboxes: vec![mailbox(1), mailbox(2)],
    };
    let (s, m) = take_alias_suffix_and_mailbox(options).unwrap();
    assert_eq!(s.signed_suffix, "signed.b@x");
    assert_eq!(m.id, 2);
}

#[test]
fn alias_needs_a_suffix_then_a_mailbox() {
    let e = take_alias_suffix_and_mailbox(AliasOptions { suffixes: vec![], mailboxes: vec![] })
        .unwrap_err();
    assert_eq!(e, AliasError::NoSuffix);
    assert_eq!(e.message(), "No suffix found");
    let e = take_alias_suffix_and_mailbox(AliasOptions {
        suffixes: vec![suffix(".a@x")],
        mailboxes: vec![],
    })
    .unwrap_err();
    assert_eq!(e, AliasError::NoMailbox);
    assert_eq!(e.message(), "No mailbox found");
}

#[test]
fn alias_item_title_and_content() {
    let title = alias_item_title("shop");
    assert_eq!(title, "Alias for shop");
    let data = alias_item_data(title, "uuid-1".to_string());
    assert_eq!(data.title, "Alias for shop");
    assert_eq!(data.note, "");
    assert_eq!(data.item_uuid, "uuid-1");
    assert!(matches!(data.content, ItemContent::Alias));
    assert!(data.extra_fields.is_empty());
}

#[test]
fn alias_request_carries_prefix_suffix_and_mailbox() {
    let r = create_alias_request("shop", suffix(".b@x"), mailbox(7), item_request());
    assert_eq!(r.prefix, "shop");
    assert_eq!(r.signed_suffix, "signed.b@x");
    assert_eq!(r.mailbox_ids, vec![7]);
    assert!(r.alias_name.is_none());
    assert_eq!(r.item.key_rotation, 3);
    assert_eq!(r.item.content, "Y29udGVudA==");
}

#[test]
fn created_alias_needs_an_address() {
    let a = created_alias_item(Some("shop.b@x".to_string()), "item-9".to_string()).unwrap();
    assert_eq!(a.alias, "shop.b@x");
    assert_eq!(a.item_id.value(), "item-9");
    let e = created_alias_item(None, "item-9".to_string()).unwrap_err();
    assert_eq!(e, AliasError::MissingAliasEmail);
    assert_eq!(e.message(), "Error getting email from created alias");
}

#[test]
fn alias_command_holds_its_arguments() {
    let c = AliasCommands::Create {
        share_id: "s".to_string(),
        prefix: "p".to_string(),
        output: OutputFormat::Json,
    };
    match c {
        AliasCommands::Create { share_id, prefix, output } => {
            assert_eq!(share_id, "s");
            assert_eq!(prefix, "p");
            assert_eq!(output, OutputFormat::Json);
        }
    }
}

#[test]
fn session_lock_refuses_agent_sessions_first() {
    assert_eq!(check_session_lock(true, true), Err(SessionLockError::AgentSession));
    assert_eq!(check_session_lock(true, false), Err(SessionLockError::AgentSession));
    assert_eq!(check_session_lock(false, false), Err(SessionLockError::NoLock));
    assert_eq!(check_session_lock(false, true), Ok(()));
    assert_eq!(
        SessionLockError::AgentSession.message(),
        "Session lock is not available for agent sessions"
    );
    assert_eq!(
        SessionLockError::NoLock.message(),
        "Session has no lock. Create one first with `pass-cli session create-lock`"
    );
}

#[test]
fn session_lock_time_must_lie_between_30_and_900_seconds() {
    for (lock_time, ok) in [(29, false), (30, true), (300, true), (900, true), (901, false), (0, false)] {
        let c = SessionCommands::Lock { pin: "1234".to_string(), lock_time };
        let r = c.validate();
        if ok {
            assert_eq!(r, Ok(()));
        } else {
            assert_eq!(r, Err(SessionLockError::LockTimeOutOfRange));
        }
    }
    assert_eq!(
        SessionLockError::LockTimeOutOfRange.message(),
        "Lock time must be between 30 and 900 seconds"
    );
    assert_eq!(pass::session::MIN_LOCK_TIME_SECONDS, 30);
    assert_eq!(pass::session::MAX_LOCK_TIME_SECONDS, 900);
}

#[test]
fn session_command_holds_pin_and_time() {
    let c = SessionCommands::Lock { pin: "1234".to_string(), lock_time: 300 };
    match c {
        SessionCommands::Lock { pin, lock_time } => {
            assert_eq!(pin, "1234");
            assert_eq!(lock_time, 300);
        }
    }
}

#[test]
fn login_message_names_the_token() {
    assert_eq!(
        login_success_message("ci-token"),
        "Successfully logged in as personal access token: ci-token"
    );
}

#[test]
fn personal_access_token_from_the_environment_value() {
    let p = CliCredentialProvider;
    assert_eq!(p.get_personal_access_token(Some("tok".to_string())), Ok("tok".to_string()));
    let e = p.get_personal_access_token(None).unwrap_err();
    assert_eq!(e, CredentialError::PersonalAccessTokenNotFound);
    assert_eq!(
        e.message(),
        "Personal access token token not found. Set PROTON_PASS_PERSONAL_ACCESS_TOKEN environment variable"
    );
    assert_eq!(PERSONAL_ACCESS_TOKEN_ENV_VAR, "PROTON_PASS_PERSONAL_ACCESS_TOKEN");
}

#[test]
fn user_info_name_falls_back_to_the_email() {
    let u = UserInfoUser::from(UserResponse {
        id: "u1".to_string(),
        name: None,
        email: "a@b.c".to_string(),
    });
    assert_eq!(u.id, "u1");
    assert_eq!(u.name, "a@b.c");
    assert_eq!(u.email, "a@b.c");
    let u = UserInfoUser::from(UserResponse {
        id: "u2".to_string(),
        name: Some("Ada".to_string()),
        email: "a@b.c".to_string(),
    });
    assert_eq!(u.name, "Ada");
}

#[test]
fn personal_access_token_id_keeps_its_value() {
    let id = PersonalAccessTokenId::new("pat-1".to_string());
    assert_eq!(id.value(), "pat-1");
    assert_eq!(id.clone(), id);
    assert_ne!(id, PersonalAccessTokenId::new("pat-2".to_string()));
}

#[test]
fn first_time_setup_key_variants() {
    let k = FirstTimeSetupKey::Passphrase(vec![1, 2, 3]);
    assert!(matches!(k, FirstTimeSetupKey::Passphrase(ref p) if p == &vec![1, 2, 3]));
    let k = FirstTimeSetupKey::UserPassword("pw".to_string());
    assert!(matches!(k, FirstTimeSetupKey::UserPassword(ref p) if p == "pw"));
}

fn payload(passphrase: Option<&str>) -> SshKeyItemCreatePayload {
    SshKeyItemCreatePayload {
        title: "laptop".to_string(),
        private_key: "PRIVATE".to_string(),
        public_key: "PUBLIC".to_string(),
        passphrase: passphrase.map(|p| p.to_string()),
    }
}

#[test]
fn ssh_key_item_with_passphrase() {
    let data = ssh_key_item_data(payload(Some("hunter2")), "uuid-7".to_string());
    assert_eq!(data.title, "laptop");
    assert_eq!(data.note, "");
    assert_eq!(data.item_uuid, "uuid-7");
    match &data.content {
        ItemContent::SshKey(k) => {
            assert_eq!(k.private_key, "PRIVATE");
            assert_eq!(k.public_key, "PUBLIC");
        }
        _ => panic!("expected SSH key content"),
    }
    assert_eq!(data.extra_fields.len(), 1);
    assert_eq!(data.extra_fields[0].name, "Passphrase");
    assert!(matches!(data.extra_fields[0].content, ItemExtraFieldContent::Hidden(ref p) if p == "hunter2"));
}

#[test]
fn ssh_key_item_without_passphrase() {
    let data = ssh_key_item_data(payload(None), "uuid-8".to_string());
    assert!(data.extra_fields.is_empty());
}

#[test]
fn created_ssh_key_item_is_served_with_its_passphrase() {
    let data = ssh_key_item_data(payload(Some("hunter2")), "uuid-7".to_string());
    let item = pass::domain::Item {
        id: pass::domain::ItemId::new("i".to_string()),
        share_id: pass::domain::ShareId::new("s".to_string()),
        state: ItemState::Active,
        content: data,
    };
    assert_eq!(find_passphrases_in_extra_fields(&item), vec!["hunter2".to_string()]);
    let keys = extract_ssh_keys(vec![item]);
    assert_eq!(keys.len(), 1);
    assert_eq!(keys[0].private_key, "PRIVATE");
}
