use channel_permissions::claim::ClaimPermissions;
use channel_permissions::store::{Permission, PermissionStore};

fn identity(id: &str, title: &str, url: &str) -> ClaimPermissions {
    ClaimPermissions {
        channel_id: id.to_string(),
        channel_title: title.to_string(),
        custom_url: url.to_string(),
    }
}

#[test]
fn upsert_inserts_then_overwrites() {
    let mut store = PermissionStore::new();
    let ident = identity("UC1", "Test", "@test");
    store.upsert(&ident, Permission::Yes, "0", Permission::No, "0", 100);
    let first = store.get_by_channel_id_or_handle("UC1").unwrap();
    assert!(matches!(first.can_react_live, Permission::Yes));
    assert!(matches!(first.can_upload_reaction, Permission::No));
    assert_eq!(first.last_updated_at, 100);

    store.upsert(&ident, Permission::YesWithDelay, "3d", Permission::Yes, "1w", 200);
    let second = store.get_by_channel_id_or_handle("UC1").unwrap();
    assert!(matches!(second.can_react_live, Permission::YesWithDelay));
    assert_eq!(second.live_reaction_delay.as_deref(), Some("3d"));
    assert_eq!(second.upload_reaction_delay.as_deref(), Some("1w"));
    assert_eq!(second.last_updated_at, 200);
    assert_eq!(store.list_all().len(), 1);
}

#[test]
fn upsert_same_payload_twice_is_idempotent_except_timestamp() {
    let mut once = PermissionStore::new();
    let mut twice = PermissionStore::new();
    let ident = identity("UC1", "Test", "@test");

    once.upsert(&ident, Permission::Yes, "2w", Permission::No, "0", 500);
    twice.upsert(&ident, Permission::Yes, "2w", Permission::No, "0", 400);
    twice.upsert(&ident, Permission::Yes, "2w", Permission::No, "0", 500);

    let a = once.get_by_channel_id_or_handle("UC1").unwrap();
    let b = twice.get_by_channel_id_or_handle("UC1").unwrap();
    assert_eq!(a.channel_id, b.channel_id);
    assert_eq!(a.channel_title, b.channel_title);
    assert_eq!(a.custom_url, b.custom_url);
    assert_eq!(a.live_reaction_delay, b.live_reaction_delay);
    assert_eq!(a.upload_reaction_delay, b.upload_reaction_delay);
    assert_eq!(a.last_updated_at, b.last_updated_at);
    assert_eq!(once.list_all().len(), twice.list_all().len());

    // The timestamp advanced to the later write's instant.
    assert_eq!(b.last_updated_at, 500);
}

#[test]
fn handle_lookup_is_case_insensitive() {
    let mut store = PermissionStore::new();
    let ident = identity("UC1", "Foo Channel", "@Foo");
    store.upsert(&ident, Permission::Yes, "0", Permission::Yes, "0", 1);

    let upper = store.get_by_channel_id_or_handle("@Foo").unwrap();
    let lower = store.get_by_channel_id_or_handle("@foo").unwrap();
    assert_eq!(upper.channel_id, "UC1");
    assert_eq!(lower.channel_id, "UC1");
    assert_eq!(upper.channel_id, lower.channel_id);
    assert_eq!(upper.last_updated_at, lower.last_updated_at);
}

#[test]
fn id_lookup_is_exact_and_misses_are_none() {
    let mut store = PermissionStore::new();
    let ident = identity("UC1", "Foo", "@foo");
    store.upsert(&ident, Permission::No, "0", Permission::No, "0", 1);

    assert!(store.get_by_channel_id_or_handle("UC1").is_some());
    assert!(store.get_by_channel_id_or_handle("uc1").is_none());
    assert!(store.get_by_channel_id_or_handle("UC-unknown").is_none());
    assert!(store.get_by_channel_id_or_handle("@nobody").is_none());
}

#[test]
fn list_all_returns_every_record_in_order() {
    let mut store = PermissionStore::new();
    store.upsert(&identity("UC1", "A", "@a"), Permission::Yes, "0", Permission::No, "0", 1);
    store.upsert(&identity("UC2", "B", "@b"), Permission::No, "0", Permission::Yes, "0", 2);
    store.upsert(&identity("UC3", "C", "@c"), Permission::Yes, "0", Permission::Yes, "0", 3);
    let all = store.list_all();
    assert_eq!(all.len(), 3);
    assert_eq!(all[0].channel_id, "UC1");
    assert_eq!(all[1].channel_id, "UC2");
    assert_eq!(all[2].channel_id, "UC3");
}

#[test]
fn permission_text_forms_round_trip() {
    for p in [Permission::Yes, Permission::YesWithDelay, Permission::No] {
        let s = p.to_str();
        let back = Permission::from_str_form(s).unwrap();
        assert_eq!(back.to_str(), s);
    }
    assert_eq!(Permission::Yes.to_str(), "yes");
    assert_eq!(Permission::YesWithDelay.to_str(), "yes_with_delay");
    assert_eq!(Permission::No.to_str(), "no");
    assert!(Permission::from_str_form("maybe").is_none());
    assert!(Permission::from_str_form("Yes").is_none());
    assert!(Permission::from_str_form("").is_none());
}
