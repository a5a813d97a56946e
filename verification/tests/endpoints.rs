use channel_permissions::claim::{issue, ClaimPermissions, SigningKey};
use channel_permissions::http::health_check;
use channel_permissions::provider::{
    access_token_outcome, channels_info_outcome, issue_for_channels, BrandingSettings, Channel,
    ChannelsInfo, Item, PageInfo, ProviderResponse,
};
use channel_permissions::routes::{
    get_full_permissions_list, get_permission_by_channel_id, set_permissions, DataError,
    SetPermissionsData,
};
use channel_permissions::store::{Permission, PermissionStore};

fn payload(token: String) -> SetPermissionsData {
    SetPermissionsData {
        can_react_live: Permission::Yes,
        live_reaction_delay_value: 0,
        live_reaction_delay_unit: "".to_string(),
        can_upload_reaction: Permission::No,
        upload_reaction_delay_value: 0,
        upload_reaction_delay_unit: "".to_string(),
        token,
    }
}

#[test]
fn health_endpoint_is_up() {
    let reply = health_check();
    assert_eq!(reply.status, 200);
    assert_eq!(reply.body, "UP");
}

#[test]
fn exchange_issue_verify_and_persist_scenario() {
    // The whole happy path: the code "abc123" is exchanged, the provider
    // answers with one channel, a claim is issued and verified, and a
    // set-permissions call stores the record.
    let key = SigningKey::generate();
    let now: u64 = 1_700_000_000;

    let code = "abc123".to_string();
    let token_endpoint_answer =
        ProviderResponse::Response(200, Some(format!("access-token-for-{code}")));
    let access_token = access_token_outcome(token_endpoint_answer).unwrap();
    assert_eq!(access_token, "access-token-for-abc123");

    let info = ChannelsInfo {
        page_info: PageInfo { total_results: 1 },
        items: vec![Item {
            id: "UC1".to_string(),
            branding_settings: BrandingSettings {
                channel: Channel {
                    title: "Test".to_string(),
                    custom_url: "@test".to_string(),
                },
            },
        }],
    };
    let info = channels_info_outcome(ProviderResponse::Response(200, Some(info))).unwrap();
    let claim_token = issue_for_channels(&key, &info, now).unwrap();

    let mut store = PermissionStore::new();
    let reply = set_permissions(&key, &mut store, &payload(claim_token), now + 60).unwrap();
    assert_eq!(reply.status, 200);
    assert_eq!(reply.body, "ok");

    let rec = store.get_by_channel_id_or_handle("UC1").unwrap();
    assert_eq!(rec.channel_id, "UC1");
    assert_eq!(rec.channel_title, "Test");
    assert_eq!(rec.custom_url, "@test");
    assert!(matches!(rec.can_react_live, Permission::Yes));
    assert!(matches!(rec.can_upload_reaction, Permission::No));
    assert_eq!(rec.live_reaction_delay.as_deref(), Some("0"));
    assert_eq!(rec.upload_reaction_delay.as_deref(), Some("0"));
}

#[test]
fn set_permissions_with_bad_token_writes_nothing() {
    let key = SigningKey::generate();
    let mut store = PermissionStore::new();
    let out = set_permissions(&key, &mut store, &payload("bo.gus.token".to_string()), 1_000);
    match out {
        Err(DataError::Unexpected(m)) => assert_eq!(m, "failed to verify token"),
        _ => panic!("an unverifiable claim must abort the write"),
    }
    assert_eq!(store.list_all().len(), 0);
}

#[test]
fn set_permissions_with_expired_token_writes_nothing() {
    // Rejection holds from the expiry instant itself onwards.
    let key = SigningKey::generate();
    let ident = ClaimPermissions {
        channel_id: "UC1".to_string(),
        channel_title: "T".to_string(),
        custom_url: "@t".to_string(),
    };
    let now: u64 = 1_000_000;
    let token = issue(&key, &ident, now).unwrap();
    let mut store = PermissionStore::new();
    let out = set_permissions(&key, &mut store, &payload(token.clone()), now + 3600);
    assert!(out.is_err());
    let out = set_permissions(&key, &mut store, &payload(token), now + 3601);
    assert!(out.is_err());
    assert_eq!(store.list_all().len(), 0);
}

#[test]
fn set_permissions_builds_delay_strings() {
    let key = SigningKey::generate();
    let ident = ClaimPermissions {
        channel_id: "UC2".to_string(),
        channel_title: "T".to_string(),
        custom_url: "@t".to_string(),
    };
    let now: u64 = 1_000_000;
    let token = issue(&key, &ident, now).unwrap();
    let data = SetPermissionsData {
        can_react_live: Permission::YesWithDelay,
        live_reaction_delay_value: 3,
        live_reaction_delay_unit: "d".to_string(),
        can_upload_reaction: Permission::YesWithDelay,
        upload_reaction_delay_value: 2,
        upload_reaction_delay_unit: "w".to_string(),
        token,
    };
    let mut store = PermissionStore::new();
    set_permissions(&key, &mut store, &data, now).unwrap();
    let rec = store.get_by_channel_id_or_handle("UC2").unwrap();
    assert_eq!(rec.live_reaction_delay.as_deref(), Some("3d"));
    assert_eq!(rec.upload_reaction_delay.as_deref(), Some("2w"));
    assert_eq!(rec.last_updated_at, now);
}

#[test]
fn unknown_key_answers_the_fixed_not_found_body() {
    let store = PermissionStore::new();
    let out = get_permission_by_channel_id(&store, "UC-unknown");
    match out {
        Err(DataError::NotFound(m)) => {
            assert_eq!(m, "{\"message\": \"Permission not found for given channel_ID\"}")
        }
        _ => panic!("an absent record must answer not-found"),
    }
    let err = get_permission_by_channel_id(&store, "UC-unknown").unwrap_err();
    assert_eq!(err.status_code(), 404);
    let reply = err.error_response();
    assert_eq!(reply.status, 404);
    assert!(reply.json);
    assert_eq!(reply.cache_max_age, Some(86400));
    assert_eq!(
        reply.body,
        "{\"message\": \"Permission not found for given channel_ID\"}"
    );
}

#[test]
fn found_record_answers_json_with_cache_headers() {
    let key = SigningKey::generate();
    let ident = ClaimPermissions {
        channel_id: "UC1".to_string(),
        channel_title: "Test".to_string(),
        custom_url: "@test".to_string(),
    };
    let now: u64 = 1_700_000_000;
    let token = issue(&key, &ident, now).unwrap();
    let mut store = PermissionStore::new();
    set_permissions(&key, &mut store, &payload(token), now).unwrap();

    let reply = get_permission_by_channel_id(&store, "UC1").unwrap();
    assert_eq!(reply.status, 200);
    assert!(reply.json);
    assert_eq!(reply.cache_max_age, Some(86400));
    assert_eq!(reply.last_modified, Some(now));
    assert_eq!(
        reply.body,
        "{\"channel_id\":\"UC1\",\"channel_title\":\"Test\",\"custom_url\":\"@test\",\
         \"can_react_live\":\"yes\",\"live_reaction_delay\":\"0\",\
         \"can_upload_reaction\":\"no\",\"upload_reaction_delay\":\"0\",\
         \"last_updated_at\":1700000000}"
    );

    // The handle lookup, in either case, answers the same record.
    let by_handle = get_permission_by_channel_id(&store, "@TEST").unwrap();
    assert_eq!(by_handle.body, reply.body);
}

#[test]
fn full_list_renders_a_json_array() {
    let mut store = PermissionStore::new();
    let empty = get_full_permissions_list(&store);
    assert_eq!(empty.status, 200);
    assert_eq!(empty.body, "[]");

    let a = ClaimPermissions {
        channel_id: "UC1".to_string(),
        channel_title: "A".to_string(),
        custom_url: "@a".to_string(),
    };
    let b = ClaimPermissions {
        channel_id: "UC2".to_string(),
        channel_title: "B".to_string(),
        custom_url: "@b".to_string(),
    };
    store.upsert(&a, Permission::Yes, "0", Permission::No, "0", 10);
    store.upsert(&b, Permission::No, "0", Permission::Yes, "0", 20);

    let reply = get_full_permissions_list(&store);
    assert!(reply.json);
    assert_eq!(
        reply.body,
        "[{\"channel_id\":\"UC1\",\"channel_title\":\"A\",\"custom_url\":\"@a\",\
         \"can_react_live\":\"yes\",\"live_reaction_delay\":\"0\",\
         \"can_upload_reaction\":\"no\",\"upload_reaction_delay\":\"0\",\"last_updated_at\":10},\
         {\"channel_id\":\"UC2\",\"channel_title\":\"B\",\"custom_url\":\"@b\",\
         \"can_react_live\":\"no\",\"live_reaction_delay\":\"0\",\
         \"can_upload_reaction\":\"yes\",\"upload_reaction_delay\":\"0\",\"last_updated_at\":20}]"
    );
}

#[test]
fn record_json_escapes_special_characters() {
    let mut store = PermissionStore::new();
    let ident = ClaimPermissions {
        channel_id: "UC1".to_string(),
        channel_title: "Say \"hi\"\\now".to_string(),
        custom_url: "@quote".to_string(),
    };
    store.upsert(&ident, Permission::Yes, "0", Permission::Yes, "0", 5);
    let reply = get_permission_by_channel_id(&store, "UC1").unwrap();
    assert!(reply
        .body
        .contains("\"channel_title\":\"Say \\\"hi\\\"\\\\now\""));
    let parsed: serde_json::Value = serde_json::from_str(&reply.body).unwrap();
    assert_eq!(parsed["channel_title"], "Say \"hi\"\\now");
    assert_eq!(parsed["last_updated_at"], 5);
}
