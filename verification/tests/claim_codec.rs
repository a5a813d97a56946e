use channel_permissions::claim::{issue, verify, ClaimPermissions, SigningKey};

fn identity(id: &str, title: &str, url: &str) -> ClaimPermissions {
    ClaimPermissions {
        channel_id: id.to_string(),
        channel_title: title.to_string(),
        custom_url: url.to_string(),
    }
}

#[test]
fn issue_then_verify_round_trips() {
    let key = SigningKey::generate();
    let ident = identity("UC1", "Test", "@test");
    let now: u64 = 1_700_000_000;
    let token = issue(&key, &ident, now).expect("signing should succeed");
    let got = verify(&key, token.as_str(), now + 10).expect("verification should succeed");
    assert_eq!(got.channel_id, "UC1");
    assert_eq!(got.channel_title, "Test");
    assert_eq!(got.custom_url, "@test");
}

#[test]
fn verify_strictly_before_expiry_succeeds() {
    let key = SigningKey::generate();
    let ident = identity("UCa", "A", "");
    let now: u64 = 1_000_000;
    let token = issue(&key, &ident, now).unwrap();
    assert!(verify(&key, token.as_str(), now + 3599).is_some());
}

#[test]
fn verify_at_expiry_instant_fails() {
    // The claim is valid only strictly before its expiry instant.
    let key = SigningKey::generate();
    let ident = identity("UCa", "A", "");
    let now: u64 = 1_000_000;
    let token = issue(&key, &ident, now).unwrap();
    assert!(verify(&key, token.as_str(), now + 3600).is_none());
}

#[test]
fn verify_after_expiry_fails() {
    let key = SigningKey::generate();
    let ident = identity("UCa", "A", "");
    let now: u64 = 1_000_000;
    let token = issue(&key, &ident, now).unwrap();
    assert!(verify(&key, token.as_str(), now + 3601).is_none());
}

#[test]
fn issuance_always_succeeds() {
    let key = SigningKey::generate();
    assert!(issue(&key, &identity("", "", ""), 0).is_some());
    assert!(issue(&key, &identity("UC1", "Test", "@test"), 4_294_963_695).is_some());
}

#[test]
fn verify_before_issuance_fails() {
    let key = SigningKey::generate();
    let ident = identity("UCa", "A", "");
    let now: u64 = 1_000_000;
    let token = issue(&key, &ident, now).unwrap();
    assert!(verify(&key, token.as_str(), now - 1).is_none());
}

#[test]
fn verify_with_other_key_fails() {
    let key = SigningKey::generate();
    let other = SigningKey::generate();
    let ident = identity("UCb", "B", "@b");
    let now: u64 = 2_000_000;
    let token = issue(&key, &ident, now).unwrap();
    assert!(verify(&other, token.as_str(), now).is_none());
}

#[test]
fn verify_garbage_fails() {
    let key = SigningKey::generate();
    assert!(verify(&key, "not.a.token", 1_000).is_none());
    assert!(verify(&key, "", 1_000).is_none());
}

#[test]
fn round_trip_keeps_unusual_characters() {
    let key = SigningKey::generate();
    let ident = identity("UC-x_1", "Tïtle \"quoted\" \\slash", "@Ünïcode");
    let now: u64 = 1_700_000_000;
    let token = issue(&key, &ident, now).unwrap();
    let got = verify(&key, token.as_str(), now).unwrap();
    assert_eq!(got.channel_id, "UC-x_1");
    assert_eq!(got.channel_title, "Tïtle \"quoted\" \\slash");
    assert_eq!(got.custom_url, "@Ünïcode");
}
