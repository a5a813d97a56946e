//! The claim codec: packaging a proven channel identity into a signed,
//! time-bounded claim, and verifying such a claim.
//!
//! The token itself is produced and checked by an HMAC-based JWT library;
//! what that library returns for given key bytes, identity fields and
//! validity window is named by the uninterpreted function [`token_of`], and
//! everything this module states about issuance and verification is said
//! over that name.

use vstd::prelude::*;

use jwt_simple::algorithms::HS256Key;
use jwt_simple::algorithms::MACLike;
use jwt_simple::claims::JWTClaims;
use jwt_simple::common::VerificationOptions;
use jwt_simple::prelude::UnixTimeStamp;
use serde_json::Value;

verus! {

/// How long an issued claim stays valid, in seconds.
pub const CLAIM_VALIDITY_SECS: u64 = 3600;

/// Timestamps are plain Unix seconds and must stay below 2^32: the JWT
/// library's coarse clock representation shifts seconds into the upper
/// 32 bits of a 64-bit word.
pub const MAX_UNIX_SECS: u64 = 0x1_0000_0000;

/// The proven identity of a channel owner, as embedded in a signed claim:
/// the provider-assigned channel id, the channel title, and the optional
/// canonical handle (empty when the channel has none).
#[derive(Debug)]
pub struct ClaimPermissions {
    pub channel_id: String,
    pub channel_title: String,
    pub custom_url: String,
}

/// The mathematical value of a [`ClaimPermissions`]: its three fields as
/// character sequences.
pub struct ClaimView {
    pub channel_id: Seq<char>,
    pub channel_title: Seq<char>,
    pub custom_url: Seq<char>,
}

impl View for ClaimPermissions {
    type V = ClaimView;

    open spec fn view(&self) -> ClaimView {
        (ClaimView {
            channel_id: self.channel_id@,
            channel_title: self.channel_title@,
            custom_url: self.custom_url@,
        })
    }
}

impl ClaimPermissions {
    /// Derives the identity from a fetched channel list: always its first
    /// item. Callers guard against an empty list beforehand.
    pub fn new(channels_info: &crate::provider::ChannelsInfo) -> (r: Self)
        requires
            channels_info.items@.len() > 0,
        ensures
            r.channel_id@ == channels_info.items@[0].id@,
            r.channel_title@ == channels_info.items@[0].branding_settings.channel.title@,
            r.custom_url@ == channels_info.items@[0].branding_settings.channel.custom_url@,
    {
        ClaimPermissions {
            channel_id: channels_info.items[0].id.clone(),
            channel_title: channels_info.items[0].branding_settings.channel.title.clone(),
            custom_url: channels_info.items[0].branding_settings.channel.custom_url.clone(),
        }
    }
}

/// The signed token that the JWT library produces for the given key bytes,
/// identity fields and validity window. The token is a function of these
/// values alone, and its payload carries them, so distinct values give
/// distinct tokens.
pub uninterp spec fn token_of(
    key: Seq<u8>,
    channel_id: Seq<char>,
    channel_title: Seq<char>,
    custom_url: Seq<char>,
    issued_at: u64,
    expires_at: u64,
) -> Seq<char>;

/// The process-wide symmetric signing key, generated once at process start
/// and injected into both issue and verify.
pub struct SigningKey {
    key: Vec<u8>,
}

impl View for SigningKey {
    type V = Seq<u8>;

    closed spec fn view(&self) -> Seq<u8> {
        self.key@
    }
}

impl SigningKey {
    /// The JWT library refuses keys shorter than 12 bytes as too weak.
    pub open spec fn wf(&self) -> bool {
        self@.len() >= 12
    }

    /// Generates a fresh random key. Claims signed by an earlier key are
    /// invalid under the new one, so a restart invalidates all claims.
    pub fn generate() -> (k: SigningKey)
        ensures
            k.wf(),
    {
        SigningKey { key: generate_key_bytes() }
    }
}

/// Relies on jwt_simple's `HS256Key::generate`: a fresh random 32-byte key.
#[verifier::external_body]
fn generate_key_bytes() -> (r: Vec<u8>)
    ensures
        r@.len() == 32,
{
    HS256Key::generate().to_bytes()
}

/// Relies on jwt_simple's `HS256Key::authenticate` over a claim set holding
/// the three identity fields as custom claims and the window as `iat` and
/// `exp`: the produced token is a function of the key bytes and those
/// values alone, which [`token_of`] names. Signing succeeds: the library
/// refuses only keys shorter than 12 bytes, which the `requires` excludes,
/// and serialization of these string and integer claims cannot fail.
#[verifier::external_body]
fn hs256_sign(key: &Vec<u8>, claims: &ClaimPermissions, issued_at: u64, expires_at: u64) -> (r:
    Option<String>)
    requires
        key@.len() >= 12,
        issued_at < MAX_UNIX_SECS,
        expires_at < MAX_UNIX_SECS,
    ensures
        r is Some,
        r matches Some(t) ==> t@ == token_of(
            key@,
            claims.channel_id@,
            claims.channel_title@,
            claims.custom_url@,
            issued_at,
            expires_at,
        ),
{
    let mut m = serde_json::Map::new();
    m.insert("channel_id".into(), Value::String(claims.channel_id.clone()));
    m.insert("channel_title".into(), Value::String(claims.channel_title.clone()));
    m.insert("custom_url".into(), Value::String(claims.custom_url.clone()));
    let jc = JWTClaims {
        issued_at: Some(UnixTimeStamp::from_secs(issued_at)),
        expires_at: Some(UnixTimeStamp::from_secs(expires_at)),
        invalid_before: None, issuer: None, subject: None,
        audiences: None, jwt_id: None, nonce: None,
        custom: Value::Object(m),
    };
    HS256Key::from_bytes(key.as_slice()).authenticate(jc).ok()
}

/// What claim verification returns, stated over [`token_of`]. A claim is
/// valid only while the current instant lies strictly before its expiry:
/// a token the key signed for a window with `iat <= now < exp` yields
/// exactly the identity it was signed for; one whose window has passed —
/// the expiry instant included — or not begun is rejected; and nothing but
/// a token the key signed is ever accepted.
pub open spec fn verify_post(key: Seq<u8>, token: Seq<char>, now: u64, r: Option<
    ClaimPermissions,
>) -> bool {
    &&& forall|ci: Seq<char>, ct: Seq<char>, cu: Seq<char>, ia: u64, ea: u64|
        token == token_of(key, ci, ct, cu, ia, ea) && ia <= now < ea ==> (r matches Some(c)
            && c.channel_id@ == ci && c.channel_title@ == ct && c.custom_url@ == cu)
    &&& forall|ci: Seq<char>, ct: Seq<char>, cu: Seq<char>, ia: u64, ea: u64|
        token == token_of(key, ci, ct, cu, ia, ea) && !(ia <= now < ea) ==> r is None
    &&& (r matches Some(c) ==> exists|ia: u64, ea: u64|
        token == token_of(key, c.channel_id@, c.channel_title@, c.custom_url@, ia, ea) && ia <= now
            < ea)
}

/// What the signing library's own token check returns, stated over
/// [`token_of`]. Its window bound is inclusive — `iat <= now <= exp` — and
/// an accepted token hands back the embedded claim fields together with
/// that window, which the token's payload determines.
pub open spec fn inclusive_verify_post(key: Seq<u8>, token: Seq<char>, now: u64, r: Option<
    (ClaimPermissions, u64, u64),
>) -> bool {
    &&& forall|ci: Seq<char>, ct: Seq<char>, cu: Seq<char>, ia: u64, ea: u64|
        token == token_of(key, ci, ct, cu, ia, ea) && ia <= now <= ea ==> (r matches Some(t)
            && t.0.channel_id@ == ci && t.0.channel_title@ == ct && t.0.custom_url@ == cu && t.1
            == ia && t.2 == ea)
    &&& forall|ci: Seq<char>, ct: Seq<char>, cu: Seq<char>, ia: u64, ea: u64|
        token == token_of(key, ci, ct, cu, ia, ea) && !(ia <= now <= ea) ==> r is None
    &&& (r matches Some(t) ==> token == token_of(
        key,
        t.0.channel_id@,
        t.0.channel_title@,
        t.0.custom_url@,
        t.1,
        t.2,
    ) && t.1 <= now <= t.2)
}

/// Relies on jwt_simple's `HS256Key::verify_token` with zero clock-skew
/// tolerance and the verification instant fixed to `now`: it accepts a
/// token exactly when its HMAC tag matches this key and `iat <= now <= exp`
/// holds of its window — the library's bound is inclusive — and then
/// returns the embedded claim fields together with that window.
#[verifier::external_body]
fn hs256_verify(key: &Vec<u8>, token: &str, now: u64) -> (r: Option<(ClaimPermissions, u64, u64)>)
    requires
        key@.len() >= 12,
        now < MAX_UNIX_SECS,
    ensures
        inclusive_verify_post(key@, token@, now, r),
{
    let k = HS256Key::from_bytes(key.as_slice());
    let mut opts = VerificationOptions::default();
    opts.time_tolerance = Some(UnixTimeStamp::from_secs(0));
    opts.artificial_time = Some(UnixTimeStamp::from_secs(now));
    opts.max_token_length = None;
    let c = k.verify_token::<Value>(token, Some(opts)).ok()?;
    let issued_at = c.issued_at?.as_secs();
    let expires_at = c.expires_at?.as_secs();
    let channel_id = c.custom.get("channel_id")?.as_str()?.to_string();
    let channel_title = c.custom.get("channel_title")?.as_str()?.to_string();
    let custom_url = c.custom.get("custom_url")?.as_str()?.to_string();
    Some((ClaimPermissions { channel_id, channel_title, custom_url }, issued_at, expires_at))
}

/// Signs a claim embedding `identity`, valid from `now` for
/// [`CLAIM_VALIDITY_SECS`]. Issuance never fails under normal operation,
/// and the signature carries the `Option` only to keep the signing
/// backend's error path explicit.
pub fn issue(key: &SigningKey, identity: &ClaimPermissions, now: u64) -> (r: Option<String>)
    requires
        key.wf(),
        now + CLAIM_VALIDITY_SECS < MAX_UNIX_SECS,
    ensures
        r is Some,
        r matches Some(t) ==> t@ == token_of(
            key@,
            identity@.channel_id,
            identity@.channel_title,
            identity@.custom_url,
            now,
            (now + CLAIM_VALIDITY_SECS) as u64,
        ),
{
    hs256_sign(&key.key, identity, now, now + CLAIM_VALIDITY_SECS)
}

/// Checks signature and expiry of a claim at instant `now`; returns the
/// embedded identity when the claim is valid and `None` otherwise. A claim
/// is valid only while `now` lies strictly before its expiry instant, so a
/// claim checked at or after that instant is rejected here even though the
/// signing library's own window check is inclusive.
pub fn verify(key: &SigningKey, token: &str, now: u64) -> (r: Option<ClaimPermissions>)
    requires
        key.wf(),
        now < MAX_UNIX_SECS,
    ensures
        verify_post(key@, token@, now, r),
{
    let checked = hs256_verify(&key.key, token, now);
    let ghost g = checked;
    let r: Option<ClaimPermissions> = match checked {
        Some((identity, _issued_at, expires_at)) => {
            if now < expires_at {
                Some(identity)
            } else {
                None
            }
        },
        None => None,
    };
    proof {
        assert forall|ci: Seq<char>, ct: Seq<char>, cu: Seq<char>, ia: u64, ea: u64|
            token@ == token_of(key@, ci, ct, cu, ia, ea) && ia <= now < ea implies (
        r matches Some(c) && c.channel_id@ == ci && c.channel_title@ == ct && c.custom_url@
            == cu) by {
            assert(g matches Some(t) && t.1 == ia && t.2 == ea);
        }
        assert forall|ci: Seq<char>, ct: Seq<char>, cu: Seq<char>, ia: u64, ea: u64|
            token@ == token_of(key@, ci, ct, cu, ia, ea) && !(ia <= now < ea) implies r
            is None by {
            if ia <= now <= ea {
                assert(g matches Some(t) && t.2 == ea && now == ea);
            } else {
                assert(g is None);
            }
        }
        if r is Some {
            let t = g->Some_0;
            assert(token@ == token_of(
                key@,
                t.0.channel_id@,
                t.0.channel_title@,
                t.0.custom_url@,
                t.1,
                t.2,
            ) && t.1 <= now < t.2);
        }
    }
    r
}

/// Law: issuing a claim for an identity and verifying it at any instant
/// inside its validity window returns that identity unchanged.
pub proof fn lemma_claim_round_trip(
    key: Seq<u8>,
    ci: Seq<char>,
    ct: Seq<char>,
    cu: Seq<char>,
    issued_at: u64,
    expires_at: u64,
    now: u64,
    token: Seq<char>,
    r: Option<ClaimPermissions>,
)
    requires
        token == token_of(key, ci, ct, cu, issued_at, expires_at),
        issued_at <= now < expires_at,
        verify_post(key, token, now, r),
    ensures
        r matches Some(c) && c.channel_id@ == ci && c.channel_title@ == ct && c.custom_url@ == cu,
{
}

/// Law: a claim verified at or after its expiry instant, or before its
/// issuance instant, fails verification.
pub proof fn lemma_claim_outside_window_rejected(
    key: Seq<u8>,
    ci: Seq<char>,
    ct: Seq<char>,
    cu: Seq<char>,
    issued_at: u64,
    expires_at: u64,
    now: u64,
    token: Seq<char>,
    r: Option<ClaimPermissions>,
)
    requires
        token == token_of(key, ci, ct, cu, issued_at, expires_at),
        now >= expires_at || now < issued_at,
        verify_post(key, token, now, r),
    ensures
        r is None,
{
}

} // verus!
