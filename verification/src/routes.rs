//! The permission endpoints: applying a verified claim to the store, the
//! full listing, and the point lookup, together with their exact response
//! bodies and the error mapping.

use vstd::prelude::*;
use vstd::string::StringExecFns;

use crate::claim::MAX_UNIX_SECS;
use crate::claim::SigningKey;
use crate::claim::token_of;
use crate::claim::verify;
use crate::claim::verify_post;
use crate::claim::ClaimView;
use crate::http::HttpReply;
use crate::http::READ_CACHE_MAX_AGE_SECS;
use crate::store::spec_permission_str;
use crate::store::spec_record_of;
use crate::store::spec_upsert;
use crate::store::spec_lookup;
use crate::store::Permission;
use crate::store::PermissionStore;
use crate::store::RecordView;
use crate::store::YoutuberPermissions;
use crate::text::spec_dec_digits;
use crate::text::spec_json_escape;
use crate::text::string_push;
use crate::text::json_escape;
use crate::text::u64_to_dec;

verus! {

/// The payload of a set-permissions request: the two permission levels,
/// the delay magnitudes and unit tokens they are built from, and the
/// signed claim authorizing the write.
#[derive(Debug)]
pub struct SetPermissionsData {
    pub can_react_live: Permission,
    pub live_reaction_delay_value: u16,
    pub live_reaction_delay_unit: String,
    pub can_upload_reaction: Permission,
    pub upload_reaction_delay_value: u16,
    pub upload_reaction_delay_unit: String,
    pub token: String,
}

/// Failures of the permission endpoints: no record for the requested key
/// (`NotFound`), or a claim-verification or storage failure
/// (`Unexpected`).
#[derive(Debug)]
pub enum DataError {
    Unexpected(String),
    NotFound(String),
}

impl DataError {
    /// The status code as a value, for speaking about it in contracts.
    pub open spec fn status_code_spec(&self) -> u16 {
        match self {
            DataError::NotFound(_) => 404,
            DataError::Unexpected(_) => 500,
        }
    }

    /// The status code each failure kind maps to: 404 for an absent
    /// record, 500 otherwise.
    pub fn status_code(&self) -> (code: u16)
        ensures
            code == self.status_code_spec(),
    {
        match self {
            DataError::NotFound(_) => 404,
            DataError::Unexpected(_) => 500,
        }
    }

    /// The error response: an absent record answers 404 with a JSON body
    /// and a day-long cache header, everything else answers 500 in plain
    /// text.
    pub fn error_response(&self) -> (r: HttpReply)
        ensures
            r.status == self.status_code_spec(),
            self matches DataError::NotFound(m) ==> r.json && r.cache_max_age == Some(
                READ_CACHE_MAX_AGE_SECS,
            ) && r.body@ == m@,
            self matches DataError::Unexpected(m) ==> !r.json && r.cache_max_age is None
                && r.body@ == m@,
            r.last_modified is None,
    {
        match self {
            DataError::NotFound(m) => HttpReply {
                status: 404,
                json: true,
                cache_max_age: Some(READ_CACHE_MAX_AGE_SECS),
                last_modified: None,
                body: m.clone(),
            },
            DataError::Unexpected(m) => HttpReply {
                status: 500,
                json: false,
                cache_max_age: None,
                last_modified: None,
                body: m.clone(),
            },
        }
    }
}

/// A delay as persisted: the decimal magnitude directly followed by the
/// caller's unit token. The unit's domain is deliberately not constrained
/// here, and the delay is not cleared for levels without one.
pub open spec fn spec_delay(value: u16, unit: Seq<char>) -> Seq<char> {
    spec_dec_digits(value as nat) + unit
}

/// Builds the delay string from its magnitude and unit token.
pub fn delay_string(value: u16, unit: &str) -> (r: String)
    ensures
        r@ == spec_delay(value, unit@),
{
    let mut s = u64_to_dec(value as u64);
    s.append(unit);
    s
}

/// The record a set-permissions payload writes for a verified identity.
pub open spec fn spec_applied_record(
    identity: ClaimView,
    data: &SetPermissionsData,
    now: u64,
) -> RecordView {
    spec_record_of(
        identity,
        data.can_react_live,
        spec_delay(data.live_reaction_delay_value, data.live_reaction_delay_unit@),
        data.can_upload_reaction,
        spec_delay(data.upload_reaction_delay_value, data.upload_reaction_delay_unit@),
        now,
    )
}

/// The set-permissions flow: verify the claim, build the delay strings,
/// upsert. Verification is the sole gate before the mutation; when it
/// fails nothing is written, and a claim the key signed whose window has
/// begun and not yet reached its expiry instant is always accepted and
/// applied.
pub fn set_permissions(
    key: &SigningKey,
    store: &mut PermissionStore,
    data: &SetPermissionsData,
    now: u64,
) -> (out: Result<HttpReply, DataError>)
    requires
        key.wf(),
        old(store).wf(),
        now < MAX_UNIX_SECS,
    ensures
        final(store).wf(),
        out is Err ==> final(store)@ == old(store)@,
        out matches Err(e) ==> (e matches DataError::Unexpected(m) && m@
            == "failed to verify token"@),
        out matches Ok(rep) ==> rep.status == 200 && !rep.json && rep.cache_max_age is None
            && rep.last_modified is None && rep.body@ == "ok"@,
        out is Ok ==> exists|c: crate::claim::ClaimPermissions|
            verify_post(key@, data.token@, now, Some(c)) && final(store)@ == spec_upsert(
                old(store)@,
                spec_applied_record(c@, data, now),
            ),
        forall|ci: Seq<char>, ct: Seq<char>, cu: Seq<char>, ia: u64, ea: u64|
            data.token@ == token_of(key@, ci, ct, cu, ia, ea) && ia <= now < ea ==> out is Ok
                && final(store)@ == spec_upsert(
                old(store)@,
                spec_applied_record(
                    (ClaimView { channel_id: ci, channel_title: ct, custom_url: cu }),
                    data,
                    now,
                ),
            ),
{
    match verify(key, data.token.as_str(), now) {
        None => Err(DataError::Unexpected(String::from_str("failed to verify token"))),
        Some(identity) => {
            let live_delay = delay_string(
                data.live_reaction_delay_value,
                data.live_reaction_delay_unit.as_str(),
            );
            let upload_delay = delay_string(
                data.upload_reaction_delay_value,
                data.upload_reaction_delay_unit.as_str(),
            );
            store.upsert(
                &identity,
                data.can_react_live,
                live_delay.as_str(),
                data.can_upload_reaction,
                upload_delay.as_str(),
                now,
            );
            let body = String::from_str("ok");
            Ok(
                HttpReply {
                    status: 200,
                    json: false,
                    cache_max_age: None,
                    last_modified: None,
                    body,
                },
            )
        },
    }
}

/// A string as a JSON string literal: quoted and escaped.
pub open spec fn spec_quoted(s: Seq<char>) -> Seq<char> {
    seq!['"'] + spec_json_escape(s) + seq!['"']
}

/// An optional string as JSON: `null` when absent.
pub open spec fn spec_opt_quoted(o: Option<Seq<char>>) -> Seq<char> {
    match o {
        None => "null"@,
        Some(s) => spec_quoted(s),
    }
}

/// One stored record as a JSON object, fields in declaration order; the
/// permission levels appear in their persisted textual form and the
/// timestamp as plain Unix seconds.
#[verifier::opaque]
pub open spec fn spec_record_json(r: RecordView) -> Seq<char> {
    "{\"channel_id\":"@ + spec_quoted(r.channel_id) + ",\"channel_title\":"@ + spec_quoted(
        r.channel_title,
    ) + ",\"custom_url\":"@ + spec_quoted(r.custom_url) + ",\"can_react_live\":"@ + spec_quoted(
        spec_permission_str(r.can_react_live),
    ) + ",\"live_reaction_delay\":"@ + spec_opt_quoted(r.live_reaction_delay)
        + ",\"can_upload_reaction\":"@ + spec_quoted(spec_permission_str(r.can_upload_reaction))
        + ",\"upload_reaction_delay\":"@ + spec_opt_quoted(r.upload_reaction_delay)
        + ",\"last_updated_at\":"@ + spec_dec_digits(r.last_updated_at as nat) + seq!['}']
}

fn push_quoted(out: &mut String, s: &str)
    ensures
        final(out)@ == old(out)@ + spec_quoted(s@),
{
    string_push(out, '"');
    let escaped = json_escape(s);
    out.append(escaped.as_str());
    string_push(out, '"');
    assert(final(out)@ =~= old(out)@ + spec_quoted(s@));
}

fn push_opt_quoted(out: &mut String, o: &Option<String>)
    ensures
        final(out)@ == old(out)@ + spec_opt_quoted(o.deep_view()),
{
    match o {
        None => {
            out.append("null");
        },
        Some(s) => {
            push_quoted(out, s.as_str());
        },
    }
}

/// Renders one stored record as JSON.
pub fn record_json(rec: &YoutuberPermissions) -> (r: String)
    ensures
        r@ == spec_record_json(rec@),
{
    let mut out = String::from_str("{\"channel_id\":");
    push_quoted(&mut out, rec.channel_id.as_str());
    out.append(",\"channel_title\":");
    push_quoted(&mut out, rec.channel_title.as_str());
    out.append(",\"custom_url\":");
    push_quoted(&mut out, rec.custom_url.as_str());
    out.append(",\"can_react_live\":");
    push_quoted(&mut out, rec.can_react_live.to_str());
    out.append(",\"live_reaction_delay\":");
    push_opt_quoted(&mut out, &rec.live_reaction_delay);
    out.append(",\"can_upload_reaction\":");
    push_quoted(&mut out, rec.can_upload_reaction.to_str());
    out.append(",\"upload_reaction_delay\":");
    push_opt_quoted(&mut out, &rec.upload_reaction_delay);
    out.append(",\"last_updated_at\":");
    let ts = u64_to_dec(rec.last_updated_at);
    out.append(ts.as_str());
    string_push(&mut out, '}');
    proof {
        reveal(spec_record_json);
        assert(out@ =~= spec_record_json(rec@));
    }
    out
}

/// The items of the listing between the brackets: records in store order,
/// comma-separated.
pub open spec fn spec_items_tail(s: Seq<RecordView>, first: bool) -> Seq<char>
    decreases s.len(),
{
    if s.len() == 0 {
        Seq::empty()
    } else {
        (if first {
            Seq::<char>::empty()
        } else {
            seq![',']
        }) + spec_record_json(s[0]) + spec_items_tail(s.drop_first(), false)
    }
}

/// The whole listing as a JSON array.
pub open spec fn spec_records_json(s: Seq<RecordView>) -> Seq<char> {
    seq!['['] + spec_items_tail(s, true) + seq![']']
}

/// Renders a list of records as a JSON array.
pub fn records_json(list: &Vec<YoutuberPermissions>) -> (r: String)
    ensures
        r@ == spec_records_json(list.deep_view()),
{
    let ghost l = list.deep_view();
    let mut out = String::new();
    string_push(&mut out, '[');
    let n = list.len();
    assert(l.skip(0) =~= l);
    for i in 0..n
        invariant
            n == list@.len(),
            l == list.deep_view(),
            l.len() == n,
            out@ + spec_items_tail(l.skip(i as int), i == 0) == seq!['['] + spec_items_tail(
                l,
                true,
            ),
    {
        if i > 0 {
            string_push(&mut out, ',');
        }
        assert(list@[i as int]@ == l[i as int]);
        let one = record_json(&list[i]);
        out.append(one.as_str());
        proof {
            assert(l.skip(i as int)[0] == l[i as int]);
            assert(l.skip(i as int).drop_first() =~= l.skip(i + 1));
            assert(out@ + spec_items_tail(l.skip(i + 1), false) =~= seq!['['] + spec_items_tail(
                l,
                true,
            ));
        }
    }
    assert(l.skip(n as int) =~= Seq::<RecordView>::empty());
    string_push(&mut out, ']');
    assert(out@ =~= spec_records_json(l));
    out
}

/// The listing endpoint: every record as a JSON array, uncached.
pub fn get_full_permissions_list(store: &PermissionStore) -> (r: HttpReply)
    ensures
        r.status == 200,
        r.json,
        r.cache_max_age is None,
        r.last_modified is None,
        r.body@ == spec_records_json(store@),
{
    let list = store.list_all();
    let body = records_json(&list);
    HttpReply { status: 200, json: true, cache_max_age: None, last_modified: None, body }
}

/// The point-lookup endpoint: the record as JSON with a day-long cache
/// header and its update instant as `Last-Modified`, or the fixed 404
/// not-found body under the same cache header.
pub fn get_permission_by_channel_id(store: &PermissionStore, key: &str) -> (out: Result<
    HttpReply,
    DataError,
>)
    ensures
        spec_lookup(store@, key@) matches Some(rv) ==> (out matches Ok(rep) && rep.status == 200
            && rep.json && rep.cache_max_age == Some(READ_CACHE_MAX_AGE_SECS)
            && rep.last_modified == Some(rv.last_updated_at) && rep.body@ == spec_record_json(rv)),
        spec_lookup(store@, key@) is None ==> (out matches Err(DataError::NotFound(m)) && m@
            == "{\"message\": \"Permission not found for given channel_ID\"}"@),
{
    match store.get_by_channel_id_or_handle(key) {
        Some(rec) => {
            let body = record_json(&rec);
            Ok(
                HttpReply {
                    status: 200,
                    json: true,
                    cache_max_age: Some(READ_CACHE_MAX_AGE_SECS),
                    last_modified: Some(rec.last_updated_at),
                    body,
                },
            )
        },
        None => Err(
            DataError::NotFound(
                String::from_str("{\"message\": \"Permission not found for given channel_ID\"}"),
            ),
        ),
    }
}

} // verus!
