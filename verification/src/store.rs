//! The permission-record store: one record per channel id, an idempotent
//! upsert keyed by the verified identity, a full listing, and a point
//! lookup by channel id or by case-insensitive handle.

use vstd::prelude::*;
use vstd::pervasive::VecAdditionalExecFns;

use crate::claim::ClaimPermissions;

verus! {

/// Whether an automated action may proceed: immediately, after a delay, or
/// not at all.
#[derive(Clone, Copy, PartialEq, Eq, Structural, Debug)]
pub enum Permission {
    Yes,
    YesWithDelay,
    No,
}

/// The persisted textual form of a permission level. The mapping is
/// explicit and bidirectional; nothing relies on case-folding conventions.
pub open spec fn spec_permission_str(p: Permission) -> Seq<char> {
    match p {
        Permission::Yes => "yes"@,
        Permission::YesWithDelay => "yes_with_delay"@,
        Permission::No => "no"@,
    }
}

impl Permission {
    /// The textual form this level is persisted and serialized as.
    pub fn to_str(self) -> (r: &'static str)
        ensures
            r@ == spec_permission_str(self),
    {
        match self {
            Permission::Yes => "yes",
            Permission::YesWithDelay => "yes_with_delay",
            Permission::No => "no",
        }
    }

    /// The level a textual form denotes, if any: the exact inverse of
    /// [`Permission::to_str`].
    pub fn from_str_form(s: &str) -> (r: Option<Permission>)
        ensures
            r == Some(Permission::Yes) <==> s@ == spec_permission_str(Permission::Yes),
            r == Some(Permission::YesWithDelay) <==> s@ == spec_permission_str(
                Permission::YesWithDelay,
            ),
            r == Some(Permission::No) <==> s@ == spec_permission_str(Permission::No),
    {
        proof {
            reveal_strlit("yes");
            reveal_strlit("yes_with_delay");
            reveal_strlit("no");
            assert("yes"@.len() == 3);
            assert("yes_with_delay"@.len() == 14);
            assert("no"@.len() == 2);
        }
        let t = s.to_owned();
        if t == String::from_str("yes") {
            Some(Permission::Yes)
        } else if t == String::from_str("yes_with_delay") {
            Some(Permission::YesWithDelay)
        } else if t == String::from_str("no") {
            Some(Permission::No)
        } else {
            None
        }
    }
}

/// The permission settings stored for one channel.
#[derive(Debug)]
pub struct YoutuberPermissions {
    pub channel_id: String,
    pub channel_title: String,
    pub custom_url: String,
    pub can_react_live: Permission,
    pub live_reaction_delay: Option<String>,
    pub can_upload_reaction: Permission,
    pub upload_reaction_delay: Option<String>,
    /// Unix seconds of the last successful upsert.
    pub last_updated_at: u64,
}

/// The mathematical value of a stored record.
pub struct RecordView {
    pub channel_id: Seq<char>,
    pub channel_title: Seq<char>,
    pub custom_url: Seq<char>,
    pub can_react_live: Permission,
    pub live_reaction_delay: Option<Seq<char>>,
    pub can_upload_reaction: Permission,
    pub upload_reaction_delay: Option<Seq<char>>,
    pub last_updated_at: u64,
}

impl View for YoutuberPermissions {
    type V = RecordView;

    open spec fn view(&self) -> RecordView {
        (RecordView {
            channel_id: self.channel_id@,
            channel_title: self.channel_title@,
            custom_url: self.custom_url@,
            can_react_live: self.can_react_live,
            live_reaction_delay: self.live_reaction_delay.deep_view(),
            can_upload_reaction: self.can_upload_reaction,
            upload_reaction_delay: self.upload_reaction_delay.deep_view(),
            last_updated_at: self.last_updated_at,
        })
    }
}

impl DeepView for YoutuberPermissions {
    type V = RecordView;

    open spec fn deep_view(&self) -> RecordView {
        self.view()
    }
}

impl YoutuberPermissions {
    /// Copies the record field by field.
    pub fn duplicate(&self) -> (r: YoutuberPermissions)
        ensures
            r@ == self@,
    {
        YoutuberPermissions {
            channel_id: self.channel_id.clone(),
            channel_title: self.channel_title.clone(),
            custom_url: self.custom_url.clone(),
            can_react_live: self.can_react_live,
            live_reaction_delay: match &self.live_reaction_delay {
                Some(s) => Some(s.clone()),
                None => None,
            },
            can_upload_reaction: self.can_upload_reaction,
            upload_reaction_delay: match &self.upload_reaction_delay {
                Some(s) => Some(s.clone()),
                None => None,
            },
            last_updated_at: self.last_updated_at,
        }
    }
}

/// The lower-case form of a string, used for case-insensitive handle
/// matching. The result depends on the characters alone.
pub uninterp spec fn lower_of(s: Seq<char>) -> Seq<char>;

/// Relies on str::to_lowercase: the lower-case form is a function of the
/// characters alone.
#[verifier::external_body]
pub(crate) fn to_lower(s: &str) -> (r: String)
    ensures
        r@ == lower_of(s@),
{
    s.to_lowercase()
}

/// The record an upsert writes: the verified identity, the caller-supplied
/// permission fields, and the store's timestamp.
pub open spec fn spec_record_of(
    identity: crate::claim::ClaimView,
    can_react_live: Permission,
    live_reaction_delay: Seq<char>,
    can_upload_reaction: Permission,
    upload_reaction_delay: Seq<char>,
    now: u64,
) -> RecordView {
    (RecordView {
        channel_id: identity.channel_id,
        channel_title: identity.channel_title,
        custom_url: identity.custom_url,
        can_react_live: can_react_live,
        live_reaction_delay: Some(live_reaction_delay),
        can_upload_reaction: can_upload_reaction,
        upload_reaction_delay: Some(upload_reaction_delay),
        last_updated_at: now,
    })
}

/// Upsert at the level of record sequences: the first record with the same
/// channel id is overwritten in place, and a new record goes at the end.
pub open spec fn spec_upsert(s: Seq<RecordView>, rec: RecordView) -> Seq<RecordView>
    decreases s.len(),
{
    if s.len() == 0 {
        seq![rec]
    } else if s[0].channel_id == rec.channel_id {
        seq![rec] + s.drop_first()
    } else {
        seq![s[0]] + spec_upsert(s.drop_first(), rec)
    }
}

/// Point lookup by exact channel id: the first record with that id.
pub open spec fn spec_find_by_id(s: Seq<RecordView>, key: Seq<char>) -> Option<RecordView>
    decreases s.len(),
{
    if s.len() == 0 {
        None
    } else if s[0].channel_id == key {
        Some(s[0])
    } else {
        spec_find_by_id(s.drop_first(), key)
    }
}

/// Point lookup by handle: the first record whose lower-cased handle is
/// the given lower-cased key.
pub open spec fn spec_find_by_handle(s: Seq<RecordView>, lowered_key: Seq<char>) -> Option<
    RecordView,
>
    decreases s.len(),
{
    if s.len() == 0 {
        None
    } else if lower_of(s[0].custom_url) == lowered_key {
        Some(s[0])
    } else {
        spec_find_by_handle(s.drop_first(), lowered_key)
    }
}

/// What a lookup by channel id or handle returns: keys beginning with the
/// handle sigil `@` match a handle case-insensitively, all others match a
/// channel id exactly.
pub open spec fn spec_lookup(s: Seq<RecordView>, key: Seq<char>) -> Option<RecordView> {
    if key.len() > 0 && key[0] == '@' {
        spec_find_by_handle(s, lower_of(key))
    } else {
        spec_find_by_id(s, key)
    }
}

proof fn lemma_upsert_no_match(s: Seq<RecordView>, rec: RecordView)
    requires
        forall|k: int| 0 <= k < s.len() ==> s[k].channel_id != rec.channel_id,
    ensures
        spec_upsert(s, rec) =~= s.push(rec),
    decreases s.len(),
{
    if s.len() > 0 {
        lemma_upsert_no_match(s.drop_first(), rec);
    }
}

proof fn lemma_upsert_match_at(s: Seq<RecordView>, rec: RecordView, i: int)
    requires
        0 <= i < s.len(),
        s[i].channel_id == rec.channel_id,
        forall|k: int| 0 <= k < i ==> s[k].channel_id != rec.channel_id,
    ensures
        spec_upsert(s, rec) =~= s.update(i, rec),
    decreases s.len(),
{
    if i > 0 {
        lemma_upsert_match_at(s.drop_first(), rec, i - 1);
        assert(s.update(i, rec).drop_first() =~= s.drop_first().update(i - 1, rec));
    }
}

proof fn lemma_find_by_id_none(s: Seq<RecordView>, key: Seq<char>)
    requires
        forall|k: int| 0 <= k < s.len() ==> s[k].channel_id != key,
    ensures
        spec_find_by_id(s, key) is None,
    decreases s.len(),
{
    if s.len() > 0 {
        lemma_find_by_id_none(s.drop_first(), key);
    }
}

proof fn lemma_find_by_id_at(s: Seq<RecordView>, key: Seq<char>, i: int)
    requires
        0 <= i < s.len(),
        s[i].channel_id == key,
        forall|k: int| 0 <= k < i ==> s[k].channel_id != key,
    ensures
        spec_find_by_id(s, key) == Some(s[i]),
    decreases s.len(),
{
    if i > 0 {
        lemma_find_by_id_at(s.drop_first(), key, i - 1);
    }
}

proof fn lemma_find_by_handle_none(s: Seq<RecordView>, lowered_key: Seq<char>)
    requires
        forall|k: int| 0 <= k < s.len() ==> lower_of(s[k].custom_url) != lowered_key,
    ensures
        spec_find_by_handle(s, lowered_key) is None,
    decreases s.len(),
{
    if s.len() > 0 {
        lemma_find_by_handle_none(s.drop_first(), lowered_key);
    }
}

proof fn lemma_find_by_handle_at(s: Seq<RecordView>, lowered_key: Seq<char>, i: int)
    requires
        0 <= i < s.len(),
        lower_of(s[i].custom_url) == lowered_key,
        forall|k: int| 0 <= k < i ==> lower_of(s[k].custom_url) != lowered_key,
    ensures
        spec_find_by_handle(s, lowered_key) == Some(s[i]),
    decreases s.len(),
{
    if i > 0 {
        lemma_find_by_handle_at(s.drop_first(), lowered_key, i - 1);
    }
}

/// The durable store: a sequence of records with pairwise distinct channel
/// ids.
pub struct PermissionStore {
    records: Vec<YoutuberPermissions>,
}

impl View for PermissionStore {
    type V = Seq<RecordView>;

    closed spec fn view(&self) -> Seq<RecordView> {
        self.records.deep_view()
    }
}

impl PermissionStore {
    /// Exactly one record per channel id.
    pub open spec fn wf(&self) -> bool {
        forall|i: int, j: int|
            0 <= i < j < self@.len() ==> self@[i].channel_id != self@[j].channel_id
    }

    /// An empty store.
    pub fn new() -> (s: PermissionStore)
        ensures
            s.wf(),
            s@ =~= Seq::<RecordView>::empty(),
    {
        PermissionStore { records: Vec::new() }
    }

    /// Inserts the record for `identity`'s channel id, or overwrites the
    /// mutable fields of the existing one; `last_updated_at` is stamped
    /// with `now`. Last write wins; repeating a call changes nothing but
    /// the stamp.
    pub fn upsert(
        &mut self,
        identity: &ClaimPermissions,
        can_react_live: Permission,
        live_reaction_delay: &str,
        can_upload_reaction: Permission,
        upload_reaction_delay: &str,
        now: u64,
    )
        requires
            old(self).wf(),
        ensures
            final(self).wf(),
            final(self)@ == spec_upsert(
                old(self)@,
                spec_record_of(
                    identity@,
                    can_react_live,
                    live_reaction_delay@,
                    can_upload_reaction,
                    upload_reaction_delay@,
                    now,
                ),
            ),
    {
        let ghost rv = spec_record_of(
            identity@,
            can_react_live,
            live_reaction_delay@,
            can_upload_reaction,
            upload_reaction_delay@,
            now,
        );
        let rec = YoutuberPermissions {
            channel_id: identity.channel_id.clone(),
            channel_title: identity.channel_title.clone(),
            custom_url: identity.custom_url.clone(),
            can_react_live,
            live_reaction_delay: Some(live_reaction_delay.to_owned()),
            can_upload_reaction,
            upload_reaction_delay: Some(upload_reaction_delay.to_owned()),
            last_updated_at: now,
        };
        assert(rec@ == rv);
        let n = self.records.len();
        for i in 0..n
            invariant
                n == self.records.len(),
                self@ == old(self)@,
                rec@ == rv,
                rv == spec_record_of(
                    identity@,
                    can_react_live,
                    live_reaction_delay@,
                    can_upload_reaction,
                    upload_reaction_delay@,
                    now,
                ),
                old(self).wf(),
                forall|k: int| 0 <= k < i ==> self@[k].channel_id != rv.channel_id,
        {
            assert(self.records[i as int]@ == self@[i as int]);
            if self.records[i].channel_id == rec.channel_id {
                proof {
                    lemma_upsert_match_at(old(self)@, rv, i as int);
                }
                self.records.set(i, rec);
                proof {
                    assert(self@ =~= old(self)@.update(i as int, rv));
                    assert forall|a: int, b: int|
                        0 <= a < b < self@.len() implies self@[a].channel_id
                        != self@[b].channel_id by {
                        assert(old(self)@[a].channel_id != old(self)@[b].channel_id);
                    }
                }
                return ;
            }
        }
        self.records.push(rec);
        proof {
            assert(self@ =~= old(self)@.push(rv));
            lemma_upsert_no_match(old(self)@, rv);
        }
    }

    /// Every record, in store order.
    pub fn list_all(&self) -> (r: Vec<YoutuberPermissions>)
        ensures
            r.deep_view() == self@,
    {
        let mut r: Vec<YoutuberPermissions> = Vec::new();
        let n = self.records.len();
        for i in 0..n
            invariant
                n == self.records.len(),
                r@.len() == i,
                forall|k: int| 0 <= k < i ==> r.deep_view()[k] == self@[k],
        {
            assert(self.records[i as int]@ == self@[i as int]);
            r.push(self.records[i].duplicate());
        }
        assert(r.deep_view() =~= self@);
        r
    }

    /// Point lookup: a key beginning with `@` matches a handle
    /// case-insensitively, any other key matches a channel id exactly.
    /// Absence is an ordinary `None`, not an error.
    pub fn get_by_channel_id_or_handle(&self, key: &str) -> (r: Option<YoutuberPermissions>)
        ensures
            r.deep_view() == spec_lookup(self@, key@),
    {
        let n = self.records.len();
        if key.unicode_len() > 0 && key.get_char(0) == '@' {
            let lowered = to_lower(key);
            for i in 0..n
                invariant
                    n == self.records.len(),
                    lowered@ == lower_of(key@),
                    key@.len() > 0 && key@[0] == '@',
                    forall|k: int| 0 <= k < i ==> lower_of(self@[k].custom_url) != lower_of(key@),
            {
                assert(self.records[i as int]@ == self@[i as int]);
                let candidate = to_lower(self.records[i].custom_url.as_str());
                if candidate == lowered {
                    proof {
                        lemma_find_by_handle_at(self@, lower_of(key@), i as int);
                    }
                    return Some(self.records[i].duplicate());
                }
            }
            proof {
                lemma_find_by_handle_none(self@, lower_of(key@));
            }
            None
        } else {
            let key_string = key.to_owned();
            for i in 0..n
                invariant
                    n == self.records.len(),
                    key_string@ == key@,
                    !(key@.len() > 0 && key@[0] == '@'),
                    forall|k: int| 0 <= k < i ==> self@[k].channel_id != key@,
            {
                assert(self.records[i as int]@ == self@[i as int]);
                if self.records[i].channel_id == key_string {
                    proof {
                        lemma_find_by_id_at(self@, key@, i as int);
                    }
                    return Some(self.records[i].duplicate());
                }
            }
            proof {
                lemma_find_by_id_none(self@, key@);
            }
            None
        }
    }
}

/// Law: an upsert for a channel id wipes out the effect of any earlier
/// upsert for the same channel id — in particular, repeating the same
/// payload leaves the store exactly as a single application would, with
/// the later timestamp.
pub proof fn lemma_upsert_idempotent(s: Seq<RecordView>, rec1: RecordView, rec2: RecordView)
    requires
        rec1.channel_id == rec2.channel_id,
    ensures
        spec_upsert(spec_upsert(s, rec1), rec2) =~= spec_upsert(s, rec2),
    decreases s.len(),
{
    if s.len() > 0 && s[0].channel_id != rec1.channel_id {
        lemma_upsert_idempotent(s.drop_first(), rec1, rec2);
        assert((seq![s[0]] + spec_upsert(s.drop_first(), rec1)).drop_first() =~= spec_upsert(
            s.drop_first(),
            rec1,
        ));
    }
}

/// Law: handle lookups are case-insensitive — two handle keys with the
/// same lower-case form return the same record.
pub proof fn lemma_handle_lookup_case_insensitive(s: Seq<RecordView>, k1: Seq<char>, k2: Seq<char>)
    requires
        k1.len() > 0 && k1[0] == '@',
        k2.len() > 0 && k2[0] == '@',
        lower_of(k1) == lower_of(k2),
    ensures
        spec_lookup(s, k1) == spec_lookup(s, k2),
{
}

} // verus!
