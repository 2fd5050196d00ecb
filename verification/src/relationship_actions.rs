//! What the relationships panel does.

use crate::actions::RelationshipAction;
use crate::clock::{clock_read, read_clock};
use crate::codec::{bip32_key, bip32_signing_key};
use crate::config::{keys_recorded, Config, KeyBackend, ProtectedConfig, PublicConfig};
use crate::content::{RelationshipSummary, RelationshipsMode, RelationshipsState};
use crate::credential_actions::{
    no_relationship, prepare_vrc_request, requests_vrc, vrc_request_sent, vrc_requested, VrcJob,
};
use crate::didcomm::{
    build_didcomm_message, build_trust_ping, listener_id_for_did, listener_view, BodyView,
    Envelope, OutboundBody, OutboundView, MESSAGE_LIFETIME, PING_LIFETIME,
};
use crate::dispatch_util::{
    record_error, reported, save_and_sync, went_well, went_wrong, Panel, Persist, SyncLog,
};
use crate::display::{display_name_of, log_did, log_did_view, resolve_did_to_display};
use crate::keyed::{
    distinct_keys, has_key, law_stored_entry_is_found, lookup, with_entry, without,
};
use crate::ledger::{
    contact_dropped, contact_stored, lemma_task_filed, other_remote, task_filed, Contacts,
    KeyEntry, KeyPurpose, KeySource, LogFamily, PersonaId, Relationship, RelationshipState, Relationships, TaskType,
};
use crate::main_page::{detailed_line, error_line, plain_line, push_line, ErrorText, MainPageState};
use crate::save_coalesce::SaveScheduler;
use crate::state::State;
use crate::sync::{synced, Host};
use crate::text::{
    begins_with, cat2, cat3, cat4, cat5, copy_opt, decimal, decimal_view, lemma_decimal_u32,
    opt_view, owned, same, starts_with, trim, trimmed,
};
use vstd::prelude::*;

verus! {

// ---------------------------------------------------------------------------
// Relationship DIDs
// ---------------------------------------------------------------------------

/// Label of the signing key of a relationship at the VTA.
pub open spec fn signing_label() -> Seq<char> {
    "relationship-signing"@
}

/// Label of the encryption key of a relationship at the VTA.
pub open spec fn encryption_label() -> Seq<char> {
    "relationship-encryption"@
}

/// How the keys of a relationship DID come about.
#[derive(Clone)]
pub enum RDidPlan {
    /// They were derived from the seed, along these paths.
    Bip32 { v_path: String, e_path: String, v_key: Vec<u8>, e_key: Vec<u8> },
    /// The VTA is to create them under these labels.
    Vta { v_label: String, e_label: String },
}

/// The path of the `n`-th relationship key.
pub open spec fn key_path_view(n: int) -> Seq<char> {
    "m/3'/1'/1'/"@ + decimal_view(n as nat) + "'"@
}

fn key_path(n: u32) -> (r: String)
    ensures
        r@ == key_path_view(n as int),
        r@.len() <= 22,
{
    proof {
        lemma_decimal_u32(n as nat);
        reveal_strlit("m/3'/1'/1'/");
        reveal_strlit("'");
    }
    let digits = decimal(n as u64);
    cat3("m/3'/1'/1'/", digits.as_str(), "'")
}

/// `new` is `old` after two relationship keys were reserved.
pub open spec fn keys_reserved(old: Config, new: Config) -> bool {
    &&& new == (Config {
        private: ProtectedConfig {
            relationships: Relationships {
                path_pointer: new.private.relationships.path_pointer,
                ..old.private.relationships
            },
            ..old.private
        },
        ..old
    })
    &&& new.private.relationships.path_pointer == old.private.relationships.path_pointer + 2
}

/// What planning a relationship DID comes to: with a seed, the next two keys are
/// reserved and derived; else the VTA is to make them.
pub open spec fn did_planned(old: Config, new: Config, r: Result<RDidPlan, ErrorText>) -> bool {
    match old.key_backend {
        KeyBackend::Vta { .. } => {
            &&& new == old
            &&& r matches Ok(plan)
            &&& plan matches RDidPlan::Vta { v_label, e_label }
            &&& v_label@ == signing_label()
            &&& e_label@ == encryption_label()
        },
        KeyBackend::Bip32 { seed } => {
            let n = old.private.relationships.path_pointer;
            if n + 2 > u32::MAX {
                &&& new == old
                &&& r matches Err(e) && e.says("Relationship key paths are exhausted"@)
            } else {
                let v = bip32_key(seed@, key_path_view(n as int));
                let e = bip32_key(seed@, key_path_view(n + 1));
                &&& keys_reserved(old, new)
                &&& if v is Some && e is Some {
                    &&& r matches Ok(plan)
                    &&& plan matches RDidPlan::Bip32 { v_path, e_path, v_key, e_key }
                    &&& v_path@ == key_path_view(n as int)
                    &&& e_path@ == key_path_view(n + 1)
                    &&& v_key@ == v->0
                    &&& e_key@ == e->0
                } else {
                    r matches Err(e) && e.says("Failed to derive relationship keys"@)
                }
            }
        },
    }
}

/// Plans the keys of a relationship DID.
pub fn plan_relationship_did(config: &mut Config) -> (r: Result<RDidPlan, ErrorText>)
    ensures
        did_planned(*old(config), *final(config), r),
{
    let n: u32 = config.private.relationships.path_pointer;
    match &config.key_backend {
        KeyBackend::Vta { .. } => Ok(
            RDidPlan::Vta {
                v_label: owned("relationship-signing"),
                e_label: owned("relationship-encryption"),
            },
        ),
        KeyBackend::Bip32 { seed } => {
            if n > u32::MAX - 2 {
                return Err(ErrorText::plain(owned("Relationship key paths are exhausted")));
            }
            let v_path = key_path(n);
            let e_path = key_path(n + 1);
            let v = bip32_signing_key(seed.as_slice(), v_path.as_str());
            let e = bip32_signing_key(seed.as_slice(), e_path.as_str());
            config.private.relationships.path_pointer = n + 2;
            match (v, e) {
                (Some(v_key), Some(e_key)) => Ok(RDidPlan::Bip32 { v_path, e_path, v_key, e_key }),
                _ => Err(ErrorText::plain(owned("Failed to derive relationship keys"))),
            }
        },
    }
}

/// A key of a relationship DID that exists now.
#[derive(Clone, Debug)]
pub struct MintedKey {
    /// The id under which it is found.
    pub id: String,
    /// The id under which the VTA holds it, where it does.
    pub vta_key_id: String,
}

/// A relationship DID and what is known of its keys.
#[derive(Clone, Debug)]
pub struct CreatedRDid {
    pub r_did: String,
    pub key_info: Vec<KeyEntry>,
}

/// Where the keys of a plan come from, once the VTA gave them these ids.
pub open spec fn planned_source(plan: RDidPlan, signing: bool, vta_key_id: String) -> KeySource {
    match plan {
        RDidPlan::Bip32 { v_path, e_path, .. } => KeySource::Derived {
            path: if signing {
                v_path
            } else {
                e_path
            },
        },
        RDidPlan::Vta { .. } => KeySource::VtaManaged { key_id: vta_key_id },
    }
}

/// Files the keys of a relationship DID that was made after a plan.
pub fn relationship_did_created(plan: RDidPlan, r_did: String, v: MintedKey, e: MintedKey) -> (r:
    CreatedRDid)
    ensures
        r.r_did == r_did,
        r.key_info@.len() == 2,
        r.key_info@[0].id == v.id,
        r.key_info@[0].source == planned_source(plan, true, v.vta_key_id),
        r.key_info@[0].purpose is RelationshipVerification,
        r.key_info@[1].id == e.id,
        r.key_info@[1].source == planned_source(plan, false, e.vta_key_id),
        r.key_info@[1].purpose is RelationshipEncryption,
        clock_read(r.key_info@[0].created),
        clock_read(r.key_info@[1].created),
{
    let (v_source, e_source) = match plan {
        RDidPlan::Bip32 { v_path, e_path, .. } => (
            KeySource::Derived { path: v_path },
            KeySource::Derived { path: e_path },
        ),
        RDidPlan::Vta { .. } => (
            KeySource::VtaManaged { key_id: v.vta_key_id },
            KeySource::VtaManaged { key_id: e.vta_key_id },
        ),
    };
    let created: i64 = read_clock();
    let mut key_info: Vec<KeyEntry> = Vec::new();
    key_info.push(
        KeyEntry {
            id: v.id,
            source: v_source,
            created,
            purpose: KeyPurpose::RelationshipVerification,
        },
    );
    key_info.push(
        KeyEntry {
            id: e.id,
            source: e_source,
            created,
            purpose: KeyPurpose::RelationshipEncryption,
        },
    );
    CreatedRDid { r_did, key_info }
}

/// No two relationship DIDs share a key: the two keys of a plan differ from each
/// other and from those of every later plan.
pub proof fn law_key_paths_are_fresh(m: int, n: int)
    requires
        0 <= m < n,
    ensures
        key_path_view(m) != key_path_view(n),
{
    lemma_decimal_injective(m as nat, n as nat);
    let a = decimal_view(m as nat);
    let b = decimal_view(n as nat);
    let p = "m/3'/1'/1'/"@;
    reveal_strlit("'");
    if key_path_view(m) == key_path_view(n) {
        assert(key_path_view(m).len() == p.len() + a.len() + 1);
        assert(key_path_view(n).len() == p.len() + b.len() + 1);
        assert(key_path_view(m).subrange(p.len() as int, (p.len() + a.len()) as int) =~= a);
        assert(key_path_view(n).subrange(p.len() as int, (p.len() + b.len()) as int) =~= b);
    }
}

proof fn lemma_decimal_injective(m: nat, n: nat)
    requires
        m != n,
    ensures
        decimal_view(m) != decimal_view(n),
    decreases m + n,
{
    if decimal_view(m) == decimal_view(n) {
        if m < 10 && n < 10 {
            assert(decimal_view(m)[0] == decimal_view(n)[0]);
        } else {
            assert(decimal_view(m).last() == decimal_view(n).last());
            assert(decimal_view(m).drop_last() == decimal_view(n).drop_last());
            if m >= 10 {
                assert(decimal_view(m).drop_last() =~= decimal_view(m / 10));
            } else {
                assert(decimal_view(m).drop_last() =~= Seq::<char>::empty());
            }
            if n >= 10 {
                assert(decimal_view(n).drop_last() =~= decimal_view(n / 10));
            } else {
                assert(decimal_view(n).drop_last() =~= Seq::<char>::empty());
            }
            lemma_decimal_nonempty(m / 10);
            lemma_decimal_nonempty(n / 10);
            if m >= 10 && n >= 10 && m / 10 != n / 10 {
                lemma_decimal_injective(m / 10, n / 10);
            }
        }
    }
}

proof fn lemma_decimal_nonempty(n: nat)
    ensures
        decimal_view(n).len() > 0,
{
}

// ---------------------------------------------------------------------------
// Requests
// ---------------------------------------------------------------------------

/// Why a relationship cannot be requested from this party.
pub open spec fn request_error(config: Config, did: Seq<char>) -> Option<Seq<char>> {
    if !begins_with(did, "did:"@) {
        Some("Invalid DID: must start with 'did:'"@)
    } else {
        match lookup(config.private.relationships@, did) {
            Some(rel) => if rel.state is Established {
                Some("An established relationship already exists with this DID"@)
            } else {
                None
            },
            None => None,
        }
    }
}

fn check_request(config: &Config, did: &str) -> (r: Option<&'static str>)
    ensures
        match r {
            Some(e) => request_error(*config, did@) == Some(e@),
            None => request_error(*config, did@) is None,
        },
{
    if !starts_with(did, "did:") {
        return Some("Invalid DID: must start with 'did:'");
    }
    match config.private.relationships.get(did) {
        Some(rel) => {
            if rel.state == RelationshipState::Established {
                Some("An established relationship already exists with this DID")
            } else {
                None
            }
        },
        None => None,
    }
}

/// The alias that was given, if any.
pub open spec fn alias_given(alias: Seq<char>) -> Option<Seq<char>> {
    if trimmed(alias).len() == 0 {
        None
    } else {
        Some(trimmed(alias))
    }
}

fn given_alias(alias: &str) -> (r: Option<String>)
    ensures
        opt_view(r) == alias_given(alias@),
{
    let t = trim(alias);
    if t.as_str().is_empty() {
        None
    } else {
        Some(t)
    }
}

/// Why a party cannot become a contact under this alias.
pub open spec fn contact_error(
    contacts: Contacts,
    did: Seq<char>,
    alias: Option<Seq<char>>,
    resolved: Result<(), String>,
) -> Option<Seq<char>> {
    if lookup(contacts.contacts@, did) is Some {
        None
    } else {
        match resolved {
            Err(e) => Some(e@),
            Ok(_) => match alias {
                Some(a) => if has_key(contacts.aliases@, a) {
                    Some("Alias is already in use: "@ + a)
                } else {
                    None
                },
                None => None,
            },
        }
    }
}

/// `new` is `old` with this party among the contacts.
pub open spec fn contact_ensured(
    old: Config,
    new: Config,
    did: Seq<char>,
    alias: Option<Seq<char>>,
) -> bool {
    if lookup(old.private.contacts.contacts@, did) is Some {
        new == old
    } else {
        &&& new == (Config {
            private: ProtectedConfig { contacts: new.private.contacts, ..old.private },
            ..old
        })
        &&& contact_stored(old.private.contacts, new.private.contacts, did, alias)
    }
}

fn ensure_contact(
    config: &mut Config,
    did: &str,
    alias: Option<String>,
    resolved: Result<(), String>,
) -> (r: Result<(), ErrorText>)
    ensures
        match contact_error(old(config).private.contacts, did@, opt_view(alias), resolved) {
            Some(why) => *final(config) == *old(config) && (r matches Err(e) && e.says(why)),
            None => r is Ok && contact_ensured(*old(config), *final(config), did@, opt_view(alias)),
        },
{
    if config.private.contacts.find_contact(did).is_some() {
        return Ok(());
    }
    match resolved {
        Err(e) => {
            return Err(ErrorText::plain(e));
        },
        Ok(_) => {},
    }
    let named = copy_opt(&alias);
    if config.private.contacts.add_contact(did, alias) {
        return Ok(());
    }
    match named {
        Some(a) => Err(ErrorText::plain(cat2("Alias is already in use: ", a.as_str()))),
        None => Ok(()),
    }
}

/// A request for a relationship that is about to be sent.
#[derive(Clone)]
pub struct RequestJob {
    pub respondent: String,
    pub reason: Option<String>,
    /// How to make a DID for the relationship; without it, the persona's own is
    /// used.
    pub rdid_plan: Option<RDidPlan>,
}

/// What preparing a request comes to: the party is checked, becomes a contact,
/// and a DID is planned where one is asked for.
pub open spec fn request_prepared(
    old: Config,
    new: Config,
    did: Seq<char>,
    alias: Seq<char>,
    reason: Option<String>,
    generate_r_did: bool,
    resolved: Result<(), String>,
    r: Result<RequestJob, ErrorText>,
) -> bool {
    match request_error(old, did) {
        Some(why) => new == old && (r matches Err(e) && e.says(why)),
        None => match contact_error(old.private.contacts, did, alias_given(alias), resolved) {
            Some(why) => new == old && (r matches Err(e) && e.says(why)),
            None => exists|mid: Config|
                #![trigger contact_ensured(old, mid, did, alias_given(alias))]
                contact_ensured(old, mid, did, alias_given(alias)) && if generate_r_did {
                    exists|planned: Result<RDidPlan, ErrorText>|
                        #[trigger] did_planned(mid, new, planned) && match planned {
                            Ok(plan) => r matches Ok(job) && job.respondent@ == did && job.reason
                                == reason && job.rdid_plan == Some(plan),
                            Err(e) => r == Err::<RequestJob, ErrorText>(e),
                        }
                } else {
                    new == mid && (r matches Ok(job) && job.respondent@ == did && job.reason
                        == reason && job.rdid_plan is None)
                },
        },
    }
}

/// Prepares a request for a relationship. `resolved` is what came of resolving
/// the party's DID, which matters only where it is no contact yet.
pub fn prepare_request(
    config: &mut Config,
    did: &str,
    alias: &str,
    reason: Option<String>,
    generate_r_did: bool,
    resolved: Result<(), String>,
) -> (r: Result<RequestJob, ErrorText>)
    ensures
        request_prepared(
            *old(config),
            *final(config),
            did@,
            alias@,
            reason,
            generate_r_did,
            resolved,
            r,
        ),
{
    match check_request(config, did) {
        Some(e) => {
            return Err(ErrorText::plain(owned(e)));
        },
        None => {},
    }
    match ensure_contact(config, did, given_alias(alias), resolved) {
        Err(e) => {
            return Err(e);
        },
        Ok(_) => {},
    }
    let ghost mid = *config;
    assert(contact_ensured(*old(config), mid, did@, alias_given(alias@)));
    let rdid_plan = if generate_r_did {
        let planned = plan_relationship_did(config);
        assert(did_planned(mid, *config, planned));
        match planned {
            Ok(plan) => Some(plan),
            Err(e) => {
                return Err(e);
            },
        }
    } else {
        None
    };
    Ok(RequestJob { respondent: owned(did), reason, rdid_plan })
}

/// The name that we present, if any.
pub open spec fn presented_name(config: Config) -> Option<Seq<char>> {
    if config.public.friendly_name@.len() == 0 {
        None
    } else {
        Some(config.public.friendly_name@)
    }
}

/// A request for a relationship, to be sent under the persona's DID, that names
/// the DID we are going to use.
pub open spec fn requests_relationship(
    e: Envelope,
    config: Config,
    to: Seq<char>,
    reason: Option<Seq<char>>,
    our_did: Seq<char>,
) -> bool {
    let us = config.persona_did_view();
    &&& e.listener_id@ == listener_view(us, config)
    &&& e.to_did@ == to
    &&& e.message@ == (OutboundView {
        from: us,
        to,
        thid: None,
        body: BodyView::RelationshipRequest {
            reason,
            did: our_did,
            name: presented_name(config),
        },
    })
    &&& e.message.stamped(Some(MESSAGE_LIFETIME))
}

/// Makes a request for a relationship.
pub fn create_request_message(config: &Config, job: &RequestJob, our_did: &str) -> (r: Envelope)
    ensures
        requests_relationship(r, *config, job.respondent@, opt_view(job.reason), our_did@),
{
    let name = if config.public.friendly_name.as_str().is_empty() {
        None
    } else {
        Some(config.public.friendly_name.clone())
    };
    let message = build_didcomm_message(
        OutboundBody::RelationshipRequest {
            reason: copy_opt(&job.reason),
            did: owned(our_did),
            name,
        },
        config.persona_did(),
        job.respondent.as_str(),
        None,
    );
    let listener_id = listener_id_for_did(config.persona_did(), config);
    Envelope { listener_id, to_did: job.respondent.clone(), message }
}

/// A relationship, but for when it came about.
pub open spec fn is_relationship(
    r: Relationship,
    task_id: Seq<char>,
    our_did: Seq<char>,
    remote_p_did: Seq<char>,
    remote_did: Seq<char>,
    state: RelationshipState,
    our_persona: Option<PersonaId>,
) -> bool {
    &&& r.task_id@ == task_id
    &&& r.our_did@ == our_did
    &&& r.remote_p_did@ == remote_p_did
    &&& r.remote_did@ == remote_did
    &&& r.state == state
    &&& r.our_persona == our_persona
    &&& clock_read(r.created)
}

/// `new` is `old` after a request for a relationship was sent.
pub open spec fn relationship_requested(
    old: Config,
    new: Config,
    did: String,
    our_did: Seq<char>,
    task_id: Seq<char>,
) -> bool {
    let rels = new.private.relationships@;
    &&& new == (Config {
        public: PublicConfig { logs: new.public.logs, ..old.public },
        private: ProtectedConfig {
            tasks: new.private.tasks,
            relationships: new.private.relationships,
            ..old.private
        },
        ..old
    })
    &&& new.private.relationships.path_pointer == old.private.relationships.path_pointer
    &&& rels.len() > 0
    &&& rels == with_entry(old.private.relationships@, rels.last())
    &&& is_relationship(
        rels.last(),
        task_id,
        our_did,
        did@,
        did@,
        RelationshipState::RequestSent,
        old.active_persona,
    )
    &&& task_filed(
        old.private.tasks@,
        new.private.tasks@,
        task_id,
        TaskType::RelationshipRequestOutbound { to: did },
        None,
    )
    &&& new.public.logs@ == old.public.logs@.push(
        (
            LogFamily::Relationship,
            "Relationship requested: remote DID("@ + did@ + ") Task ID("@ + task_id + ")"@,
        ),
    )
}

fn record_request(config: &mut Config, did: String, our_did: String, task_id: String)
    ensures
        relationship_requested(*old(config), *final(config), did, our_did@, task_id@),
{
    let created: i64 = read_clock();
    let line = cat5(
        "Relationship requested: remote DID(",
        did.as_str(),
        ") Task ID(",
        task_id.as_str(),
        ")",
    );
    let ghost before = config.private.relationships@;
    config.private.relationships.insert(
        Relationship {
            task_id: task_id.clone(),
            our_did,
            remote_p_did: did.clone(),
            remote_did: did.clone(),
            created,
            state: RelationshipState::RequestSent,
            our_persona: config.active_persona,
        },
    );
    assert(config.private.relationships@ == with_entry(before, config.private.relationships@.last()));
    config.private.tasks.new_task(
        task_id.as_str(),
        TaskType::RelationshipRequestOutbound { to: did },
    );
    config.note(LogFamily::Relationship, line);
}

// ---------------------------------------------------------------------------
// Pings
// ---------------------------------------------------------------------------

/// A ping, ready to be sent.
#[derive(Clone, Debug)]
pub struct PingJob {
    pub remote_p_did: String,
    pub our_did: String,
    pub remote_did: String,
    pub envelope: Envelope,
}

/// A ping to this party, over the relationship with it.
pub open spec fn pings(job: PingJob, config: Config, remote_p_did: Seq<char>) -> bool {
    &&& lookup(config.private.relationships@, remote_p_did) matches Some(rel)
    &&& job.remote_p_did@ == remote_p_did
    &&& job.our_did@ == rel.our_did@
    &&& job.remote_did@ == rel.remote_did@
    &&& job.envelope.listener_id@ == listener_view(rel.our_did@, config)
    &&& job.envelope.to_did@ == rel.remote_did@
    &&& job.envelope.message@ == (OutboundView {
        from: rel.our_did@,
        to: rel.remote_did@,
        thid: None,
        body: BodyView::TrustPing,
    })
    &&& job.envelope.message.stamped(Some(PING_LIFETIME))
}

/// Makes a ping.
pub fn prepare_ping(config: &Config, remote_p_did: &str) -> (r: Result<PingJob, ErrorText>)
    ensures
        match r {
            Ok(job) => pings(job, *config, remote_p_did@),
            Err(e) => e.says(no_relationship(remote_p_did@)),
        },
        r is Ok <==> lookup(config.private.relationships@, remote_p_did@) is Some,
{
    match config.private.relationships.get(remote_p_did) {
        None => Err(ErrorText::plain(cat2("No relationship found for ", remote_p_did))),
        Some(rel) => {
            let message = build_trust_ping(rel.our_did.as_str(), rel.remote_did.as_str());
            let listener_id = listener_id_for_did(rel.our_did.as_str(), config);
            Ok(
                PingJob {
                    remote_p_did: owned(remote_p_did),
                    our_did: rel.our_did.clone(),
                    remote_did: rel.remote_did.clone(),
                    envelope: Envelope { listener_id, to_did: rel.remote_did.clone(), message },
                },
            )
        },
    }
}

/// `new` is `old` after a ping was sent.
pub open spec fn ping_recorded(old: Config, new: Config, job: PingJob) -> bool {
    &&& new == (Config {
        public: PublicConfig { logs: new.public.logs, ..old.public },
        private: ProtectedConfig { tasks: new.private.tasks, ..old.private },
        ..old
    })
    &&& task_filed(
        old.private.tasks@,
        new.private.tasks@,
        job.envelope.message.id@,
        TaskType::TrustPing {
            from: job.our_did,
            to: job.remote_did,
            remote_p_did: job.remote_p_did,
        },
        None,
    )
    &&& new.public.logs@ == old.public.logs@.push(
        (
            LogFamily::Relationship,
            "Sent ping to "@ + job.remote_did@ + " via "@ + job.our_did@,
        ),
    )
}

fn record_ping(config: &mut Config, job: &PingJob)
    ensures
        ping_recorded(*old(config), *final(config), *job),
{
    config.note(
        LogFamily::Relationship,
        cat4("Sent ping to ", job.remote_did.as_str(), " via ", job.our_did.as_str()),
    );
    config.private.tasks.new_task(
        job.envelope.message.id.as_str(),
        TaskType::TrustPing {
            from: job.our_did.clone(),
            to: job.remote_did.clone(),
            remote_p_did: job.remote_p_did.clone(),
        },
    );
}

// ---------------------------------------------------------------------------
// Removal
// ---------------------------------------------------------------------------

/// The listener of a relationship that has a DID of its own.
pub open spec fn own_listener(config: Config, remote_p_did: Seq<char>) -> Option<Seq<char>> {
    match lookup(config.private.relationships@, remote_p_did) {
        Some(rel) => if config.owns_did(rel.our_did@) {
            None
        } else {
            Some(listener_view(rel.our_did@, config))
        },
        None => None,
    }
}

/// The listener that goes with a relationship.
pub fn listener_to_remove(config: &Config, remote_p_did: &str) -> (r: Option<String>)
    ensures
        opt_view(r) == own_listener(*config, remote_p_did@),
{
    match config.private.relationships.get(remote_p_did) {
        Some(rel) => {
            if config.is_persona_did(rel.our_did.as_str()) {
                None
            } else {
                Some(listener_id_for_did(rel.our_did.as_str(), config))
            }
        },
        None => None,
    }
}

/// `new` is `old` without the relationship with this party, without the
/// credentials exchanged over it, and without the contact.
pub open spec fn relationship_removed(old: Config, new: Config, remote_p_did: Seq<char>) -> bool {
    &&& new == (Config {
        public: PublicConfig { logs: new.public.logs, ..old.public },
        private: ProtectedConfig { tasks: old.private.tasks, ..new.private },
        ..old
    })
    &&& new.private.relationships@ == without(old.private.relationships@, remote_p_did)
    &&& new.private.relationships.path_pointer == old.private.relationships.path_pointer
    &&& new.private.vrcs_issued.entries@ == old.private.vrcs_issued.entries@.filter(
        other_remote(remote_p_did),
    )
    &&& new.private.vrcs_received.entries@ == old.private.vrcs_received.entries@.filter(
        other_remote(remote_p_did),
    )
    &&& contact_dropped(old.private.contacts, new.private.contacts, remote_p_did)
    &&& new.public.logs@ == old.public.logs@.push(
        (LogFamily::Relationship, "Removed relationship with ("@ + remote_p_did + ")"@),
    )
}

/// Removes a relationship.
pub fn remove_relationship(config: &mut Config, remote_p_did: &str)
    ensures
        relationship_removed(*old(config), *final(config), remote_p_did@),
{
    config.private.relationships.remove(
        remote_p_did,
        &mut config.private.vrcs_issued,
        &mut config.private.vrcs_received,
    );
    config.private.contacts.remove_contact(remote_p_did);
    config.note(
        LogFamily::Relationship,
        cat3("Removed relationship with (", remote_p_did, ")"),
    );
}

/// A removed relationship leaves no trace: neither it, nor a credential
/// exchanged over it, nor the contact is found any more, and its alias is free
/// again.
pub proof fn law_removal_is_complete(old: Config, new: Config, remote_p_did: Seq<char>)
    requires
        relationship_removed(old, new, remote_p_did),
    ensures
        lookup(new.private.relationships@, remote_p_did) is None,
        lookup(new.private.contacts.contacts@, remote_p_did) is None,
        forall|e: crate::ledger::VrcEntry|
            #[trigger] new.private.vrcs_issued.entries@.contains(e) ==> e.remote_p_did@
                != remote_p_did,
        forall|e: crate::ledger::VrcEntry|
            #[trigger] new.private.vrcs_received.entries@.contains(e) ==> e.remote_p_did@
                != remote_p_did,
        crate::ledger::alias_of(old.private.contacts.contacts@, remote_p_did) matches Some(a)
            ==> lookup(new.private.contacts.aliases@, a) is None,
{
    crate::keyed::lemma_without(old.private.relationships@, remote_p_did);
    crate::keyed::lemma_without(old.private.contacts.contacts@, remote_p_did);
    if let Some(a) = crate::ledger::alias_of(old.private.contacts.contacts@, remote_p_did) {
        crate::keyed::lemma_without(old.private.contacts.aliases@, a);
    }
    broadcast use vstd::seq_lib::group_filter_ensures;

    assert forall|e: crate::ledger::VrcEntry|
        #[trigger] new.private.vrcs_issued.entries@.contains(e) implies e.remote_p_did@
        != remote_p_did by {
        old.private.vrcs_issued.entries@.lemma_filter_contains_rev(other_remote(remote_p_did), e);
    }
    assert forall|e: crate::ledger::VrcEntry|
        #[trigger] new.private.vrcs_received.entries@.contains(e) implies e.remote_p_did@
        != remote_p_did by {
        old.private.vrcs_received.entries@.lemma_filter_contains_rev(other_remote(remote_p_did), e);
    }
}

// ---------------------------------------------------------------------------
// The panel
// ---------------------------------------------------------------------------

/// Shows one relationship.
pub fn handle_open_detail(state: &mut State, index: usize)
    ensures
        *final(state) == old(state).with_relationships(
            RelationshipsState {
                selected_index: index,
                mode: RelationshipsMode::Detail { index, selected_vrc: None },
                ..old(state).relationships()
            },
        ),
{
    state.main_page.content_panel.relationships.selected_index = index;
    state.main_page.content_panel.relationships.mode =
    RelationshipsMode::Detail { index, selected_vrc: None };
}

/// An empty form.
pub open spec fn is_blank_form(mode: RelationshipsMode) -> bool {
    &&& mode matches RelationshipsMode::NewRequest {
        did_input,
        alias_input,
        reason_input,
        generate_r_did,
        active_field,
    }
    &&& did_input@.len() == 0
    &&& alias_input@.len() == 0
    &&& reason_input@.len() == 0
    &&& !generate_r_did
    &&& active_field == 0
}

/// Opens an empty form for a request.
pub fn handle_start_new_request(state: &mut State)
    ensures
        *final(state) == old(state).with_relationships(
            RelationshipsState {
                mode: final(state).relationships().mode,
                ..old(state).relationships()
            },
        ),
        is_blank_form(final(state).relationships().mode),
{
    state.main_page.content_panel.relationships.mode =
    RelationshipsMode::NewRequest {
        did_input: String::new(),
        alias_input: String::new(),
        reason_input: String::new(),
        generate_r_did: false,
        active_field: 0,
    };
}

/// Goes back to the list.
pub fn handle_cancel_or_back(state: &mut State)
    ensures
        *final(state) == old(state).with_relationships(
            RelationshipsState {
                mode: RelationshipsMode::List,
                status_message: None,
                ..old(state).relationships()
            },
        ),
{
    state.main_page.content_panel.relationships.mode = RelationshipsMode::List;
    state.main_page.content_panel.relationships.status_message = None;
}

/// The mode after something was typed into the form.
pub open spec fn input_given(mode: RelationshipsMode, field: usize, value: String) ->
    RelationshipsMode {
    match mode {
        RelationshipsMode::NewRequest {
            did_input,
            alias_input,
            reason_input,
            generate_r_did,
            active_field,
        } => RelationshipsMode::NewRequest {
            did_input: if field == 0 {
                value
            } else {
                did_input
            },
            alias_input: if field == 1 {
                value
            } else {
                alias_input
            },
            reason_input: if field > 1 {
                value
            } else {
                reason_input
            },
            generate_r_did,
            active_field,
        },
        _ => mode,
    }
}

/// Takes over what was typed into a field of the form.
pub fn handle_input_update(state: &mut State, field: usize, value: String)
    ensures
        *final(state) == old(state).with_relationships(
            RelationshipsState {
                mode: input_given(old(state).relationships().mode, field, value),
                ..old(state).relationships()
            },
        ),
{
    match &mut state.main_page.content_panel.relationships.mode {
        RelationshipsMode::NewRequest { did_input, alias_input, reason_input, .. } => {
            if field == 0 {
                *did_input = value;
            } else if field == 1 {
                *alias_input = value;
            } else {
                *reason_input = value;
            }
        },
        _ => {},
    }
}

/// The mode after the choice of a DID of its own was flipped in the form.
pub open spec fn r_did_toggled(mode: RelationshipsMode) -> RelationshipsMode {
    match mode {
        RelationshipsMode::NewRequest {
            did_input,
            alias_input,
            reason_input,
            generate_r_did,
            active_field,
        } => RelationshipsMode::NewRequest {
            did_input,
            alias_input,
            reason_input,
            generate_r_did: !generate_r_did,
            active_field,
        },
        _ => mode,
    }
}

/// Flips whether the relationship is to have a DID of its own.
pub fn handle_toggle_r_did(state: &mut State)
    ensures
        *final(state) == old(state).with_relationships(
            RelationshipsState {
                mode: r_did_toggled(old(state).relationships().mode),
                ..old(state).relationships()
            },
        ),
{
    match &mut state.main_page.content_panel.relationships.mode {
        RelationshipsMode::NewRequest { generate_r_did, .. } => {
            *generate_r_did = !*generate_r_did;
        },
        _ => {},
    }
}

/// The mode after the form moved to a field.
pub open spec fn field_focused(mode: RelationshipsMode, field: usize) -> RelationshipsMode {
    match mode {
        RelationshipsMode::NewRequest {
            did_input,
            alias_input,
            reason_input,
            generate_r_did,
            active_field,
        } => RelationshipsMode::NewRequest {
            did_input,
            alias_input,
            reason_input,
            generate_r_did,
            active_field: field,
        },
        _ => mode,
    }
}

fn handle_focus(state: &mut State, field: usize)
    ensures
        *final(state) == old(state).with_relationships(
            RelationshipsState {
                mode: field_focused(old(state).relationships().mode, field),
                ..old(state).relationships()
            },
        ),
{
    match &mut state.main_page.content_panel.relationships.mode {
        RelationshipsMode::NewRequest { active_field, .. } => {
            *active_field = field;
        },
        _ => {},
    }
}

/// The mode after an alias was typed.
pub open spec fn alias_typed(mode: RelationshipsMode, value: String) -> RelationshipsMode {
    match mode {
        RelationshipsMode::EditAlias { index, alias_input } => RelationshipsMode::EditAlias {
            index,
            alias_input: value,
        },
        _ => mode,
    }
}

fn handle_alias_update(state: &mut State, value: String)
    ensures
        *final(state) == old(state).with_relationships(
            RelationshipsState {
                mode: alias_typed(old(state).relationships().mode, value),
                ..old(state).relationships()
            },
        ),
{
    match &mut state.main_page.content_panel.relationships.mode {
        RelationshipsMode::EditAlias { alias_input, .. } => {
            *alias_input = value;
        },
        _ => {},
    }
}

/// The state after this panel went back to its list, before anything else
/// happened.
pub open spec fn list_shown(state: State) -> State {
    state.with_relationships(
        RelationshipsState { mode: RelationshipsMode::List, ..state.relationships() },
    )
}

/// Whether a DID of ours was made for the relationship.
pub open spec fn yes_no(b: bool) -> Seq<char> {
    if b {
        "yes"@
    } else {
        "no"@
    }
}

fn say_yes_no(b: bool) -> (r: &'static str)
    ensures
        r@ == yes_no(b),
{
    if b {
        "yes"
    } else {
        "no"
    }
}

// ---------------------------------------------------------------------------
// What became of a message
// ---------------------------------------------------------------------------

/// What became of a request for a relationship.
#[derive(Debug)]
pub enum RequestResult {
    /// The DID for the relationship could not be made.
    NotCreated(ErrorText),
    /// The message could not be sent.
    NotSent(String),
    /// The message was sent, under this id.
    Sent { task_id: String },
}

/// What the log says of a request that was sent.
pub open spec fn request_detail(
    config: Config,
    did: Seq<char>,
    our_did: Seq<char>,
    task_id: Seq<char>,
) -> Seq<char> {
    "Relationship Request Sent\n─────────────────────────\nTo (persona):  "@ + did
        + "\nOur DID:       "@ + our_did + "\nR-DID used:    "@ + yes_no(
        !config.owns_did(our_did),
    ) + "\nTask ID:       "@ + task_id
}

/// `new` is `old` after it was known what became of a request: keys that were
/// made are kept, and a request that was sent is tracked.
pub open spec fn request_applied(
    old: State,
    new: State,
    was: Config,
    is: Config,
    host: Host,
    did: String,
    our_did: String,
    keys: Seq<KeyEntry>,
    result: RequestResult,
) -> bool {
    let kept = Config { key_info: is.key_info, ..was };
    &&& is.key_info@ == keys_recorded(was.key_info@, keys)
    &&& match result {
        RequestResult::NotCreated(e) => is == kept && went_wrong(
            old,
            new,
            Panel::Relationships,
            "Failed to send relationship request"@,
            e,
        ),
        RequestResult::NotSent(why) => is == kept && exists|e: ErrorText|
            e.says("failed to send relationship request: "@ + why@) && #[trigger] went_wrong(
                old,
                new,
                Panel::Relationships,
                "Failed to send relationship request"@,
                e,
            ),
        RequestResult::Sent { task_id } => {
            &&& relationship_requested(kept, is, did, our_did@, task_id@)
            &&& went_well(
                list_shown(old),
                new,
                is,
                host,
                Panel::Relationships,
                "Request sent to "@ + log_did_view(did@),
                detailed_line(
                    "Relationship request sent to "@ + log_did_view(did@),
                    request_detail(is, did@, our_did@, task_id@),
                ),
            )
        },
    }
}

fn apply_request(
    config: &mut Config,
    state: &mut State,
    save: &mut SaveScheduler,
    did: String,
    our_did: String,
    keys: Vec<KeyEntry>,
    result: RequestResult,
    host: &Host,
)
    ensures
        request_applied(
            *old(state),
            *final(state),
            *old(config),
            *final(config),
            *host,
            did,
            our_did,
            keys@,
            result,
        ),
        *final(save) == (if result is Sent {
            old(save).marked(host.now)
        } else {
            *old(save)
        }),
{
    config.record_keys(keys);
    match result {
        RequestResult::NotCreated(e) => record_error(
            &mut state.main_page,
            Panel::Relationships,
            "Failed to send relationship request",
            &e,
        ),
        RequestResult::NotSent(why) => {
            let e = ErrorText::plain(cat2("failed to send relationship request: ", why.as_str()));
            record_error(
                &mut state.main_page,
                Panel::Relationships,
                "Failed to send relationship request",
                &e,
            );
            assert(went_wrong(
                *old(state),
                *state,
                Panel::Relationships,
                "Failed to send relationship request"@,
                e,
            ));
        },
        RequestResult::Sent { task_id } => {
            state.main_page.content_panel.relationships.mode = RelationshipsMode::List;
            let shown = log_did(did.as_str());
            let mut detail = cat5(
                "Relationship Request Sent\n─────────────────────────\nTo (persona):  ",
                did.as_str(),
                "\nOur DID:       ",
                our_did.as_str(),
                "\nR-DID used:    ",
            );
            detail.append(say_yes_no(!config.is_persona_did(our_did.as_str())));
            detail.append("\nTask ID:       ");
            detail.append(task_id.as_str());
            record_request(config, did, our_did, task_id);
            save_and_sync(
                &mut state.main_page,
                config,
                save,
                Persist::SaveAndSync,
                Panel::Relationships,
                cat2("Request sent to ", shown.as_str()),
                SyncLog::Detailed {
                    summary: cat2("Relationship request sent to ", shown.as_str()),
                    detail,
                },
                host,
            );
        },
    }
}

/// What the log says of a ping that was sent.
pub open spec fn ping_detail(config: Config, job: PingJob) -> Seq<char> {
    "Trust-Ping Sent\n───────────────\nTo:              "@ + display_name_of(
        config,
        job.remote_p_did@,
    ) + "\nSent to DID:     "@ + job.remote_did@ + "\nSent from DID:   "@ + job.our_did@
        + "\nRemote persona:  "@ + job.remote_p_did@ + "\nUsing R-DIDs:    "@ + yes_no(
        !config.owns_did(job.our_did@),
    ) + "\nRouted via:      mediator"@
}

/// What the log says in short of a ping that was sent.
pub open spec fn ping_summary(config: Config, job: PingJob) -> Seq<char> {
    "Trust-ping sent to "@ + display_name_of(config, job.remote_p_did@) + (if config.owns_did(
        job.our_did@,
    ) {
        ""@
    } else {
        " (via R-DID)"@
    })
}

/// What the log says of a ping that was not sent.
pub open spec fn ping_failure_detail(
    remote_p_did: Seq<char>,
    remote_did: Seq<char>,
    our_did: Seq<char>,
    err: ErrorText,
) -> Seq<char> {
    "Trust-Ping Failed\n─────────────────\nTo (persona):    "@ + remote_p_did
        + "\nTo (R-DID):      "@ + remote_did + "\nFrom (our DID):  "@ + our_did
        + "\nError:           "@ + err.alternate@ + "\n\nDebug:\n"@ + err.debug@
}

/// `new` is `old` after a ping was not sent.
pub open spec fn ping_failed(
    old: State,
    new: State,
    name: Seq<char>,
    remote_p_did: Seq<char>,
    remote_did: Seq<char>,
    our_did: Seq<char>,
    err: ErrorText,
) -> bool {
    let status = new.relationships().status_message;
    &&& opt_view(status) == Some("Ping failed: "@ + err.alternate@)
    &&& new == old.with_main(
        MainPageState {
            activity_log: new.main_page.activity_log,
            ..old.main_page.with_status(Panel::Relationships, status)
        },
    )
    &&& new.main_page.log_lines() == push_line(
        old.main_page.log_lines(),
        detailed_line(
            "Ping to "@ + name + " failed: "@ + err.display@,
            ping_failure_detail(remote_p_did, remote_did, our_did, err),
        ),
    )
}

fn show_ping_failure(
    state: &mut State,
    name: &str,
    remote_p_did: &str,
    remote_did: &str,
    our_did: &str,
    err: &ErrorText,
)
    ensures
        ping_failed(
            *old(state),
            *final(state),
            name@,
            remote_p_did@,
            remote_did@,
            our_did@,
            *err,
        ),
{
    state.main_page.set_status(
        Panel::Relationships,
        cat2("Ping failed: ", err.alternate.as_str()),
    );
    let mut detail = cat5(
        "Trust-Ping Failed\n─────────────────\nTo (persona):    ",
        remote_p_did,
        "\nTo (R-DID):      ",
        remote_did,
        "\nFrom (our DID):  ",
    );
    detail.append(our_did);
    detail.append("\nError:           ");
    detail.append(err.alternate.as_str());
    detail.append("\n\nDebug:\n");
    detail.append(err.debug.as_str());
    state.main_page.log_detailed(cat4("Ping to ", name, " failed: ", err.display.as_str()), detail);
}

/// `new` is `old` after it was known what became of a ping.
pub open spec fn ping_applied(
    old: State,
    new: State,
    was: Config,
    is: Config,
    host: Host,
    job: PingJob,
    sent: Result<(), String>,
) -> bool {
    match sent {
        Ok(_) => {
            &&& ping_recorded(was, is, job)
            &&& went_well(
                list_shown(old),
                new,
                is,
                host,
                Panel::Relationships,
                "Ping sent"@,
                detailed_line(ping_summary(was, job), ping_detail(was, job)),
            )
        },
        Err(why) => {
            &&& is == was
            &&& exists|e: ErrorText|
                e.says("failed to send trust-ping: "@ + why@) && #[trigger] ping_failed(
                    old,
                    new,
                    display_name_of(was, job.remote_p_did@),
                    job.remote_p_did@,
                    job.remote_did@,
                    job.our_did@,
                    e,
                )
        },
    }
}

fn apply_ping(
    config: &mut Config,
    state: &mut State,
    save: &mut SaveScheduler,
    job: PingJob,
    sent: Result<(), String>,
    host: &Host,
)
    ensures
        ping_applied(
            *old(state),
            *final(state),
            *old(config),
            *final(config),
            *host,
            job,
            sent,
        ),
        *final(save) == (if sent is Ok {
            old(save).marked(host.now)
        } else {
            *old(save)
        }),
{
    let name = resolve_did_to_display(config, job.remote_p_did.as_str());
    match sent {
        Ok(_) => {
            let ours = config.is_persona_did(job.our_did.as_str());
            let summary = cat3(
                "Trust-ping sent to ",
                name.as_str(),
                if ours {
                    ""
                } else {
                    " (via R-DID)"
                },
            );
            let mut detail = cat5(
                "Trust-Ping Sent\n───────────────\nTo:              ",
                name.as_str(),
                "\nSent to DID:     ",
                job.remote_did.as_str(),
                "\nSent from DID:   ",
            );
            detail.append(job.our_did.as_str());
            detail.append("\nRemote persona:  ");
            detail.append(job.remote_p_did.as_str());
            detail.append("\nUsing R-DIDs:    ");
            detail.append(say_yes_no(!ours));
            detail.append("\nRouted via:      mediator");
            record_ping(config, &job);
            state.main_page.content_panel.relationships.mode = RelationshipsMode::List;
            save_and_sync(
                &mut state.main_page,
                config,
                save,
                Persist::SaveAndSync,
                Panel::Relationships,
                owned("Ping sent"),
                SyncLog::Detailed { summary, detail },
                host,
            );
        },
        Err(why) => {
            let e = ErrorText::plain(cat2("failed to send trust-ping: ", why.as_str()));
            show_ping_failure(
                state,
                name.as_str(),
                job.remote_p_did.as_str(),
                job.remote_did.as_str(),
                job.our_did.as_str(),
                &e,
            );
        },
    }
}

/// `new` is `old` after a relationship was removed.
pub open spec fn removal_applied(
    old: State,
    new: State,
    was: Config,
    is: Config,
    host: Host,
    remote_p_did: Seq<char>,
) -> bool {
    &&& relationship_removed(was, is, remote_p_did)
    &&& went_well(
        list_shown(old),
        new,
        is,
        host,
        Panel::Relationships,
        "Relationship removed"@,
        plain_line("Relationship removed"@),
    )
}

/// `new` is `old` after a request for a credential, made on this panel, was not
/// sent.
pub open spec fn vrc_request_failed(old: State, new: State, name: Seq<char>, err: ErrorText) -> bool {
    let status = new.relationships().status_message;
    &&& opt_view(status) == Some("VRC request failed: "@ + err.alternate@)
    &&& new == old.with_main(
        MainPageState {
            activity_log: new.main_page.activity_log,
            ..old.main_page.with_status(Panel::Relationships, status)
        },
    )
    &&& new.main_page.log_lines() == push_line(
        old.main_page.log_lines(),
        error_line("VRC request to "@ + name + " failed"@, err),
    )
}

fn show_vrc_failure(state: &mut State, name: &str, err: &ErrorText)
    ensures
        vrc_request_failed(*old(state), *final(state), name@, *err),
{
    state.main_page.set_status(
        Panel::Relationships,
        cat2("VRC request failed: ", err.alternate.as_str()),
    );
    let context = cat3("VRC request to ", name, " failed");
    state.main_page.log_error(context.as_str(), err);
}

/// `new` is `old` after it was known what became of a request for a credential
/// that was made on this panel.
pub open spec fn vrc_request_applied(
    old: State,
    new: State,
    was: Config,
    is: Config,
    host: Host,
    job: VrcJob,
    sent: Result<(), String>,
) -> bool {
    let name = display_name_of(was, job.remote_p_did@);
    match sent {
        Ok(_) => {
            &&& vrc_requested(was, is, job)
            &&& went_well(
                old,
                new,
                is,
                host,
                Panel::Relationships,
                "VRC requested from "@ + name,
                detailed_line(
                    "VRC requested from "@ + name,
                    "VRC Request Sent\n────────────────\nTo:      "@ + name + "\nDID:     "@
                        + job.remote_p_did@,
                ),
            )
        },
        Err(why) => {
            &&& is == was
            &&& exists|e: ErrorText|
                e.says("failed to send VRC request: "@ + why@) && #[trigger] vrc_request_failed(
                    old,
                    new,
                    name,
                    e,
                )
        },
    }
}

fn apply_vrc_request(
    config: &mut Config,
    state: &mut State,
    save: &mut SaveScheduler,
    job: VrcJob,
    sent: Result<(), String>,
    host: &Host,
)
    ensures
        vrc_request_applied(
            *old(state),
            *final(state),
            *old(config),
            *final(config),
            *host,
            job,
            sent,
        ),
        *final(save) == (if sent is Ok {
            old(save).marked(host.now)
        } else {
            *old(save)
        }),
{
    let name = resolve_did_to_display(config, job.remote_p_did.as_str());
    let detail = cat4(
        "VRC Request Sent\n────────────────\nTo:      ",
        name.as_str(),
        "\nDID:     ",
        job.remote_p_did.as_str(),
    );
    match vrc_request_sent(config, job, sent) {
        Ok(_) => {
            let text = cat2("VRC requested from ", name.as_str());
            save_and_sync(
                &mut state.main_page,
                config,
                save,
                Persist::SaveAndSync,
                Panel::Relationships,
                text.clone(),
                SyncLog::Detailed { summary: text, detail },
                host,
            );
        },
        Err(e) => show_vrc_failure(state, name.as_str(), &e),
    }
}

/// What became of the outside work of an action on this panel.
#[derive(Debug)]
pub enum RelationshipOutcome {
    /// Of a request for a relationship.
    Requested { did: String, our_did: String, keys: Vec<KeyEntry>, result: RequestResult },
    /// Of a ping.
    Pinged { job: PingJob, sent: Result<(), String> },
    /// The listener of a relationship is gone.
    Removed { remote_p_did: String },
    /// Of a request for a credential.
    VrcRequested { job: VrcJob, sent: Result<(), String> },
}

impl RelationshipOutcome {
    /// It changes the configuration for good.
    pub open spec fn succeeded(self) -> bool {
        match self {
            RelationshipOutcome::Requested { result, .. } => result is Sent,
            RelationshipOutcome::Pinged { sent, .. } => sent is Ok,
            RelationshipOutcome::Removed { .. } => true,
            RelationshipOutcome::VrcRequested { sent, .. } => sent is Ok,
        }
    }

    /// `new` is `old` after this became known.
    pub open spec fn applied(
        self,
        old: State,
        new: State,
        was: Config,
        is: Config,
        host: Host,
    ) -> bool {
        match self {
            RelationshipOutcome::Requested { did, our_did, keys, result } => request_applied(
                old,
                new,
                was,
                is,
                host,
                did,
                our_did,
                keys@,
                result,
            ),
            RelationshipOutcome::Pinged { job, sent } => ping_applied(
                old,
                new,
                was,
                is,
                host,
                job,
                sent,
            ),
            RelationshipOutcome::Removed { remote_p_did } => removal_applied(
                old,
                new,
                was,
                is,
                host,
                remote_p_did@,
            ),
            RelationshipOutcome::VrcRequested { job, sent } => vrc_request_applied(
                old,
                new,
                was,
                is,
                host,
                job,
                sent,
            ),
        }
    }

    /// Takes note of it.
    pub fn apply(
        self,
        state: &mut State,
        config: &mut Config,
        save: &mut SaveScheduler,
        host: &Host,
    )
        ensures
            self.applied(*old(state), *final(state), *old(config), *final(config), *host),
            *final(save) == (if self.succeeded() {
                old(save).marked(host.now)
            } else {
                *old(save)
            }),
    {
        match self {
            RelationshipOutcome::Requested { did, our_did, keys, result } => apply_request(
                config,
                state,
                save,
                did,
                our_did,
                keys,
                result,
                host,
            ),
            RelationshipOutcome::Pinged { job, sent } => apply_ping(
                config,
                state,
                save,
                job,
                sent,
                host,
            ),
            RelationshipOutcome::Removed { remote_p_did } => {
                remove_relationship(config, remote_p_did.as_str());
                state.main_page.content_panel.relationships.mode = RelationshipsMode::List;
                save_and_sync(
                    &mut state.main_page,
                    config,
                    save,
                    Persist::SaveAndSync,
                    Panel::Relationships,
                    owned("Relationship removed"),
                    SyncLog::Plain(owned("Relationship removed")),
                    host,
                );
            },
            RelationshipOutcome::VrcRequested { job, sent } => apply_vrc_request(
                config,
                state,
                save,
                job,
                sent,
                host,
            ),
        }
    }
}

/// A message that was not sent leaves every relationship, task and contact as it
/// was.
pub proof fn law_failed_send_changes_no_relationship(
    outcome: RelationshipOutcome,
    old: State,
    new: State,
    was: Config,
    is: Config,
    host: Host,
)
    requires
        outcome.applied(old, new, was, is, host),
        !outcome.succeeded(),
    ensures
        is.private == was.private,
        is.public == was.public,
        is.account == was.account,
{
}

// ---------------------------------------------------------------------------
// Aliases
// ---------------------------------------------------------------------------

/// `new` is `old` after the alias of a party was set or taken away.
pub open spec fn alias_set(old: Config, new: Config, did: Seq<char>, alias: Option<Seq<char>>) -> bool {
    &&& new == (Config {
        public: PublicConfig { logs: new.public.logs, ..old.public },
        private: ProtectedConfig { contacts: new.private.contacts, ..old.private },
        ..old
    })
    &&& exists|mid: Contacts|
        #[trigger] contact_dropped(old.private.contacts, mid, did) && contact_stored(
            mid,
            new.private.contacts,
            did,
            alias,
        )
    &&& new.public.logs@ == old.public.logs@.push(
        (
            LogFamily::Config,
            "Alias updated for "@ + did + ": "@ + (match alias {
                Some(a) => a,
                None => "(removed)"@,
            }),
        ),
    )
}

fn set_alias(config: &mut Config, did: &str, alias: Option<String>)
    ensures
        alias_set(*old(config), *final(config), did@, opt_view(alias)),
{
    let ghost before = config.private.contacts;
    config.private.contacts.remove_contact(did);
    assert(contact_dropped(before, config.private.contacts, did@));
    let line = match &alias {
        Some(a) => cat4("Alias updated for ", did, ": ", a.as_str()),
        None => cat4("Alias updated for ", did, ": ", "(removed)"),
    };
    config.private.contacts.store_contact(did, alias);
    config.note(LogFamily::Config, line);
}

/// The row in which a party is shown; the first one if it is not.
pub open spec fn row_of(s: Seq<RelationshipSummary>, did: Seq<char>) -> usize {
    first_row(s, did, 0)
}

/// The first row, from this one on, in which a party is shown; the first of all
/// if there is none.
pub open spec fn first_row(s: Seq<RelationshipSummary>, did: Seq<char>, from: int) -> usize
    decreases s.len() - from,
{
    if from < 0 || from >= s.len() {
        0
    } else if s[from].remote_p_did@ == did {
        from as usize
    } else {
        first_row(s, did, from + 1)
    }
}

fn shown_row(v: &Vec<RelationshipSummary>, did: &str) -> (r: usize)
    ensures
        r == row_of(v@, did@),
{
    let mut i: usize = 0;
    while i < v.len()
        invariant
            i <= v@.len(),
            first_row(v@, did@, 0) == first_row(v@, did@, i as int),
        decreases v@.len() - i,
    {
        if same(v[i].remote_p_did.as_str(), did) {
            return i;
        }
        i = i + 1;
    }
    0
}

/// The page with one relationship shown.
pub open spec fn detail_shown(page: MainPageState, index: usize) -> MainPageState {
    MainPageState {
        content_panel: crate::content::ContentPanelState {
            relationships: RelationshipsState {
                mode: RelationshipsMode::Detail { index, selected_vrc: None },
                ..page.content_panel.relationships
            },
            ..page.content_panel
        },
        ..page
    }
}

/// `new` is `old` after an alias was set: what is shown was refreshed and the
/// party it belongs to is shown.
pub open spec fn alias_edited(
    old: State,
    new: State,
    is: Config,
    host: Host,
    did: Seq<char>,
) -> bool {
    &&& new == old.with_main(new.main_page)
    &&& exists|page: MainPageState|
        #[trigger] synced(old.main_page, page, is, host) && page.activity_log
            == old.main_page.activity_log && reported(
            detail_shown(page, row_of(page.content_panel.relationships.relationships@, did)),
            new.main_page,
            is,
            host,
            false,
            Panel::Relationships,
            "Alias updated"@,
            plain_line("Alias updated"@),
        )
}

/// Sets the alias of a party, or takes it away.
pub fn handle_edit_alias(
    config: &mut Config,
    state: &mut State,
    save: &mut SaveScheduler,
    remote_p_did: &str,
    alias: &str,
    host: &Host,
)
    ensures
        alias_set(*old(config), *final(config), remote_p_did@, alias_given(alias@)),
        alias_edited(*old(state), *final(state), *final(config), *host, remote_p_did@),
        *final(save) == old(save).marked(host.now),
{
    set_alias(config, remote_p_did, given_alias(alias));
    save.mark_dirty(host.now);
    state.main_page.sync_from_config(config, host);
    let ghost page = state.main_page;
    let index: usize = shown_row(
        &state.main_page.content_panel.relationships.relationships,
        remote_p_did,
    );
    state.main_page.content_panel.relationships.mode =
    RelationshipsMode::Detail { index, selected_vrc: None };
    assert(state.main_page == detail_shown(page, index));
    save_and_sync(
        &mut state.main_page,
        config,
        save,
        Persist::Nothing,
        Panel::Relationships,
        owned("Alias updated"),
        SyncLog::Plain(owned("Alias updated")),
        host,
    );
    assert(synced(old(state).main_page, page, *config, *host));
}

// ---------------------------------------------------------------------------
// Dispatch
// ---------------------------------------------------------------------------

/// Outside work that an action on this panel needs.
pub enum RelationshipJob {
    /// Make a DID where one is planned, make the message and send it.
    Request(Box<RequestJob>),
    Ping(Box<PingJob>),
    /// Remove the listener, if any.
    Remove { remote_p_did: String, listener: Option<String> },
    RequestVrc(Box<VrcJob>),
}

/// What is left to be done after an action on this panel.
pub enum RelationshipDispatch {
    /// Nothing.
    Handled,
    /// This, and then to take note of its outcome.
    Spawn { job: RelationshipJob, is_ping: bool },
}

/// Whether an action needs outside work.
pub open spec fn needs_network(action: RelationshipAction) -> bool {
    ||| action is SubmitRequest
    ||| action is Ping
    ||| action is Remove
    ||| action is RequestVrc
}

/// Whether an action needs outside work.
pub fn is_network(action: &RelationshipAction) -> (r: bool)
    ensures
        r == needs_network(*action),
{
    match action {
        RelationshipAction::SubmitRequest { .. } => true,
        RelationshipAction::Ping { .. } => true,
        RelationshipAction::Remove { .. } => true,
        RelationshipAction::RequestVrc { .. } => true,
        _ => false,
    }
}

/// The DID that has to be resolved before an action: that of a party to be
/// requested which is no contact yet.
pub open spec fn to_resolve(config: Config, action: RelationshipAction) -> Option<Seq<char>> {
    match action {
        RelationshipAction::SubmitRequest { did, .. } => if request_error(config, did@) is None
            && lookup(config.private.contacts.contacts@, did@) is None {
            Some(did@)
        } else {
            None
        },
        _ => None,
    }
}

/// The DID that has to be resolved before an action.
pub fn contact_to_resolve(config: &Config, action: &RelationshipAction) -> (r: Option<String>)
    ensures
        opt_view(r) == to_resolve(*config, *action),
{
    match action {
        RelationshipAction::SubmitRequest { did, .. } => {
            if check_request(config, did.as_str()).is_none() && config.private.contacts.find_contact(
                did.as_str(),
            ).is_none() {
                Some(did.clone())
            } else {
                None
            }
        },
        _ => None,
    }
}

/// `new` is `old` after a request was submitted and before anything came of it.
pub open spec fn submission_shown(old: State, new: State, generate_r_did: bool) -> bool {
    let status = new.relationships().status_message;
    let shown = old.main_page.with_status(Panel::Relationships, status);
    &&& new == old.with_main(
        MainPageState { activity_log: new.main_page.activity_log, ..shown },
    )
    &&& if generate_r_did {
        &&& opt_view(status) == Some("Creating relationship DID..."@)
        &&& new.main_page.log_lines() == push_line(
            old.main_page.log_lines(),
            plain_line("Creating relationship DID via key backend..."@),
        )
    } else {
        &&& opt_view(status) == Some("Sending request..."@)
        &&& new.main_page.activity_log == old.main_page.activity_log
    }
}

fn show_submission(state: &mut State, generate_r_did: bool)
    ensures
        submission_shown(*old(state), *final(state), generate_r_did),
{
    if generate_r_did {
        state.main_page.set_status(Panel::Relationships, owned("Creating relationship DID..."));
        state.main_page.log(owned("Creating relationship DID via key backend..."));
    } else {
        state.main_page.set_status(Panel::Relationships, owned("Sending request..."));
    }
}

/// What submitting a request comes to.
pub open spec fn submitted(
    old: State,
    new: State,
    was: Config,
    is: Config,
    action: RelationshipAction,
    resolved: Result<(), String>,
    r: RelationshipDispatch,
) -> bool {
    &&& action matches RelationshipAction::SubmitRequest { did, alias, reason, generate_r_did }
    &&& exists|prepared: Result<RequestJob, ErrorText>|
        #[trigger] request_prepared(
            was,
            is,
            did@,
            alias@,
            reason,
            generate_r_did,
            resolved,
            prepared,
        ) && match prepared {
            Ok(job) => {
                &&& submission_shown(old, new, generate_r_did)
                &&& r matches RelationshipDispatch::Spawn { job: j, is_ping }
                &&& !is_ping
                &&& j == RelationshipJob::Request(Box::new(job))
            },
            Err(e) => {
                &&& r is Handled
                &&& exists|mid: State|
                    #[trigger] submission_shown(old, mid, generate_r_did) && went_wrong(
                        mid,
                        new,
                        Panel::Relationships,
                        "Failed to send relationship request"@,
                        e,
                    )
            },
        }
}

/// What asking for a ping comes to.
pub open spec fn ping_asked(
    old: State,
    new: State,
    config: Config,
    remote_p_did: Seq<char>,
    r: RelationshipDispatch,
) -> bool {
    if lookup(config.private.relationships@, remote_p_did) is Some {
        &&& new == old
        &&& r matches RelationshipDispatch::Spawn { job, is_ping }
        &&& is_ping
        &&& job matches RelationshipJob::Ping(ping)
        &&& pings(*ping, config, remote_p_did)
    } else {
        &&& r is Handled
        &&& exists|e: ErrorText|
            e.says(no_relationship(remote_p_did)) && #[trigger] ping_failed(
                old,
                new,
                display_name_of(config, remote_p_did),
                remote_p_did,
                Seq::empty(),
                Seq::empty(),
                e,
            )
    }
}

/// What asking for a credential comes to.
pub open spec fn vrc_asked(
    old: State,
    new: State,
    config: Config,
    remote_p_did: Seq<char>,
    r: RelationshipDispatch,
) -> bool {
    if lookup(config.private.relationships@, remote_p_did) is Some {
        &&& new == old
        &&& r matches RelationshipDispatch::Spawn { job, is_ping }
        &&& !is_ping
        &&& job matches RelationshipJob::RequestVrc(request)
        &&& requests_vrc(*request, config, remote_p_did, None)
    } else {
        &&& r is Handled
        &&& exists|e: ErrorText|
            e.says(no_relationship(remote_p_did)) && #[trigger] vrc_request_failed(
                old,
                new,
                display_name_of(config, remote_p_did),
                e,
            )
    }
}

/// What an action on this panel comes to.
pub open spec fn relationship_handled(
    action: RelationshipAction,
    old: State,
    new: State,
    was: Config,
    is: Config,
    resolved: Result<(), String>,
    host: Host,
    r: RelationshipDispatch,
) -> bool {
    let p = old.relationships();
    match action {
        RelationshipAction::SubmitRequest { .. } => submitted(
            old,
            new,
            was,
            is,
            action,
            resolved,
            r,
        ),
        RelationshipAction::Ping { remote_p_did } => is == was && ping_asked(
            old,
            new,
            was,
            remote_p_did@,
            r,
        ),
        RelationshipAction::RequestVrc { remote_p_did } => is == was && vrc_asked(
            old,
            new,
            was,
            remote_p_did@,
            r,
        ),
        RelationshipAction::Remove { remote_p_did } => {
            &&& is == was
            &&& new == old.with_relationships(RelationshipsState { confirm_delete: None, ..p })
            &&& r matches RelationshipDispatch::Spawn { job, is_ping }
            &&& !is_ping
            &&& job matches RelationshipJob::Remove { remote_p_did: party, listener }
            &&& party == remote_p_did
            &&& opt_view(listener) == own_listener(was, remote_p_did@)
        },
        RelationshipAction::EditAlias { remote_p_did, alias } => r is Handled && alias_set(
            was,
            is,
            remote_p_did@,
            alias_given(alias@),
        ) && alias_edited(old, new, is, host, remote_p_did@),
        RelationshipAction::StartNewRequest => {
            &&& is == was
            &&& r is Handled
            &&& new == old.with_relationships(
                RelationshipsState { mode: new.relationships().mode, ..p },
            )
            &&& is_blank_form(new.relationships().mode)
        },
        RelationshipAction::Select(index) => is == was && r is Handled && new
            == old.with_relationships(RelationshipsState { selected_index: index, ..p }),
        RelationshipAction::OpenDetail(index) => is == was && r is Handled && new
            == old.with_relationships(
            RelationshipsState {
                selected_index: index,
                mode: RelationshipsMode::Detail { index, selected_vrc: None },
                ..p
            },
        ),
        RelationshipAction::CancelNewRequest | RelationshipAction::Back => is == was && r is Handled
            && new == old.with_relationships(
            RelationshipsState { mode: RelationshipsMode::List, status_message: None, ..p },
        ),
        RelationshipAction::InputUpdate { field, value } => is == was && r is Handled && new
            == old.with_relationships(
            RelationshipsState { mode: input_given(p.mode, field, value), ..p },
        ),
        RelationshipAction::ToggleRDid => is == was && r is Handled && new
            == old.with_relationships(RelationshipsState { mode: r_did_toggled(p.mode), ..p }),
        RelationshipAction::FocusField(field) => is == was && r is Handled && new
            == old.with_relationships(
            RelationshipsState { mode: field_focused(p.mode, field), ..p },
        ),
        RelationshipAction::StartEditAlias { index, current_alias } => is == was && r is Handled
            && new == old.with_relationships(
            RelationshipsState {
                mode: RelationshipsMode::EditAlias { index, alias_input: current_alias },
                ..p
            },
        ),
        RelationshipAction::EditAliasUpdate(value) => is == was && r is Handled && new
            == old.with_relationships(
            RelationshipsState { mode: alias_typed(p.mode, value), ..p },
        ),
        RelationshipAction::CancelEditAlias { index } => is == was && r is Handled && new
            == old.with_relationships(
            RelationshipsState {
                mode: RelationshipsMode::Detail { index, selected_vrc: None },
                ..p
            },
        ),
        RelationshipAction::ConfirmRemove { remote_p_did } => is == was && r is Handled && new
            == old.with_relationships(
            RelationshipsState { confirm_delete: Some(remote_p_did), ..p },
        ),
        RelationshipAction::CancelRemove => is == was && r is Handled && new
            == old.with_relationships(RelationshipsState { confirm_delete: None, ..p }),
    }
}

/// Does what is asked for on this panel. `resolved` is what came of resolving
/// the DID that `contact_to_resolve` names.
#[verifier::rlimit(60)]
pub fn dispatch(
    action: RelationshipAction,
    config: &mut Config,
    state: &mut State,
    save: &mut SaveScheduler,
    resolved: Result<(), String>,
    host: &Host,
) -> (r: RelationshipDispatch)
    ensures
        relationship_handled(
            action,
            *old(state),
            *final(state),
            *old(config),
            *final(config),
            resolved,
            *host,
            r,
        ),
        *final(save) == (if action is EditAlias {
            old(save).marked(host.now)
        } else {
            *old(save)
        }),
        r is Spawn ==> needs_network(action),
{
    match action {
        RelationshipAction::SubmitRequest { did, alias, reason, generate_r_did } => {
            show_submission(state, generate_r_did);
            let ghost mid = *state;
            let prepared = prepare_request(
                config,
                did.as_str(),
                alias.as_str(),
                reason,
                generate_r_did,
                resolved,
            );
            assert(request_prepared(
                *old(config),
                *config,
                did@,
                alias@,
                reason,
                generate_r_did,
                resolved,
                prepared,
            ));
            match prepared {
                Ok(job) => {
                    return RelationshipDispatch::Spawn {
                        job: RelationshipJob::Request(Box::new(job)),
                        is_ping: false,
                    };
                },
                Err(e) => {
                    record_error(
                        &mut state.main_page,
                        Panel::Relationships,
                        "Failed to send relationship request",
                        &e,
                    );
                    assert(submission_shown(*old(state), mid, generate_r_did));
                },
            }
        },
        RelationshipAction::Ping { remote_p_did } => {
            match prepare_ping(config, remote_p_did.as_str()) {
                Ok(job) => {
                    return RelationshipDispatch::Spawn {
                        job: RelationshipJob::Ping(Box::new(job)),
                        is_ping: true,
                    };
                },
                Err(e) => {
                    let name = resolve_did_to_display(config, remote_p_did.as_str());
                    proof {
                        reveal_strlit("");
                        assert(""@ =~= Seq::<char>::empty());
                    }
                    show_ping_failure(
                        state,
                        name.as_str(),
                        remote_p_did.as_str(),
                        "",
                        "",
                        &e,
                    );
                },
            }
        },
        RelationshipAction::RequestVrc { remote_p_did } => {
            match prepare_vrc_request(config, remote_p_did.as_str(), None) {
                Ok(job) => {
                    return RelationshipDispatch::Spawn {
                        job: RelationshipJob::RequestVrc(Box::new(job)),
                        is_ping: false,
                    };
                },
                Err(e) => {
                    let name = resolve_did_to_display(config, remote_p_did.as_str());
                    show_vrc_failure(state, name.as_str(), &e);
                },
            }
        },
        RelationshipAction::Remove { remote_p_did } => {
            state.main_page.content_panel.relationships.confirm_delete = None;
            let listener = listener_to_remove(config, remote_p_did.as_str());
            return RelationshipDispatch::Spawn {
                job: RelationshipJob::Remove { remote_p_did, listener },
                is_ping: false,
            };
        },
        RelationshipAction::EditAlias { remote_p_did, alias } => handle_edit_alias(
            config,
            state,
            save,
            remote_p_did.as_str(),
            alias.as_str(),
            host,
        ),
        RelationshipAction::StartNewRequest => handle_start_new_request(state),
        RelationshipAction::Select(index) => {
            state.main_page.content_panel.relationships.selected_index = index;
        },
        RelationshipAction::OpenDetail(index) => handle_open_detail(state, index),
        RelationshipAction::CancelNewRequest => handle_cancel_or_back(state),
        RelationshipAction::Back => handle_cancel_or_back(state),
        RelationshipAction::InputUpdate { field, value } => handle_input_update(
            state,
            field,
            value,
        ),
        RelationshipAction::ToggleRDid => handle_toggle_r_did(state),
        RelationshipAction::FocusField(field) => handle_focus(state, field),
        RelationshipAction::StartEditAlias { index, current_alias } => {
            state.main_page.content_panel.relationships.mode =
            RelationshipsMode::EditAlias { index, alias_input: current_alias };
        },
        RelationshipAction::EditAliasUpdate(value) => handle_alias_update(state, value),
        RelationshipAction::CancelEditAlias { index } => {
            state.main_page.content_panel.relationships.mode =
            RelationshipsMode::Detail { index, selected_vrc: None };
        },
        RelationshipAction::ConfirmRemove { remote_p_did } => {
            state.main_page.content_panel.relationships.confirm_delete = Some(remote_p_did);
        },
        RelationshipAction::CancelRemove => {
            state.main_page.content_panel.relationships.confirm_delete = None;
        },
    }
    RelationshipDispatch::Handled
}

// ---------------------------------------------------------------------------
// What the panel is for
// ---------------------------------------------------------------------------

/// A request goes to the party it is for, from our persona, and tells it the DID
/// that we are going to use, the reason and our name.
pub proof fn law_request_tells_who_and_where(
    config: &Config,
    job: &RequestJob,
    our_did: &str,
    e: Envelope,
)
    requires
        call_ensures(create_request_message, (config, job, our_did), e),
    ensures
        e.to_did@ == job.respondent@,
        e.message@.to == job.respondent@,
        e.message@.from == config.persona_did_view(),
        e.message@.thid is None,
        e.message@.body matches BodyView::RelationshipRequest { reason, did, name } && did
            == our_did@ && reason == opt_view(job.reason) && (config.public.friendly_name@.len()
            > 0 ==> name == Some(config.public.friendly_name@)),
        exists|t: i64| #[trigger]
            clock_read(t) && (t >= 0 ==> e.message.created_time == t && e.message.expires_time
                == Some((t + 172800) as u64)),
{
}

/// A request that was sent is tracked: the relationship with the party is found
/// as requested, under the DID that was told, and a task of the request's id
/// awaits the answer. Nothing is established by it, and it is to be saved.
pub proof fn law_sent_request_is_tracked(
    outcome: RelationshipOutcome,
    state: &mut State,
    config: &mut Config,
    save: &mut SaveScheduler,
    host: &Host,
    did: String,
    our_did: String,
    keys: Vec<KeyEntry>,
    task_id: String,
)
    requires
        call_ensures(RelationshipOutcome::apply, (outcome, state, config, save, host), ()),
        outcome == (RelationshipOutcome::Requested {
            did,
            our_did,
            keys,
            result: RequestResult::Sent { task_id },
        }),
    ensures
        lookup(final(config).private.relationships@, did@) matches Some(rel) && rel.task_id@
            == task_id@ && rel.our_did@ == our_did@ && rel.remote_did@ == did@ && rel.state
            is RequestSent && clock_read(rel.created),
        lookup(final(config).private.tasks@, task_id@) matches Some(task) && (task.type_ matches TaskType::RelationshipRequestOutbound {
            to,
        } && to@ == did@),
        forall|k: Seq<char>|
            k != did@ ==> #[trigger] lookup(final(config).private.relationships@, k) == lookup(
                old(config).private.relationships@,
                k,
            ),
        final(config).key_info@ == keys_recorded(old(config).key_info@, keys@),
        final(save).dirty,
{
    law_stored_entry_is_found(
        old(config).private.relationships@,
        final(config).private.relationships@.last(),
    );
    lemma_task_filed(
        old(config).private.tasks@,
        final(config).private.tasks@,
        task_id@,
        TaskType::RelationshipRequestOutbound { to: did },
        None,
    );
}

/// What our request is answered with belongs to it: the acceptance by the party,
/// in the thread of the request, establishes the relationship that the request
/// made.
pub proof fn law_request_and_acceptance_make_a_relationship(
    outcome: RelationshipOutcome,
    state: &mut State,
    config: &mut Config,
    save: &mut SaveScheduler,
    host: &Host,
    did: String,
    our_did: String,
    keys: Vec<KeyEntry>,
    task_id: String,
    later: &mut Config,
    message: &crate::didcomm::InboundMessage,
    body: crate::message_dispatch::AcceptBody,
    verdict: crate::message_dispatch::Verdict,
    r: crate::message_dispatch::Processed,
)
    requires
        call_ensures(RelationshipOutcome::apply, (outcome, state, config, save, host), ()),
        outcome == (RelationshipOutcome::Requested {
            did,
            our_did,
            keys,
            result: RequestResult::Sent { task_id },
        }),
        distinct_keys(old(config).private.relationships@),
        forall|j: int|
            0 <= j < old(config).private.relationships@.len() ==> (#[trigger] old(config).private.relationships@[j]).task_id@ != task_id@,
        *old(later) == *final(config),
        call_ensures(
            crate::message_dispatch::process_inbound_message,
            (
                later,
                message,
                crate::message_dispatch::InboundKind::RelationshipAccepted {
                    body: Ok::<crate::message_dispatch::AcceptBody, String>(body),
                },
                verdict,
            ),
            r,
        ),
        body.did_valid,
        verdict.fresh && !verdict.replayed,
        message.from == Some(did),
        message.thid == Some(task_id),
        !crate::message_dispatch::oversized(message.body@),
    ensures
        lookup(final(later).private.relationships@, did@) matches Some(rel) && rel.state
            is Established && rel.remote_did@ == body.did@ && rel.our_did@ == our_did@,
        lookup(final(later).private.tasks@, task_id@) is None,
{
    let was = old(config).private.relationships@;
    let rels = old(later).private.relationships@;
    let i = rels.len() - 1;
    law_stored_entry_is_found(was, rels.last());
    crate::keyed::lemma_without(was, did@);
    assert forall|j: int| 0 <= j < rels.len() && j != i implies (#[trigger] rels[j]).task_id@
        != task_id@ by {
        let kept = crate::keyed::without(was, did@);
        assert(kept[j] == rels[j]);
        assert(kept.contains(rels[j]));
        let k = choose|k: int| 0 <= k < was.len() && was[k] == rels[j];
        assert(was[k].task_id@ != task_id@);
    }
    crate::message_dispatch::law_acceptance_is_taken_up(
        later,
        message,
        crate::message_dispatch::InboundKind::RelationshipAccepted {
            body: Ok::<crate::message_dispatch::AcceptBody, String>(body),
        },
        verdict,
        r,
        did,
        task_id,
        i,
        body,
    );
}

/// A request is prepared for the party that was entered only if that is a DID and
/// there is no established relationship with it; the party is among the contacts
/// then, and a DID is planned exactly where one is asked for.
pub proof fn law_prepared_request_is_for_the_party(
    config: &mut Config,
    did: &str,
    alias: &str,
    reason: Option<String>,
    generate_r_did: bool,
    resolved: Result<(), String>,
    r: Result<RequestJob, ErrorText>,
)
    requires
        call_ensures(
            prepare_request,
            (config, did, alias, reason, generate_r_did, resolved),
            r,
        ),
    ensures
        r matches Ok(job) ==> {
            &&& job.respondent@ == did@
            &&& job.reason == reason
            &&& job.rdid_plan is Some <==> generate_r_did
            &&& begins_with(did@, "did:"@)
            &&& !(lookup(old(config).private.relationships@, did@) matches Some(rel) && rel.state
                is Established)
            &&& lookup(final(config).private.contacts.contacts@, did@) is Some
        },
        !begins_with(did@, "did:"@) ==> r is Err && *final(config) == *old(config),
        (lookup(old(config).private.relationships@, did@) matches Some(rel) && rel.state
            is Established) ==> r is Err && *final(config) == *old(config),
        final(config).private.relationships@ == old(config).private.relationships@,
        final(config).private.tasks == old(config).private.tasks,
{
    if request_error(*old(config), did@) is None && contact_error(
        old(config).private.contacts,
        did@,
        alias_given(alias@),
        resolved,
    ) is None {
        let mid = choose|mid: Config|
            #![trigger contact_ensured(*old(config), mid, did@, alias_given(alias@))]
            contact_ensured(*old(config), mid, did@, alias_given(alias@)) && if generate_r_did {
                exists|planned: Result<RDidPlan, ErrorText>|
                    #[trigger] did_planned(mid, *final(config), planned) && match planned {
                        Ok(plan) => r matches Ok(job) && job.respondent@ == did@ && job.reason
                            == reason && job.rdid_plan == Some(plan),
                        Err(e) => r == Err::<RequestJob, ErrorText>(e),
                    }
            } else {
                *final(config) == mid && (r matches Ok(job) && job.respondent@ == did@
                    && job.reason == reason && job.rdid_plan is None)
            };
        if lookup(old(config).private.contacts.contacts@, did@) is None {
            let contacts = mid.private.contacts.contacts@;
            let kept = crate::keyed::without(old(config).private.contacts.contacts@, did@);
            assert(contacts =~= kept.push(contacts.last()));
            crate::keyed::lemma_lookup_push(kept, contacts.last(), did@);
        }
    }
}

/// The two keys of a relationship DID come from the seed along two paths that no
/// earlier DID used, and the next DID gets others.
pub proof fn law_planned_keys_are_the_next_ones(config: &mut Config, r: Result<RDidPlan, ErrorText>)
    requires
        call_ensures(plan_relationship_did, (config,), r),
        old(config).key_backend is Bip32,
        r is Ok,
    ensures
        r->Ok_0 matches RDidPlan::Bip32 { v_path, e_path, v_key, e_key } && v_path@ == "m/3'/1'/1'/"@
            + decimal_view(old(config).private.relationships.path_pointer as nat) + "'"@
            && e_path@ == "m/3'/1'/1'/"@ + decimal_view(
            (old(config).private.relationships.path_pointer + 1) as nat,
        ) + "'"@ && Some(v_key@) == bip32_key(old(config).key_backend->seed@, v_path@) && Some(
            e_key@,
        ) == bip32_key(old(config).key_backend->seed@, e_path@) && v_path@ != e_path@,
        final(config).private.relationships.path_pointer == old(config).private.relationships.path_pointer + 2,
        final(config).private.relationships@ == old(config).private.relationships@,
{
    let n = old(config).private.relationships.path_pointer as int;
    law_key_paths_are_fresh(n, n + 1);
}

/// Of the keys of a relationship DID, the first is the one that verifies and the
/// second the one that decrypts, each under its own id.
pub proof fn law_keys_are_filed_by_purpose(
    plan: RDidPlan,
    r_did: String,
    v: MintedKey,
    e: MintedKey,
    r: CreatedRDid,
)
    requires
        call_ensures(relationship_did_created, (plan, r_did, v, e), r),
    ensures
        r.r_did@ == r_did@,
        r.key_info@.len() == 2,
        r.key_info@[0].id@ == v.id@ && r.key_info@[0].purpose is RelationshipVerification,
        r.key_info@[1].id@ == e.id@ && r.key_info@[1].purpose is RelationshipEncryption,
        plan matches RDidPlan::Bip32 { v_path, e_path, .. } ==> r.key_info@[0].source == (
        KeySource::Derived { path: v_path }) && r.key_info@[1].source == (KeySource::Derived {
            path: e_path,
        }),
        plan is Vta ==> r.key_info@[0].source == (KeySource::VtaManaged { key_id: v.vta_key_id })
            && r.key_info@[1].source == (KeySource::VtaManaged { key_id: e.vta_key_id }),
        clock_read(r.key_info@[0].created) && clock_read(r.key_info@[1].created),
{
}

/// A ping goes over the relationship with the party: from the DID we use there to
/// the one the party uses there, valid for five minutes from now.
pub proof fn law_ping_goes_over_the_relationship(
    config: &Config,
    remote_p_did: &str,
    r: Result<PingJob, ErrorText>,
    rel: Relationship,
)
    requires
        call_ensures(prepare_ping, (config, remote_p_did), r),
        lookup(config.private.relationships@, remote_p_did@) == Some(rel),
    ensures
        r matches Ok(job) && job.envelope.to_did@ == rel.remote_did@ && job.envelope.message@ == (
        OutboundView {
            from: rel.our_did@,
            to: rel.remote_did@,
            thid: None,
            body: BodyView::TrustPing,
        }) && job.remote_p_did@ == remote_p_did@ && exists|t: i64| #[trigger]
            clock_read(t) && (t >= 0 ==> job.envelope.message.created_time == t
                && job.envelope.message.expires_time == Some((t + 300) as u64)),
{
}

/// A ping that was sent awaits its answer: a task of the ping's id stands in the
/// inbox, under the party that was pinged.
pub proof fn law_sent_ping_awaits_its_answer(
    outcome: RelationshipOutcome,
    state: &mut State,
    config: &mut Config,
    save: &mut SaveScheduler,
    host: &Host,
    job: PingJob,
)
    requires
        call_ensures(RelationshipOutcome::apply, (outcome, state, config, save, host), ()),
        outcome == (RelationshipOutcome::Pinged { job, sent: Ok::<(), String>(()) }),
    ensures
        lookup(final(config).private.tasks@, job.envelope.message.id@) matches Some(task) && (
        task.type_ matches TaskType::TrustPing { from, to, remote_p_did } && from@ == job.our_did@
            && to@ == job.remote_did@ && remote_p_did@ == job.remote_p_did@),
        final(config).private.relationships == old(config).private.relationships,
        final(save).dirty,
{
    lemma_task_filed(
        old(config).private.tasks@,
        final(config).private.tasks@,
        job.envelope.message.id@,
        TaskType::TrustPing {
            from: job.our_did,
            to: job.remote_did,
            remote_p_did: job.remote_p_did,
        },
        None,
    );
}

/// A relationship that was removed is gone with the credentials exchanged over it
/// and the contact; other relationships and the inbox stay. It is to be saved.
pub proof fn law_removed_relationship_is_gone(
    outcome: RelationshipOutcome,
    state: &mut State,
    config: &mut Config,
    save: &mut SaveScheduler,
    host: &Host,
    remote_p_did: String,
)
    requires
        call_ensures(RelationshipOutcome::apply, (outcome, state, config, save, host), ()),
        outcome == (RelationshipOutcome::Removed { remote_p_did }),
    ensures
        lookup(final(config).private.relationships@, remote_p_did@) is None,
        lookup(final(config).private.contacts.contacts@, remote_p_did@) is None,
        forall|e: crate::ledger::VrcEntry|
            #[trigger] final(config).private.vrcs_issued.entries@.contains(e) ==> e.remote_p_did@
                != remote_p_did@,
        forall|e: crate::ledger::VrcEntry|
            #[trigger] final(config).private.vrcs_received.entries@.contains(e)
                ==> e.remote_p_did@ != remote_p_did@,
        forall|k: Seq<char>|
            k != remote_p_did@ ==> #[trigger] lookup(final(config).private.relationships@, k)
                == lookup(old(config).private.relationships@, k),
        final(config).private.tasks == old(config).private.tasks,
        final(save).dirty,
{
    law_removal_is_complete(*old(config), *final(config), remote_p_did@);
    crate::keyed::lemma_without(old(config).private.relationships@, remote_p_did@);
}

/// What is asked for on the panel concerns the party that is named: a ping, a
/// request for a credential and a removal are of that party, and a relationship
/// with a DID of its own loses its listener with it.
pub proof fn law_panel_acts_on_the_party_named(
    action: RelationshipAction,
    config: &mut Config,
    state: &mut State,
    save: &mut SaveScheduler,
    resolved: Result<(), String>,
    host: &Host,
    r: RelationshipDispatch,
)
    requires
        call_ensures(dispatch, (action, config, state, save, resolved, host), r),
    ensures
        action matches RelationshipAction::Ping { remote_p_did } ==> {
            if lookup(old(config).private.relationships@, remote_p_did@) is Some {
                &&& r matches RelationshipDispatch::Spawn {
                    job: RelationshipJob::Ping(ping),
                    is_ping,
                }
                &&& is_ping
                &&& ping.remote_p_did@ == remote_p_did@
                &&& ping.envelope.message@.body is TrustPing
                &&& ping.envelope.to_did@ == lookup(
                    old(config).private.relationships@,
                    remote_p_did@,
                )->0.remote_did@
            } else {
                r is Handled
            }
        },
        action matches RelationshipAction::RequestVrc { remote_p_did } ==> {
            if lookup(old(config).private.relationships@, remote_p_did@) is Some {
                &&& r matches RelationshipDispatch::Spawn {
                    job: RelationshipJob::RequestVrc(ask),
                    is_ping,
                }
                &&& !is_ping
                &&& ask.remote_p_did@ == remote_p_did@
                &&& ask.envelope.message@.body is VrcRequest
                &&& ask.envelope.to_did@ == lookup(
                    old(config).private.relationships@,
                    remote_p_did@,
                )->0.remote_did@
            } else {
                r is Handled
            }
        },
        action matches RelationshipAction::Remove { remote_p_did } ==> {
            &&& r matches RelationshipDispatch::Spawn {
                job: RelationshipJob::Remove { remote_p_did: party, listener },
                is_ping,
            }
            &&& party@ == remote_p_did@
            &&& lookup(old(config).private.relationships@, remote_p_did@) matches Some(rel)
                ==> opt_view(listener) == (if old(config).owns_did(rel.our_did@) {
                None
            } else {
                Some(listener_view(rel.our_did@, *old(config)))
            })
        },
        action is Ping || action is RequestVrc || action is Remove ==> *final(config) == *old(config),
        final(config).private.relationships@ == old(config).private.relationships@,
        final(config).private.tasks == old(config).private.tasks,
        final(config).private.vrcs_issued == old(config).private.vrcs_issued,
        final(config).private.vrcs_received == old(config).private.vrcs_received,
{
    if let RelationshipAction::SubmitRequest { did, alias, reason, generate_r_did } = action {
        let prepared = choose|prepared: Result<RequestJob, ErrorText>|
            #[trigger] request_prepared(
                *old(config),
                *final(config),
                did@,
                alias@,
                reason,
                generate_r_did,
                resolved,
                prepared,
            );
        lemma_preparing_keeps_ledger(
            *old(config),
            *final(config),
            did@,
            alias@,
            reason,
            generate_r_did,
            resolved,
            prepared,
        );
    }
}

proof fn lemma_preparing_keeps_ledger(
    old: Config,
    new: Config,
    did: Seq<char>,
    alias: Seq<char>,
    reason: Option<String>,
    generate_r_did: bool,
    resolved: Result<(), String>,
    r: Result<RequestJob, ErrorText>,
)
    requires
        request_prepared(old, new, did, alias, reason, generate_r_did, resolved, r),
    ensures
        new.private.relationships@ == old.private.relationships@,
        new.private.tasks == old.private.tasks,
        new.private.vrcs_issued == old.private.vrcs_issued,
        new.private.vrcs_received == old.private.vrcs_received,
{
}

/// The alias that is entered stands for its party from then on, without the white
/// space around it; where none is entered, the party has none.
pub proof fn law_alias_stands_for_its_party(
    config: &mut Config,
    state: &mut State,
    save: &mut SaveScheduler,
    remote_p_did: &str,
    alias: &str,
    host: &Host,
)
    requires
        call_ensures(
            handle_edit_alias,
            (config, state, save, remote_p_did, alias, host),
            (),
        ),
    ensures
        lookup(final(config).private.contacts.contacts@, remote_p_did@) matches Some(c) && opt_view(
            c.alias,
        ) == (if trimmed(alias@).len() == 0 {
            None
        } else {
            Some(trimmed(alias@))
        }),
        trimmed(alias@).len() > 0 ==> (lookup(
            final(config).private.contacts.aliases@,
            trimmed(alias@),
        ) matches Some(e) && e.did@ == remote_p_did@),
        forall|k: Seq<char>|
            k != remote_p_did@ ==> #[trigger] lookup(final(config).private.contacts.contacts@, k)
                == lookup(old(config).private.contacts.contacts@, k),
        final(config).private.relationships == old(config).private.relationships,
        final(save).dirty,
{
    let was = old(config).private.contacts;
    let is = final(config).private.contacts;
    let given = alias_given(alias@);
    let mid = choose|mid: Contacts|
        #[trigger] contact_dropped(was, mid, remote_p_did@) && contact_stored(
            mid,
            is,
            remote_p_did@,
            given,
        );
    crate::keyed::lemma_without(was.contacts@, remote_p_did@);
    crate::keyed::lemma_without(mid.contacts@, remote_p_did@);
    let kept = crate::keyed::without(mid.contacts@, remote_p_did@);
    let x = is.contacts@.last();
    assert(is.contacts@ =~= kept.push(x));
    crate::keyed::lemma_lookup_push(kept, x, remote_p_did@);
    assert forall|k: Seq<char>| k != remote_p_did@ implies #[trigger] lookup(is.contacts@, k)
        == lookup(was.contacts@, k) by {
        crate::keyed::lemma_lookup_push(kept, x, k);
        assert(lookup(kept, k) == lookup(mid.contacts@, k));
        assert(lookup(mid.contacts@, k) == lookup(was.contacts@, k));
    }
    if let Some(a) = given {
        crate::keyed::lemma_without(mid.aliases@, a);
        let others = crate::keyed::without(mid.aliases@, a);
        let y = is.aliases@.last();
        assert(is.aliases@ =~= others.push(y));
        crate::keyed::lemma_lookup_push(others, y, a);
    }
}

/// A listener goes with a relationship only where the relationship has it to
/// itself; a persona's listener is never taken down with one.
pub proof fn law_persona_listener_survives(
    config: Config,
    party: &str,
    rel: Relationship,
    r: Option<String>,
)
    requires
        call_ensures(listener_to_remove, (&config, party), r),
    ensures
        lookup(config.private.relationships@, party@) is None ==> r is None,
        lookup(config.private.relationships@, party@) == Some(rel) ==> (r is None
            <==> config.owns_did(rel.our_did@)),
{
}

/// Whom a request goes to is looked up exactly where the request can be made and
/// the party is no contact yet.
pub proof fn law_strangers_are_looked_up(
    config: Config,
    action: RelationshipAction,
    r: Option<String>,
)
    requires
        call_ensures(contact_to_resolve, (&config, &action), r),
    ensures
        action !is SubmitRequest ==> r is None,
        r is Some ==> r->0@ == action->SubmitRequest_did@ && lookup(
            config.private.contacts.contacts@,
            r->0@,
        ) is None,
{
}

} // verus!
