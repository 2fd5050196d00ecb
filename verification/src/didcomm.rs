//! Messages, the listeners that carry them, and the events they raise.

use crate::account::{held_by, held_position};
use crate::clock::{clock_read, draw_uuid, is_uuid_text, unix_now, uuid_drawn};
use crate::codec::{short_did_id, short_did_view};
use crate::config::{did_among, Config, Identity};
use crate::display::{truncate_did, truncated};
use crate::ledger::{KeyEntry, PersonaId, Relationship, RelationshipState};
use crate::text::{
    begins_with, cat2, cat3, cat4, chars_of, copy_opt, decimal, decimal_view, opt_view, owned, same,
    starts_with, text_of, texts_view,
};
use vstd::prelude::*;
use vstd::string::StringSliceAdditionalSpecFns;

verus! {

broadcast use crate::clock::lemma_call_reads_clock;

/// How many events may wait to be handled.
pub const DIDCOMM_EVENT_CHANNEL_CAPACITY: usize = 256;

/// How many seconds an ordinary message stays valid: 48 hours.
pub const MESSAGE_LIFETIME: u64 = 172800;

/// How many seconds a ping stays valid.
pub const PING_LIFETIME: u64 = 300;

// ---------------------------------------------------------------------------
// Outgoing messages
// ---------------------------------------------------------------------------

/// What an outgoing message carries.
#[derive(Clone, Debug)]
pub enum OutboundBody {
    RelationshipRequest { reason: Option<String>, did: String, name: Option<String> },
    RelationshipAccept { did: String },
    RelationshipReject { reason: Option<String> },
    RelationshipFinalize,
    VrcRequest { reason: Option<String> },
    VrcReject { reason: Option<String> },
    /// The credential, as JSON text.
    VrcIssued { credential: String },
    TrustPing,
    TrustPong,
}

/// What an outgoing message says.
pub enum BodyView {
    RelationshipRequest { reason: Option<Seq<char>>, did: Seq<char>, name: Option<Seq<char>> },
    RelationshipAccept { did: Seq<char> },
    RelationshipReject { reason: Option<Seq<char>> },
    RelationshipFinalize,
    VrcRequest { reason: Option<Seq<char>> },
    VrcReject { reason: Option<Seq<char>> },
    VrcIssued { credential: Seq<char> },
    TrustPing,
    TrustPong,
}

impl View for OutboundBody {
    type V = BodyView;

    open spec fn view(&self) -> BodyView {
        match *self {
            OutboundBody::RelationshipRequest { reason, did, name } =>
                BodyView::RelationshipRequest {
                reason: opt_view(reason),
                did: did@,
                name: opt_view(name),
            },
            OutboundBody::RelationshipAccept { did } => BodyView::RelationshipAccept { did: did@ },
            OutboundBody::RelationshipReject { reason } => BodyView::RelationshipReject {
                reason: opt_view(reason),
            },
            OutboundBody::RelationshipFinalize => BodyView::RelationshipFinalize,
            OutboundBody::VrcRequest { reason } => BodyView::VrcRequest {
                reason: opt_view(reason),
            },
            OutboundBody::VrcReject { reason } => BodyView::VrcReject { reason: opt_view(reason) },
            OutboundBody::VrcIssued { credential } => BodyView::VrcIssued {
                credential: credential@,
            },
            OutboundBody::TrustPing => BodyView::TrustPing,
            OutboundBody::TrustPong => BodyView::TrustPong,
        }
    }
}

/// An outgoing message.
#[derive(Clone, Debug)]
pub struct OutboundMessage {
    pub id: String,
    pub from: String,
    pub to: String,
    /// The message that it answers.
    pub thid: Option<String>,
    pub body: OutboundBody,
    /// When it was made, in seconds after the Unix epoch.
    pub created_time: u64,
    /// When it is no longer valid.
    pub expires_time: Option<u64>,
}

/// What is fixed about an outgoing message, apart from its id and the time.
pub struct OutboundView {
    pub from: Seq<char>,
    pub to: Seq<char>,
    pub thid: Option<Seq<char>>,
    pub body: BodyView,
}

impl View for OutboundMessage {
    type V = OutboundView;

    open spec fn view(&self) -> OutboundView {
        OutboundView {
            from: self.from@,
            to: self.to@,
            thid: opt_view(self.thid),
            body: self.body@,
        }
    }
}

/// A reading of the clock, in seconds after the Unix epoch; one before the epoch
/// counts as the epoch.
pub open spec fn since_epoch(t: i64) -> u64 {
    if t >= 0 {
        t as u64
    } else {
        0
    }
}

impl OutboundMessage {
    /// It has a fresh id, dates from when it was made, and is valid for so long.
    pub open spec fn stamped(self, lifetime: Option<u64>) -> bool {
        &&& is_uuid_text(self.id@)
        &&& uuid_drawn(self.id@)
        &&& exists|t: i64| #[trigger] clock_read(t) && self.created_time == since_epoch(t)
        &&& match lifetime {
            Some(s) => self.expires_time == Some((self.created_time + s) as u64)
                && self.created_time + s <= u64::MAX,
            None => self.expires_time is None,
        }
    }
}

/// Makes a message, stamped with the time of the machine; a clock set before the
/// epoch counts as the epoch.
fn make_message(
    body: OutboundBody,
    from: &str,
    to: &str,
    thid: Option<String>,
    lifetime: Option<u64>,
) -> (r: OutboundMessage)
    requires
        lifetime matches Some(s) ==> s <= MESSAGE_LIFETIME,
    ensures
        r@ == (OutboundView { from: from@, to: to@, thid: opt_view(thid), body: body@ }),
        r.stamped(lifetime),
{
    let clock: i64 = unix_now();
    let created: u64 = if clock >= 0 {
        clock as u64
    } else {
        0
    };
    OutboundMessage {
        id: draw_uuid(),
        from: owned(from),
        to: owned(to),
        thid,
        body,
        created_time: created,
        expires_time: match lifetime {
            Some(s) => Some(created + s),
            None => None,
        },
    }
}

/// Makes an ordinary message, valid for 48 hours.
pub fn build_didcomm_message(body: OutboundBody, from: &str, to: &str, thid: Option<String>) -> (r:
    OutboundMessage)
    ensures
        r@ == (OutboundView { from: from@, to: to@, thid: opt_view(thid), body: body@ }),
        r.stamped(Some(MESSAGE_LIFETIME)),
{
    make_message(body, from, to, thid, Some(MESSAGE_LIFETIME))
}

/// Makes a ping, valid for five minutes.
pub fn build_trust_ping(from: &str, to: &str) -> (r: OutboundMessage)
    ensures
        r@ == (OutboundView { from: from@, to: to@, thid: None, body: BodyView::TrustPing }),
        r.stamped(Some(PING_LIFETIME)),
{
    make_message(OutboundBody::TrustPing, from, to, None, Some(PING_LIFETIME))
}

/// Makes the answer to a ping.
pub fn build_trust_pong(from: &str, to: &str, ping_id: &str) -> (r: OutboundMessage)
    ensures
        r@ == (OutboundView {
            from: from@,
            to: to@,
            thid: Some(ping_id@),
            body: BodyView::TrustPong,
        }),
        r.stamped(None),
{
    make_message(OutboundBody::TrustPong, from, to, Some(owned(ping_id)), None)
}

/// A message on its way: the listener that sends it, and to whom.
#[derive(Clone, Debug)]
pub struct Envelope {
    pub listener_id: String,
    pub to_did: String,
    pub message: OutboundMessage,
}

// ---------------------------------------------------------------------------
// Listener names
// ---------------------------------------------------------------------------

/// The part of a DID after its last colon.
pub open spec fn did_slug_view(did: Seq<char>) -> Seq<char>
    decreases did.len(),
{
    if did.len() == 0 || did.last() == ':' {
        Seq::empty()
    } else {
        did_slug_view(did.drop_last()).push(did.last())
    }
}

proof fn lemma_did_slug(did: Seq<char>, i: int)
    requires
        0 <= i <= did.len(),
        i > 0 ==> did[i - 1] == ':',
        forall|j: int| i <= j < did.len() ==> did[j] != ':',
    ensures
        did_slug_view(did) == did.skip(i),
    decreases did.len(),
{
    if i == did.len() {
        assert(did.skip(i) =~= Seq::<char>::empty());
        if did.len() > 0 {
            assert(did.last() == ':');
        }
    } else {
        assert(did.last() != ':');
        lemma_did_slug(did.drop_last(), i);
        assert(did.skip(i) =~= did.drop_last().skip(i).push(did.last()));
    }
}

/// The part of a DID after its last colon.
pub fn did_slug(did: &str) -> (r: String)
    ensures
        r@ == did_slug_view(did@),
{
    let v = chars_of(did);
    let mut i: usize = v.len();
    while i > 0 && v[i - 1] != ':'
        invariant
            v@ == did@,
            i <= v.len(),
            forall|j: int| i <= j < v@.len() ==> v@[j] != ':',
        decreases i,
    {
        i = i - 1;
    }
    proof {
        lemma_did_slug(did@, i as int);
        assert(v@.subrange(i as int, v@.len() as int) =~= did@.skip(i as int));
    }
    text_of(&v, i, v.len())
}

/// The name of a persona's listener: the slug of its DID, or a name of its own
/// where the DID has none.
pub open spec fn persona_listener_view(did: Seq<char>) -> Seq<char> {
    if did_slug_view(did).len() == 0 {
        "persona"@
    } else {
        did_slug_view(did)
    }
}

/// The name of a persona's listener.
pub fn persona_listener_id(persona_did: &str) -> (r: String)
    ensures
        r@ == persona_listener_view(persona_did@),
{
    let slug = did_slug(persona_did);
    if slug.as_str().is_empty() {
        owned("persona")
    } else {
        slug
    }
}

/// The name of the listener that sends from a DID.
pub open spec fn listener_view(did: Seq<char>, config: Config) -> Seq<char> {
    if config.owns_did(did) {
        persona_listener_view(did)
    } else {
        "rel-"@ + short_did_view(did)
    }
}

/// The name of the listener that sends from a DID: a persona's, or that of a
/// relationship.
pub fn listener_id_for_did(our_did: &str, config: &Config) -> (r: String)
    ensures
        r@ == listener_view(our_did@, *config),
{
    if config.is_persona_did(our_did) {
        persona_listener_id(our_did)
    } else {
        let short = short_did_id(our_did);
        cat2("rel-", short.as_str())
    }
}

// ---------------------------------------------------------------------------
// Listeners
// ---------------------------------------------------------------------------

/// A listener to be run.
#[derive(Clone, Debug)]
pub struct ListenerConfig {
    pub id: String,
    pub did: String,
    pub mediator: String,
    pub label: String,
    /// The keys that it authenticates with.
    pub key_ids: Vec<String>,
    /// Seconds before the first restart after a failure.
    pub initial_delay_secs: u64,
    /// Seconds before a later one, at most.
    pub max_delay_secs: u64,
    /// Whether handled messages are deleted at the mediator.
    pub auto_delete: bool,
}

/// What a listener is run with.
pub struct ListenerLine {
    pub id: Seq<char>,
    pub did: Seq<char>,
    pub mediator: Seq<char>,
    pub label: Seq<char>,
    pub key_ids: Seq<Seq<char>>,
    pub initial_delay_secs: u64,
    pub max_delay_secs: u64,
    pub auto_delete: bool,
}

impl View for ListenerConfig {
    type V = ListenerLine;

    open spec fn view(&self) -> ListenerLine {
        ListenerLine {
            id: self.id@,
            did: self.did@,
            mediator: self.mediator@,
            label: self.label@,
            key_ids: texts_view(self.key_ids@),
            initial_delay_secs: self.initial_delay_secs,
            max_delay_secs: self.max_delay_secs,
            auto_delete: self.auto_delete,
        }
    }
}

/// What a list of listeners is run with.
pub open spec fn listeners_view(s: Seq<ListenerConfig>) -> Seq<ListenerLine> {
    s.map_values(|l: ListenerConfig| l@)
}

/// A listener: it restarts after a failure, five seconds later at first and a
/// minute at most, and deletes what it has handled.
pub open spec fn listener_line(
    id: Seq<char>,
    did: Seq<char>,
    mediator: Seq<char>,
    label: Seq<char>,
    key_ids: Seq<Seq<char>>,
) -> ListenerLine {
    ListenerLine {
        id,
        did,
        mediator,
        label,
        key_ids,
        initial_delay_secs: 5,
        max_delay_secs: 60,
        auto_delete: true,
    }
}

fn make_listener(id: String, did: &str, mediator: &str, label: String, key_ids: Vec<String>) -> (r:
    ListenerConfig)
    ensures
        r@ == listener_line(id@, did@, mediator@, label@, texts_view(key_ids@)),
{
    ListenerConfig {
        id,
        did: owned(did),
        mediator: owned(mediator),
        label,
        key_ids,
        initial_delay_secs: 5,
        max_delay_secs: 60,
        auto_delete: true,
    }
}

/// The ids of the keys that belong to a DID: those that begin with it.
pub open spec fn keys_of(s: Seq<KeyEntry>, did: Seq<char>) -> Seq<Seq<char>>
    decreases s.len(),
{
    if s.len() == 0 {
        Seq::empty()
    } else if begins_with(s.last().id@, did) {
        keys_of(s.drop_last(), did).push(s.last().id@)
    } else {
        keys_of(s.drop_last(), did)
    }
}

/// The ids of the keys that belong to a DID.
pub fn key_ids_for_did(config: &Config, did: &str) -> (r: Vec<String>)
    ensures
        texts_view(r@) == keys_of(config.key_info@, did@),
{
    let mut out: Vec<String> = Vec::new();
    let mut i: usize = 0;
    let ghost all = config.key_info@;
    assert(texts_view(out@) =~= keys_of(all.take(0), did@));
    while i < config.key_info.len()
        invariant
            all == config.key_info@,
            i <= all.len(),
            texts_view(out@) == keys_of(all.take(i as int), did@),
        decreases all.len() - i,
    {
        assert(all.take(i + 1).drop_last() =~= all.take(i as int));
        if starts_with(config.key_info[i].id.as_str(), did) {
            let ghost before = out@;
            out.push(config.key_info[i].id.clone());
            assert(texts_view(out@) =~= texts_view(before).push(out@.last()@));
        }
        i = i + 1;
    }
    assert(all.take(i as int) =~= all);
    out
}

/// The label of a persona's listener.
pub open spec fn persona_label_view(config: Config, persona: PersonaId) -> Seq<char> {
    match held_by(config.account.personas@, persona) {
        Some(p) => match p.label {
            Some(l) => l@,
            None => "Persona DID"@,
        },
        None => "Persona DID"@,
    }
}

fn persona_label(config: &Config, persona: PersonaId) -> (r: String)
    ensures
        r@ == persona_label_view(*config, persona),
{
    match held_position(&config.account.personas, persona) {
        Some(i) => match &config.account.personas[i].label {
            Some(l) => l.clone(),
            None => owned("Persona DID"),
        },
        None => owned("Persona DID"),
    }
}

/// The listener of an identity.
pub open spec fn persona_line(config: Config, identity: Identity) -> ListenerLine {
    listener_line(
        persona_listener_view(identity.did@),
        identity.did@,
        match identity.mediator_did {
            Some(m) => m@,
            None => config.mediator_view(),
        },
        persona_label_view(config, identity.persona_id),
        keys_of(config.key_info@, identity.did@),
    )
}

fn persona_listener(config: &Config, identity: &Identity) -> (r: ListenerConfig)
    ensures
        r@ == persona_line(*config, *identity),
{
    let mediator = match &identity.mediator_did {
        Some(m) => m.as_str(),
        None => config.mediator_did(),
    };
    make_listener(
        persona_listener_id(identity.did.as_str()),
        identity.did.as_str(),
        mediator,
        persona_label(config, identity.persona_id),
        key_ids_for_did(config, identity.did.as_str()),
    )
}

/// The listener of the active persona; without one, it listens under the
/// stand-in name.
pub fn persona_listener_config(config: &Config) -> (r: ListenerConfig)
    ensures
        r@ == (match config.active() {
            Some(identity) => persona_line(*config, identity),
            None => listener_line(
                persona_listener_view(Seq::empty()),
                Seq::empty(),
                config.mediator_view(),
                "Persona DID"@,
                keys_of(config.key_info@, Seq::empty()),
            ),
        }),
{
    match config.active_identity() {
        Some(identity) => persona_listener(config, identity),
        None => {
            let id = persona_listener_id("");
            let keys = key_ids_for_did(config, "");
            proof {
                reveal_strlit("");
                assert(""@ =~= Seq::<char>::empty());
            }
            make_listener(id, "", config.mediator_did(), owned("Persona DID"), keys)
        },
    }
}

/// The listener of a persona, if it is known.
pub fn persona_listener_config_for(config: &Config, persona: PersonaId) -> (r: Option<
    ListenerConfig,
>)
    ensures
        match held_by(config.identities@, persona) {
            Some(identity) => r matches Some(l) && l@ == persona_line(*config, identity),
            None => r is None,
        },
{
    match held_position(&config.identities, persona) {
        Some(i) => Some(persona_listener(config, &config.identities[i])),
        None => None,
    }
}

/// The listeners of these identities, one for each DID.
pub open spec fn persona_lines(config: Config, s: Seq<Identity>) -> Seq<ListenerLine>
    decreases s.len(),
{
    if s.len() == 0 {
        Seq::empty()
    } else if did_among(s.drop_last(), s.last().did@) {
        persona_lines(config, s.drop_last())
    } else {
        persona_lines(config, s.drop_last()).push(persona_line(config, s.last()))
    }
}

/// The listener of a relationship's own DID.
pub open spec fn relationship_listener_line(
    our_did: Seq<char>,
    remote_p_did: Seq<char>,
    mediator: Seq<char>,
    key_ids: Seq<Seq<char>>,
) -> ListenerLine {
    listener_line(
        "rel-"@ + short_did_view(our_did),
        our_did,
        mediator,
        "R-DID for "@ + truncated(remote_p_did, 32),
        key_ids,
    )
}

/// The listener of a relationship's own DID, with the keys that it has.
pub fn relationship_listener_config_from_secrets(
    our_did: &str,
    remote_p_did: &str,
    mediator_did: &str,
    key_ids: Vec<String>,
) -> (r: ListenerConfig)
    ensures
        r@ == relationship_listener_line(
            our_did@,
            remote_p_did@,
            mediator_did@,
            texts_view(key_ids@),
        ),
{
    let short = short_did_id(our_did);
    let party = truncate_did(remote_p_did, 32);
    make_listener(
        cat2("rel-", short.as_str()),
        our_did,
        mediator_did,
        cat2("R-DID for ", party.as_str()),
        key_ids,
    )
}

/// A relationship that messages may still arrive on.
pub open spec fn is_listened(rel: Relationship) -> bool {
    rel.state is Established || rel.state is RequestSent || rel.state is RequestAccepted
}

/// One of these relationships that messages may arrive on uses this DID.
pub open spec fn listened_among(s: Seq<Relationship>, did: Seq<char>) -> bool {
    exists|i: int|
        0 <= i < s.len() && (#[trigger] s[i]).our_did@ == did && is_listened(s[i])
}

/// Whether the last of these relationships needs a listener of its own: messages
/// may arrive on it, and no persona and no earlier relationship uses its DID.
pub open spec fn needs_listener(config: Config, s: Seq<Relationship>) -> bool {
    &&& is_listened(s.last())
    &&& !did_among(config.identities@, s.last().our_did@)
    &&& !listened_among(s.drop_last(), s.last().our_did@)
}

/// The listeners of these relationships, one for each DID that is no persona's.
pub open spec fn relationship_listener_lines(config: Config, s: Seq<Relationship>) -> Seq<
    ListenerLine,
>
    decreases s.len(),
{
    if s.len() == 0 {
        Seq::empty()
    } else if needs_listener(config, s) {
        relationship_listener_lines(config, s.drop_last()).push(
            relationship_listener_line(
                s.last().our_did@,
                s.last().remote_p_did@,
                config.mediator_view(),
                keys_of(config.key_info@, s.last().our_did@),
            ),
        )
    } else {
        relationship_listener_lines(config, s.drop_last())
    }
}

fn identity_before(v: &Vec<Identity>, n: usize, did: &str) -> (r: bool)
    requires
        n <= v@.len(),
    ensures
        r == did_among(v@.take(n as int), did@),
{
    let mut i: usize = 0;
    while i < n
        invariant
            i <= n <= v@.len(),
            forall|j: int| 0 <= j < i ==> (#[trigger] v@[j]).did@ != did@,
        decreases n - i,
    {
        if same(v[i].did.as_str(), did) {
            assert(v@.take(n as int)[i as int].did@ == did@);
            return true;
        }
        i = i + 1;
    }
    false
}

fn listened_before(v: &Vec<Relationship>, n: usize, did: &str) -> (r: bool)
    requires
        n <= v@.len(),
    ensures
        r == listened_among(v@.take(n as int), did@),
{
    let mut i: usize = 0;
    while i < n
        invariant
            i <= n <= v@.len(),
            forall|j: int|
                0 <= j < i ==> !((#[trigger] v@[j]).our_did@ == did@ && is_listened(v@[j])),
        decreases n - i,
    {
        if listened(&v[i]) && same(v[i].our_did.as_str(), did) {
            assert(v@.take(n as int)[i as int].our_did@ == did@);
            return true;
        }
        i = i + 1;
    }
    false
}

fn listened(rel: &Relationship) -> (r: bool)
    ensures
        r == is_listened(*rel),
{
    match rel.state {
        RelationshipState::Established => true,
        RelationshipState::RequestSent => true,
        RelationshipState::RequestAccepted => true,
        RelationshipState::RequestRejected => false,
    }
}

/// The listeners of a configuration: one for each persona, and one for each DID
/// that a relationship has to itself. No DID is listened on twice.
pub fn build_listener_configs(config: &Config) -> (r: Vec<ListenerConfig>)
    ensures
        listeners_view(r@) == persona_lines(*config, config.identities@)
            + relationship_listener_lines(*config, config.private.relationships@),
{
    let mut out: Vec<ListenerConfig> = Vec::new();
    let ghost people = config.identities@;
    let mut i: usize = 0;
    assert(listeners_view(out@) =~= persona_lines(*config, people.take(0)));
    while i < config.identities.len()
        invariant
            people == config.identities@,
            i <= people.len(),
            listeners_view(out@) == persona_lines(*config, people.take(i as int)),
        decreases people.len() - i,
    {
        assert(people.take(i + 1).drop_last() =~= people.take(i as int));
        let identity = &config.identities[i];
        if !identity_before(&config.identities, i, identity.did.as_str()) {
            let ghost before = out@;
            out.push(persona_listener(config, identity));
            assert(listeners_view(out@) =~= listeners_view(before).push(out@.last()@));
        }
        i = i + 1;
    }
    assert(people.take(i as int) =~= people);
    let ghost head = listeners_view(out@);
    let ghost rels = config.private.relationships@;
    let mut k: usize = 0;
    assert(head + relationship_listener_lines(*config, rels.take(0)) =~= head);
    while k < config.private.relationships.relationships.len()
        invariant
            people == config.identities@,
            rels == config.private.relationships.relationships@,
            k <= rels.len(),
            listeners_view(out@) == head + relationship_listener_lines(
                *config,
                rels.take(k as int),
            ),
        decreases rels.len() - k,
    {
        assert(rels.take(k + 1).drop_last() =~= rels.take(k as int));
        let rel = &config.private.relationships.relationships[k];
        let n: usize = config.identities.len();
        assert(people.take(n as int) =~= people);
        if listened(rel) && !identity_before(&config.identities, n, rel.our_did.as_str())
            && !listened_before(
            &config.private.relationships.relationships,
            k,
            rel.our_did.as_str(),
        ) {
            let ghost before = out@;
            let keys = key_ids_for_did(config, rel.our_did.as_str());
            out.push(
                relationship_listener_config_from_secrets(
                    rel.our_did.as_str(),
                    rel.remote_p_did.as_str(),
                    config.mediator_did(),
                    keys,
                ),
            );
            proof {
                assert(listeners_view(out@) =~= listeners_view(before).push(out@.last()@));
                assert((head + relationship_listener_lines(*config, rels.take(k as int))).push(
                    out@.last()@,
                ) =~= head + relationship_listener_lines(*config, rels.take(k as int)).push(
                    out@.last()@,
                ));
            }
        }
        k = k + 1;
    }
    assert(rels.take(k as int) =~= rels);
    out
}

/// The DIDs that are listened on.
pub open spec fn listened_dids(s: Seq<ListenerLine>) -> Seq<Seq<char>> {
    s.map_values(|l: ListenerLine| l.did)
}

proof fn lemma_persona_dids(config: Config, s: Seq<Identity>)
    ensures
        listened_dids(persona_lines(config, s)).no_duplicates(),
        forall|d: Seq<char>|
            listened_dids(persona_lines(config, s)).contains(d) <==> #[trigger] did_among(s, d),
    decreases s.len(),
{
    let dids = listened_dids(persona_lines(config, s));
    if s.len() > 0 {
        let t = s.drop_last();
        lemma_persona_dids(config, t);
        let before = listened_dids(persona_lines(config, t));
        let last = s.last().did@;
        if did_among(t, last) {
            assert forall|d: Seq<char>| dids.contains(d) <==> #[trigger] did_among(s, d) by {
                assert(did_among(t, d) <==> before.contains(d));
                if did_among(t, d) {
                    let i = choose|i: int| 0 <= i < t.len() && (#[trigger] t[i]).did@ == d;
                    assert(s[i].did@ == d);
                }
                if did_among(s, d) {
                    let i = choose|i: int| 0 <= i < s.len() && (#[trigger] s[i]).did@ == d;
                    if i < t.len() {
                        assert(t[i].did@ == d);
                    }
                }
            }
        } else {
            assert(dids =~= before.push(last));
            assert(!before.contains(last)) by {
                assert(did_among(t, last) <==> before.contains(last));
            }
            assert(dids.no_duplicates()) by {
                assert forall|i: int, j: int|
                    0 <= i < dids.len() && 0 <= j < dids.len() && i != j implies dids[i] != dids[j] by {
                    if i == before.len() {
                        assert(before[j] == dids[j]);
                    } else if j == before.len() {
                        assert(before[i] == dids[i]);
                    } else {
                        assert(before[i] != before[j]);
                    }
                }
            }
            assert forall|d: Seq<char>| dids.contains(d) <==> #[trigger] did_among(s, d) by {
                assert(did_among(t, d) <==> before.contains(d));
                if dids.contains(d) {
                    let k = choose|k: int| 0 <= k < dids.len() && dids[k] == d;
                    if k < before.len() {
                        assert(before[k] == d);
                        let i = choose|i: int| 0 <= i < t.len() && (#[trigger] t[i]).did@ == d;
                        assert(s[i].did@ == d);
                    } else {
                        assert(s[s.len() - 1].did@ == d);
                    }
                }
                if did_among(s, d) {
                    let i = choose|i: int| 0 <= i < s.len() && (#[trigger] s[i]).did@ == d;
                    if i < t.len() {
                        assert(t[i].did@ == d);
                        let k = choose|k: int| 0 <= k < before.len() && before[k] == d;
                        assert(dids[k] == d);
                    } else {
                        assert(dids[before.len() as int] == d);
                    }
                }
            }
        }
    }
}

proof fn lemma_relationship_dids(config: Config, s: Seq<Relationship>)
    ensures
        listened_dids(relationship_listener_lines(config, s)).no_duplicates(),
        forall|d: Seq<char>| #[trigger]
            listened_dids(relationship_listener_lines(config, s)).contains(d) ==> listened_among(
                s,
                d,
            ) && !did_among(config.identities@, d),
    decreases s.len(),
{
    let dids = listened_dids(relationship_listener_lines(config, s));
    if s.len() > 0 {
        let t = s.drop_last();
        lemma_relationship_dids(config, t);
        let before = listened_dids(relationship_listener_lines(config, t));
        let last = s.last().our_did@;
        if needs_listener(config, s) {
            assert(dids =~= before.push(last));
            assert(!before.contains(last));
            assert(dids.no_duplicates()) by {
                assert forall|i: int, j: int|
                    0 <= i < dids.len() && 0 <= j < dids.len() && i != j implies dids[i] != dids[j] by {
                    if i == before.len() {
                        assert(before[j] == dids[j]);
                    } else if j == before.len() {
                        assert(before[i] == dids[i]);
                    } else {
                        assert(before[i] != before[j]);
                    }
                }
            }
        }
        assert forall|d: Seq<char>| #[trigger] dids.contains(d) implies listened_among(s, d)
            && !did_among(config.identities@, d) by {
            let k = choose|k: int| 0 <= k < dids.len() && dids[k] == d;
            if k < before.len() {
                assert(before[k] == d);
                assert(before.contains(d));
                let i = choose|i: int|
                    0 <= i < t.len() && (#[trigger] t[i]).our_did@ == d && is_listened(t[i]);
                assert(s[i].our_did@ == d);
            } else {
                assert(s[s.len() - 1].our_did@ == d);
            }
        }
    }
}

/// No DID is listened on by two listeners, which would make the mediator drop
/// one for the other without end.
pub proof fn law_one_listener_per_did(config: Config)
    ensures
        listened_dids(
            persona_lines(config, config.identities@) + relationship_listener_lines(
                config,
                config.private.relationships@,
            ),
        ).no_duplicates(),
{
    let a = persona_lines(config, config.identities@);
    let b = relationship_listener_lines(config, config.private.relationships@);
    lemma_persona_dids(config, config.identities@);
    lemma_relationship_dids(config, config.private.relationships@);
    let all = listened_dids(a + b);
    assert(all =~= listened_dids(a) + listened_dids(b));
    assert forall|i: int, j: int|
        0 <= i < all.len() && 0 <= j < all.len() && i != j implies all[i] != all[j] by {
        let n = a.len() as int;
        if i < n && j < n {
            assert(listened_dids(a)[i] != listened_dids(a)[j]);
        } else if i >= n && j >= n {
            assert(listened_dids(b)[i - n] != listened_dids(b)[j - n]);
        } else {
            let p = if i < n { i } else { j };
            let q = if i < n { j } else { i };
            assert(listened_dids(a)[p] == all[p]);
            assert(listened_dids(b)[q - n] == all[q]);
            assert(listened_dids(a).contains(all[p]));
            assert(did_among(config.identities@, all[p]));
            assert(listened_dids(b).contains(all[q]));
        }
    }
}

// ---------------------------------------------------------------------------
// Incoming messages
// ---------------------------------------------------------------------------

/// An incoming message.
#[derive(Clone, Debug)]
pub struct InboundMessage {
    pub id: String,
    pub typ: String,
    pub from: Option<String>,
    pub to: Vec<String>,
    pub thid: Option<String>,
    /// The body, as JSON text.
    pub body: String,
}

impl InboundMessage {
    /// A copy of the message.
    pub fn duplicate(&self) -> (r: InboundMessage)
        ensures
            r.id == self.id,
            r.typ == self.typ,
            r.from == self.from,
            r.thid == self.thid,
            r.body == self.body,
            r.to@ == self.to@,
    {
        let mut to: Vec<String> = Vec::new();
        let mut i: usize = 0;
        while i < self.to.len()
            invariant
                i <= self.to@.len(),
                to@ == self.to@.take(i as int),
            decreases self.to@.len() - i,
        {
            to.push(self.to[i].clone());
            assert(self.to@.take(i + 1) =~= self.to@.take(i as int).push(self.to@[i as int]));
            i = i + 1;
        }
        assert(self.to@.take(i as int) =~= self.to@);
        InboundMessage {
            id: self.id.clone(),
            typ: self.typ.clone(),
            from: copy_opt(&self.from),
            to,
            thid: copy_opt(&self.thid),
            body: self.body.clone(),
        }
    }
}

/// An event raised by an incoming message.
#[derive(Clone, Debug)]
pub enum DIDCommEvent {
    /// A message to be processed.
    InboundMessage { message: InboundMessage },
    /// A ping, which is answered only where its sender is known.
    TrustPingReceived { from: Option<String>, listener_id: String, message_id: String },
    /// The answer to a ping.
    TrustPongReceived { from: Option<String> },
}

/// Where a message goes.
#[derive(Clone, Copy, Debug, PartialEq, Eq, Structural)]
pub enum Route {
    TrustPing,
    TrustPong,
    /// The protocols of this program.
    OpenVtc,
    /// The mediator's count of waiting messages, which is dropped.
    PickupStatus,
    /// Anything else, which is dropped.
    Unknown,
}

/// Whether a message type belongs to the protocols of this program.
pub open spec fn is_openvtc_type(typ: Seq<char>) -> bool {
    ||| begins_with(typ, "https://linuxfoundation.org/openvtc/"@)
    ||| begins_with(typ, "https://firstperson.network/"@)
    ||| begins_with(typ, "https://trusttasks.org/openvtc/vtc/"@)
    ||| begins_with(typ, "https://trusttasks.org/spec/credential-exchange/"@)
}

/// Where a message of this type goes.
pub open spec fn route_of(typ: Seq<char>) -> Route {
    if typ == "https://didcomm.org/trust-ping/2.0/ping"@ {
        Route::TrustPing
    } else if typ == "https://didcomm.org/trust-ping/2.0/ping-response"@ {
        Route::TrustPong
    } else if typ == "https://didcomm.org/messagepickup/3.0/status"@ {
        Route::PickupStatus
    } else if is_openvtc_type(typ) {
        Route::OpenVtc
    } else {
        Route::Unknown
    }
}

/// Where a message of this type goes.
pub fn route(typ: &str) -> (r: Route)
    ensures
        r == route_of(typ@),
{
    if same(typ, "https://didcomm.org/trust-ping/2.0/ping") {
        Route::TrustPing
    } else if same(typ, "https://didcomm.org/trust-ping/2.0/ping-response") {
        Route::TrustPong
    } else if same(typ, "https://didcomm.org/messagepickup/3.0/status") {
        Route::PickupStatus
    } else if starts_with(typ, "https://linuxfoundation.org/openvtc/") || starts_with(
        typ,
        "https://firstperson.network/",
    ) || starts_with(typ, "https://trusttasks.org/openvtc/vtc/") || starts_with(
        typ,
        "https://trusttasks.org/spec/credential-exchange/",
    ) {
        Route::OpenVtc
    } else {
        Route::Unknown
    }
}

/// The events that a message raises, in order. A pong raises two: one that
/// closes the task it answers, and one for the log, which is of no use without
/// the first.
pub fn build_events(listener_id: &str, message: InboundMessage) -> (r: Vec<DIDCommEvent>)
    ensures
        match route_of(message.typ@) {
            Route::TrustPing => r@.len() == 1 && (r@[0] matches DIDCommEvent::TrustPingReceived {
                from,
                listener_id: l,
                message_id,
            } && from == message.from && l@ == listener_id@ && message_id == message.id),
            Route::TrustPong => r@.len() == 2 && r@[0] == (DIDCommEvent::InboundMessage {
                message,
            }) && r@[1] == (DIDCommEvent::TrustPongReceived { from: message.from }),
            Route::OpenVtc => r@ == seq![DIDCommEvent::InboundMessage { message }],
            Route::PickupStatus | Route::Unknown => r@.len() == 0,
        },
{
    let mut out: Vec<DIDCommEvent> = Vec::new();
    match route(message.typ.as_str()) {
        Route::TrustPing => {
            out.push(
                DIDCommEvent::TrustPingReceived {
                    from: message.from,
                    listener_id: owned(listener_id),
                    message_id: message.id,
                },
            );
        },
        Route::TrustPong => {
            let from = copy_opt(&message.from);
            out.push(DIDCommEvent::InboundMessage { message });
            out.push(DIDCommEvent::TrustPongReceived { from });
        },
        Route::OpenVtc => {
            out.push(DIDCommEvent::InboundMessage { message });
        },
        Route::PickupStatus | Route::Unknown => {},
    }
    out
}

// ---------------------------------------------------------------------------
// Life of a listener
// ---------------------------------------------------------------------------

/// What came of a reconnection.
#[derive(Clone, Debug)]
pub enum ReconnectOutcome {
    Connected,
    Failed(String),
}

/// What came of a reconnection: the listener could be installed, and it came up
/// in time.
pub fn reconnect_outcome(installed: Result<(), String>, connected: Result<(), String>) -> (r:
    ReconnectOutcome)
    ensures
        r == (match installed {
            Err(e) => ReconnectOutcome::Failed(e),
            Ok(_) => match connected {
                Ok(_) => ReconnectOutcome::Connected,
                Err(e) => ReconnectOutcome::Failed(e),
            },
        }),
{
    match installed {
        Err(e) => ReconnectOutcome::Failed(e),
        Ok(()) => match connected {
            Ok(()) => ReconnectOutcome::Connected,
            Err(e) => ReconnectOutcome::Failed(e),
        },
    }
}

/// What happens to a listener.
#[derive(Clone, Debug)]
pub enum ListenerEvent {
    Connected { listener_id: String },
    Disconnected { listener_id: String, error: Option<String> },
    /// It is about to restart; the delay is given as text.
    Restarting { listener_id: String, attempt: u64, delay: String },
    /// So many events were missed.
    Lagged(u64),
}

/// When each listener was last seen to disconnect.
#[derive(Clone, Debug)]
pub struct LifecycleLog {
    pub disconnects: Vec<Disconnect>,
}

/// A listener's last disconnection.
#[derive(Clone, Debug)]
pub struct Disconnect {
    pub listener_id: String,
    /// In milliseconds.
    pub at: u64,
}

impl crate::keyed::Keyed for Disconnect {
    open spec fn key(self) -> Seq<char> {
        self.listener_id@
    }

    fn key_text(&self) -> &str {
        self.listener_id.as_str()
    }
}

/// Two disconnections of a listener within ten seconds, counted in full seconds.
pub open spec fn is_cycling(log: Seq<Disconnect>, listener_id: Seq<char>, now: u64) -> bool {
    match crate::keyed::lookup(log, listener_id) {
        Some(d) => crate::state::span(d.at, now) < 10000,
        None => false,
    }
}

/// What is logged of an event.
pub open spec fn lifecycle_lines(log: Seq<Disconnect>, ev: ListenerEvent, now: u64) -> Seq<
    Seq<char>,
> {
    match ev {
        ListenerEvent::Connected { listener_id } => seq![
            "Listener '"@ + listener_id@ + "' connected"@,
        ],
        ListenerEvent::Disconnected { listener_id, error } => {
            let line = match error {
                Some(e) => "Listener '"@ + listener_id@ + "' disconnected: "@ + e@,
                None => "Listener '"@ + listener_id@ + "' disconnected"@,
            };
            if is_cycling(log, listener_id@, now) {
                seq![
                    line,
                    "WARNING: Listener '"@ + listener_id@
                        + "' cycling rapidly — possible duplicate connection"@,
                ]
            } else {
                seq![line]
            }
        },
        ListenerEvent::Restarting { listener_id, attempt, delay } => seq![
            "Listener '"@ + listener_id@ + "' restarting (attempt "@ + decimal_view(attempt as nat)
                + ", backoff "@ + delay@ + ")"@,
        ],
        ListenerEvent::Lagged(n) => seq![
            "Missed "@ + decimal_view(n as nat) + " lifecycle event(s)"@,
        ],
    }
}

impl LifecycleLog {
    /// Nothing seen yet.
    pub fn new() -> (r: LifecycleLog)
        ensures
            r.disconnects@.len() == 0,
    {
        LifecycleLog { disconnects: Vec::new() }
    }

    /// What to log of an event. A listener that disconnects again and again in a
    /// short time calls for a warning.
    pub fn lines(&mut self, ev: &ListenerEvent, now: u64) -> (r: Vec<String>)
        ensures
            texts_view(r@) == lifecycle_lines(old(self).disconnects@, *ev, now),
            match *ev {
                ListenerEvent::Disconnected { listener_id, .. } => {
                    let kept = crate::keyed::without(old(self).disconnects@, listener_id@);
                    &&& final(self).disconnects@.len() == kept.len() + 1
                    &&& final(self).disconnects@.drop_last() == kept
                    &&& final(self).disconnects@.last().listener_id@ == listener_id@
                    &&& final(self).disconnects@.last().at == now
                },
                _ => final(self).disconnects@ == old(self).disconnects@,
            },
    {
        let mut out: Vec<String> = Vec::new();
        match ev {
            ListenerEvent::Connected { listener_id } => {
                out.push(cat3("Listener '", listener_id.as_str(), "' connected"));
            },
            ListenerEvent::Disconnected { listener_id, error } => {
                match error {
                    Some(e) => {
                        out.push(
                            cat4(
                                "Listener '",
                                listener_id.as_str(),
                                "' disconnected: ",
                                e.as_str(),
                            ),
                        );
                    },
                    None => {
                        out.push(cat3("Listener '", listener_id.as_str(), "' disconnected"));
                    },
                }
                let cycling = match crate::keyed::find(&self.disconnects, listener_id.as_str()) {
                    Some(d) => now <= d.at || now - d.at < 10000,
                    None => false,
                };
                if cycling {
                    out.push(
                        cat3(
                            "WARNING: Listener '",
                            listener_id.as_str(),
                            "' cycling rapidly — possible duplicate connection",
                        ),
                    );
                }
                crate::keyed::put(
                    &mut self.disconnects,
                    Disconnect { listener_id: listener_id.clone(), at: now },
                );
                assert(self.disconnects@.drop_last() =~= crate::keyed::without(
                    old(self).disconnects@,
                    listener_id@,
                ));
            },
            ListenerEvent::Restarting { listener_id, attempt, delay } => {
                let n = decimal(*attempt);
                let head = cat4("Listener '", listener_id.as_str(), "' restarting (attempt ", n.as_str());
                out.push(cat4(head.as_str(), ", backoff ", delay.as_str(), ")"));
            },
            ListenerEvent::Lagged(n) => {
                let n = decimal(*n);
                out.push(cat3("Missed ", n.as_str(), " lifecycle event(s)"));
            },
        }
        assert(texts_view(out@) =~= lifecycle_lines(old(self).disconnects@, *ev, now));
        out
    }
}

/// A message dates from the moment it is made: its creation is the reading of the
/// clock taken then, or the epoch for a clock set before it, and it expires its
/// lifetime later, so that it has not expired when it is made. Its id was drawn
/// for it.
pub proof fn law_message_is_dated_when_made(
    body: OutboundBody,
    from: &str,
    to: &str,
    thid: Option<String>,
    m: OutboundMessage,
)
    requires
        call_ensures(build_didcomm_message, (body, from, to, thid), m),
    ensures
        m.from@ == from@ && m.to@ == to@ && m.body@ == body@ && opt_view(m.thid) == opt_view(thid),
        exists|t: i64| #[trigger]
            clock_read(t) && (t >= 0 ==> m.created_time == t && m.expires_time == Some(
                (t + 172800) as u64,
            ) && m.expires_time->0 > t) && (t < 0 ==> m.created_time == 0),
        uuid_drawn(m.id@),
{
}

/// A ping dates from the moment it is made and expires five minutes later; the
/// answer to one belongs to its thread, dates from the moment it is made and does
/// not expire.
pub proof fn law_pings_are_dated_when_made(
    from: &str,
    to: &str,
    ping: OutboundMessage,
    ping_id: &str,
    pong: OutboundMessage,
)
    requires
        call_ensures(build_trust_ping, (from, to), ping),
        call_ensures(build_trust_pong, (from, to, ping_id), pong),
    ensures
        ping.from@ == from@ && ping.to@ == to@ && ping.body is TrustPing && ping.thid is None,
        exists|t: i64| #[trigger]
            clock_read(t) && (t >= 0 ==> ping.created_time == t && ping.expires_time == Some(
                (t + 300) as u64,
            ) && ping.expires_time->0 > t) && (t < 0 ==> ping.created_time == 0),
        pong.from@ == from@ && pong.to@ == to@ && pong.body is TrustPong,
        opt_view(pong.thid) == Some(ping_id@),
        exists|t: i64| #[trigger]
            clock_read(t) && (t >= 0 ==> pong.created_time == t) && pong.expires_time is None,
        uuid_drawn(ping.id@) && uuid_drawn(pong.id@),
{
}

/// Every persona is listened for, and so is every relationship that is asked for,
/// accepted or established; nothing else is, and no DID is listened on twice.
pub proof fn law_every_did_in_use_is_listened_on(
    config: Config,
    r: Vec<ListenerConfig>,
    i: int,
    j: int,
    k: int,
)
    requires
        call_ensures(build_listener_configs, (&config,), r),
    ensures
        0 <= i < config.identities@.len() ==> exists|n: int|
            0 <= n < r@.len() && (#[trigger] r@[n]).did@ == config.identities@[i].did@,
        0 <= j < config.private.relationships@.len() ==> {
            let rel = config.private.relationships@[j];
            rel.state !is RequestRejected ==> exists|n: int|
                0 <= n < r@.len() && (#[trigger] r@[n]).did@ == rel.our_did@
        },
        0 <= k < r@.len() ==> (exists|n: int|
            0 <= n < config.identities@.len() && (#[trigger] config.identities@[n]).did@
                == r@[k].did@) || (exists|n: int|
            0 <= n < config.private.relationships@.len() && (
            #[trigger] config.private.relationships@[n]).our_did@ == r@[k].did@
                && config.private.relationships@[n].state !is RequestRejected),
        0 <= i < k < r@.len() ==> r@[i].did@ != r@[k].did@,
{
    let a = persona_lines(config, config.identities@);
    let rels = config.private.relationships@;
    let b = relationship_listener_lines(config, rels);
    let all = listened_dids(a + b);
    law_one_listener_per_did(config);
    lemma_persona_dids(config, config.identities@);
    lemma_relationship_dids(config, rels);
    assert(all =~= listened_dids(a) + listened_dids(b));
    assert(listeners_view(r@).len() == r@.len());
    assert(all.len() == r@.len());
    assert forall|n: int| 0 <= n < r@.len() implies all[n] == (#[trigger] r@[n]).did@ by {
        assert(listeners_view(r@)[n] == r@[n]@);
    }
    if 0 <= i < config.identities@.len() {
        let d = config.identities@[i].did@;
        assert(did_among(config.identities@, d));
        assert(listened_dids(a).contains(d));
        let n = choose|n: int| 0 <= n < listened_dids(a).len() && listened_dids(a)[n] == d;
        assert(all[n] == d);
        assert(r@[n].did@ == d);
    }
    if 0 <= j < rels.len() && rels[j].state !is RequestRejected {
        let d = rels[j].our_did@;
        if did_among(config.identities@, d) {
            assert(listened_dids(a).contains(d));
            let n = choose|n: int| 0 <= n < listened_dids(a).len() && listened_dids(a)[n] == d;
            assert(all[n] == d);
            assert(r@[n].did@ == d);
        } else {
            lemma_listened_has_line(config, rels, j);
            let n = choose|n: int| 0 <= n < listened_dids(b).len() && listened_dids(b)[n] == d;
            assert(all[a.len() + n] == d);
            assert(r@[a.len() + n].did@ == d);
        }
    }
    if 0 <= k < r@.len() {
        let d = r@[k].did@;
        assert(all[k] == d);
        if k < a.len() {
            assert(listened_dids(a)[k] == d);
            assert(listened_dids(a).contains(d));
            assert(did_among(config.identities@, d));
        } else {
            assert(listened_dids(b)[k - a.len()] == d);
            assert(listened_dids(b).contains(d));
            assert(listened_among(rels, d));
        }
        if 0 <= i < k {
            assert(all[i] == r@[i].did@);
            assert(all[i] != all[k]);
        }
    }
}

proof fn lemma_listened_has_line(config: Config, s: Seq<Relationship>, i: int)
    requires
        0 <= i < s.len(),
        is_listened(s[i]),
        !did_among(config.identities@, s[i].our_did@),
    ensures
        listened_dids(relationship_listener_lines(config, s)).contains(s[i].our_did@),
    decreases s.len(),
{
    let d = s[i].our_did@;
    let t = s.drop_last();
    let before = relationship_listener_lines(config, t);
    let now = relationship_listener_lines(config, s);
    if i < t.len() {
        lemma_listened_has_line(config, t, i);
        let n = choose|n: int| 0 <= n < listened_dids(before).len() && listened_dids(before)[n] == d;
        assert(listened_dids(now)[n] == d);
    } else if needs_listener(config, s) {
        assert(listened_dids(now)[before.len() as int] == d);
    } else {
        assert(listened_among(t, d));
        let j = choose|j: int|
            0 <= j < t.len() && (#[trigger] t[j]).our_did@ == d && is_listened(t[j]);
        lemma_listened_has_line(config, t, j);
    }
}

/// A persona's listener runs under its own DID, at its own mediator, with the keys
/// whose ids begin with that DID, all of them and no others.
pub proof fn law_listener_is_the_personas_own(
    config: Config,
    persona: PersonaId,
    identity: Identity,
    r: Option<ListenerConfig>,
    k: int,
    n: int,
)
    requires
        call_ensures(persona_listener_config_for, (&config, persona), r),
        held_by(config.identities@, persona) == Some(identity),
    ensures
        r is Some,
        r->0.did@ == identity.did@,
        identity.mediator_did is Some ==> r->0.mediator@ == identity.mediator_did->0@,
        identity.mediator_did is None ==> r->0.mediator@ == config.mediator_view(),
        0 <= k < r->0.key_ids@.len() ==> begins_with(r->0.key_ids@[k]@, identity.did@),
        0 <= n < config.key_info@.len() && begins_with(config.key_info@[n].id@, identity.did@)
            ==> exists|j: int|
            0 <= j < r->0.key_ids@.len() && (#[trigger] r->0.key_ids@[j])@
                == config.key_info@[n].id@,
        0 < r->0.initial_delay_secs <= r->0.max_delay_secs,
{
    let l = r->0;
    let ids = keys_of(config.key_info@, identity.did@);
    assert(texts_view(l.key_ids@) == ids);
    assert(texts_view(l.key_ids@).len() == l.key_ids@.len());
    if 0 <= k < l.key_ids@.len() {
        lemma_keys_of(config.key_info@, identity.did@, k, 0);
        assert(texts_view(l.key_ids@)[k] == l.key_ids@[k]@);
    }
    if 0 <= n < config.key_info@.len() && begins_with(config.key_info@[n].id@, identity.did@) {
        lemma_keys_of(config.key_info@, identity.did@, -1, n);
        let id = config.key_info@[n].id@;
        let j = choose|j: int| 0 <= j < ids.len() && ids[j] == id;
        assert(texts_view(l.key_ids@)[j] == l.key_ids@[j]@);
    }
}

proof fn lemma_keys_of(s: Seq<KeyEntry>, did: Seq<char>, k: int, n: int)
    ensures
        0 <= k < keys_of(s, did).len() ==> begins_with(keys_of(s, did)[k], did),
        0 <= n < s.len() && begins_with(s[n].id@, did) ==> keys_of(s, did).contains(s[n].id@),
    decreases s.len(),
{
    if s.len() > 0 {
        let t = s.drop_last();
        lemma_keys_of(t, did, k, n);
        let ids = keys_of(s, did);
        let before = keys_of(t, did);
        if 0 <= n < s.len() && begins_with(s[n].id@, did) {
            if n < t.len() {
                assert(before.contains(t[n].id@));
                let j = choose|j: int| 0 <= j < before.len() && before[j] == t[n].id@;
                assert(ids[j] == s[n].id@);
            } else {
                assert(ids[before.len() as int] == s[n].id@);
            }
        }
    }
}

/// The name that a persona's listener has from its DID is what stands after the
/// last colon.
pub proof fn law_slug_stands_after_the_last_colon(did: &str, r: String)
    requires
        call_ensures(did_slug, (did,), r),
    ensures
        forall|i: int| 0 <= i < r@.len() ==> #[trigger] r@[i] != ':',
        r@.len() <= did@.len(),
        did@.skip(did@.len() - r@.len()) == r@,
        r@.len() < did@.len() ==> did@[did@.len() - r@.len() - 1] == ':',
{
    lemma_slug_is_tail(did@);
}

proof fn lemma_slug_is_tail(did: Seq<char>)
    ensures
        ({
            let r = did_slug_view(did);
            &&& forall|i: int| 0 <= i < r.len() ==> #[trigger] r[i] != ':'
            &&& r.len() <= did.len()
            &&& did.skip(did.len() - r.len()) == r
            &&& r.len() < did.len() ==> did[did.len() - r.len() - 1] == ':'
        }),
    decreases did.len(),
{
    if did.len() > 0 && did.last() != ':' {
        let t = did.drop_last();
        lemma_slug_is_tail(t);
        let r = did_slug_view(did);
        assert(did.skip(did.len() - r.len()) =~= t.skip(t.len() - (r.len() - 1)).push(did.last()));
    } else {
        assert(did.skip(did.len() as int) =~= Seq::<char>::empty());
    }
}

/// A message of this program's protocols is processed as it came, once; a ping
/// carries on who sent it, over which listener and under which id; and a pong both
/// closes its task and is logged.
pub proof fn law_messages_reach_their_handler(
    listener_id: &str,
    message: InboundMessage,
    r: Vec<DIDCommEvent>,
)
    requires
        call_ensures(build_events, (listener_id, message), r),
    ensures
        begins_with(message.typ@, "https://linuxfoundation.org/openvtc/"@) || begins_with(
            message.typ@,
            "https://firstperson.network/"@,
        ) || begins_with(message.typ@, "https://trusttasks.org/openvtc/vtc/"@) || begins_with(
            message.typ@,
            "https://trusttasks.org/spec/credential-exchange/"@,
        ) ==> r@ == seq![DIDCommEvent::InboundMessage { message }],
        message.typ@ == "https://didcomm.org/trust-ping/2.0/ping"@ ==> r@.len() == 1 && (
        r@[0] matches DIDCommEvent::TrustPingReceived { from, listener_id: l, message_id } && from
            == message.from && l@ == listener_id@ && message_id == message.id),
        message.typ@ == "https://didcomm.org/trust-ping/2.0/ping-response"@ ==> r@ == seq![
            DIDCommEvent::InboundMessage { message },
            DIDCommEvent::TrustPongReceived { from: message.from },
        ],
        message.typ@ == "https://didcomm.org/messagepickup/3.0/status"@ ==> r@.len() == 0,
{
    reveal_strlit("https://linuxfoundation.org/openvtc/");
    reveal_strlit("https://firstperson.network/");
    reveal_strlit("https://trusttasks.org/openvtc/vtc/");
    reveal_strlit("https://trusttasks.org/spec/credential-exchange/");
    reveal_strlit("https://didcomm.org/trust-ping/2.0/ping");
    reveal_strlit("https://didcomm.org/trust-ping/2.0/ping-response");
    reveal_strlit("https://didcomm.org/messagepickup/3.0/status");
    let t = message.typ@;
    assert("https://didcomm.org/trust-ping/2.0/ping"@[8] == 'd');
    assert("https://didcomm.org/trust-ping/2.0/ping-response"@[8] == 'd');
    assert("https://didcomm.org/messagepickup/3.0/status"@[8] == 'd');
    assert("https://didcomm.org/trust-ping/2.0/ping"@.len() == 39);
    assert("https://didcomm.org/trust-ping/2.0/ping-response"@.len() == 48);
    assert("https://didcomm.org/messagepickup/3.0/status"@[20] == 'm');
    assert("https://didcomm.org/trust-ping/2.0/ping"@[20] == 't');
    assert("https://didcomm.org/trust-ping/2.0/ping-response"@[20] == 't');
    if begins_with(t, "https://linuxfoundation.org/openvtc/"@) {
        assert(t.subrange(0, 36)[8] == "https://linuxfoundation.org/openvtc/"@[8]);
        assert(t[8] == 'l');
    }
    if begins_with(t, "https://firstperson.network/"@) {
        assert(t.subrange(0, 28)[8] == "https://firstperson.network/"@[8]);
        assert(t[8] == 'f');
    }
    if begins_with(t, "https://trusttasks.org/openvtc/vtc/"@) {
        assert(t.subrange(0, 35)[8] == "https://trusttasks.org/openvtc/vtc/"@[8]);
        assert(t[8] == 't');
    }
    if begins_with(t, "https://trusttasks.org/spec/credential-exchange/"@) {
        assert(t.subrange(0, 48)[8] == "https://trusttasks.org/spec/credential-exchange/"@[8]);
        assert(t[8] == 't');
    }
}

/// A reconnection succeeded exactly if the listener was installed and came up.
pub proof fn law_reconnected_means_up(
    installed: Result<(), String>,
    connected: Result<(), String>,
    r: ReconnectOutcome,
)
    requires
        call_ensures(reconnect_outcome, (installed, connected), r),
    ensures
        r is Connected <==> installed is Ok && connected is Ok,
        installed matches Err(e) ==> r == ReconnectOutcome::Failed(e),
{
}

/// A listener that disconnects again within ten seconds calls for a warning, and
/// one that stayed up longer does not.
pub proof fn law_rapid_disconnects_are_warned_of(
    log: &mut LifecycleLog,
    again: &mut LifecycleLog,
    ev: ListenerEvent,
    first: u64,
    second: u64,
    a: Vec<String>,
    b: Vec<String>,
)
    requires
        ev is Disconnected,
        first <= second,
        call_ensures(LifecycleLog::lines, (log, &ev, first), a),
        *old(again) == *final(log),
        call_ensures(LifecycleLog::lines, (again, &ev, second), b),
    ensures
        second - first < 10000 ==> b@.len() == 2,
        second - first >= 10000 ==> b@.len() == 1,
{
    let id = ev->Disconnected_listener_id@;
    let kept = crate::keyed::without(old(log).disconnects@, id);
    let d = final(log).disconnects@.last();
    assert(final(log).disconnects@ =~= kept.push(d));
    crate::keyed::lemma_without(old(log).disconnects@, id);
    crate::keyed::law_stored_entry_is_found(old(log).disconnects@, d);
    assert(texts_view(b@).len() == b@.len());
}

} // verus!
