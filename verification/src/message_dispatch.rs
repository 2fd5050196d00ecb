//! What becomes of an incoming message.
//!
//! What needs no decision is settled at once; what needs one becomes a task of
//! the inbox.

use crate::account::{
    lemma_membership_found, membership_at, persona_with_did, Account, CommunityRecord,
    CommunityStatus,
};
use crate::clock::{clock_read, read_clock};
use crate::config::{Config, ProtectedConfig, PublicConfig};
use crate::didcomm::{
    build_didcomm_message, listener_id_for_did, listener_view, BodyView, Envelope, InboundMessage,
    OutboundBody, OutboundView, MESSAGE_LIFETIME,
};
use crate::json::{json_compact, json_compact_of};
use crate::keyed::{
    distinct_keys, key_at, lemma_key_at, lemma_lookup_at, lemma_without, lookup, position, without,
    Keyed,
};
use crate::ledger::{
    by_remote_did, lemma_remote_did_found, lemma_task_filed, lemma_task_position,
    lemma_task_position_holds, other_remote, task_filed, task_position, LogFamily, PersonaId,
    Relationship, RelationshipRequest, RelationshipState, Task, TaskType, Vrc,
};
use crate::main_page::ErrorText;
use crate::text::{cat3, cat4, opt_view, owned, same};
use vstd::prelude::*;
use vstd::string::StringSliceAdditionalSpecFns;

verus! {

/// How many bytes a message's body may have.
pub const MAX_MESSAGE_BODY_SIZE: usize = 1048576;

/// How many relationships there may be before requests are turned down.
pub const MAX_RELATIONSHIPS: usize = 5000;

// ---------------------------------------------------------------------------
// What is known of a message
// ---------------------------------------------------------------------------

/// What was found out about a message before it is looked into.
#[derive(Clone, Copy, Debug)]
pub struct Verdict {
    /// It is recent enough to be acted on.
    pub fresh: bool,
    /// A message with its id was handled before.
    pub replayed: bool,
    /// How many tasks the inbox may hold.
    pub max_tasks: usize,
}

/// The answer to our request for a relationship.
#[derive(Clone, Debug)]
pub struct AcceptBody {
    pub did: String,
    /// Whether that is a proper DID.
    pub did_valid: bool,
}

/// A request for a relationship.
#[derive(Clone, Debug)]
pub struct RequestBody {
    pub request: RelationshipRequest,
    /// Whether its DID is a proper one.
    pub did_valid: bool,
}

/// A credential that was issued to us over a relationship.
#[derive(Clone, Debug)]
pub struct IssuedBody {
    pub vrc: Vrc,
    /// Whether its proof holds.
    pub proof_valid: bool,
}

/// What a credential issued by a community certifies.
#[derive(Clone, Copy, Debug, PartialEq, Eq, Structural)]
pub enum IssuedKind {
    Membership,
    Role,
    Other,
}

/// A message by its type, with its body where it could be read; where not, with
/// the error.
#[derive(Debug)]
pub enum InboundKind {
    /// A community received our request to join, under this id.
    JoinReceipt { request_id: String },
    /// A community issued a credential, given as JSON text.
    CredentialIssue { kind: IssuedKind, credential: String },
    RelationshipRejected { reason: Result<Option<String>, String> },
    RelationshipAccepted { body: Result<AcceptBody, String> },
    RelationshipFinalize,
    TrustPong,
    VrcRejected { reason: Result<Option<String>, String> },
    RelationshipRequest { body: Result<RequestBody, String> },
    VrcRequest { reason: Result<Option<String>, String> },
    VrcIssued { body: Result<IssuedBody, String> },
    TrustPing,
    /// Anything else.
    Unknown,
}

/// What is left to be done after a message.
#[derive(Clone, Debug)]
pub struct InboundOutcome {
    /// The configuration changed.
    pub changed: bool,
    /// A listener that is no longer needed.
    pub remove_listener: Option<String>,
    /// An answer to be sent.
    pub send: Option<Envelope>,
}

impl InboundOutcome {
    /// Nothing is left to be done but, where it changed, to save the
    /// configuration.
    pub open spec fn quiet(self, changed: bool) -> bool {
        &&& self.changed == changed
        &&& self.remove_listener is None
        &&& self.send is None
    }
}

fn quiet(changed: bool) -> (r: InboundOutcome)
    ensures
        r.quiet(changed),
{
    InboundOutcome { changed, remove_listener: None, send: None }
}

/// What processing a message comes to.
pub type Processed = Result<InboundOutcome, ErrorText>;

/// The message has no effect.
pub open spec fn ignored(old: Config, new: Config, r: Processed) -> bool {
    &&& r matches Ok(o) && o.quiet(false)
    &&& new == old
}

/// The message is in error, and has no effect.
pub open spec fn refused(old: Config, new: Config, r: Processed, why: Seq<char>) -> bool {
    &&& r matches Err(e) && e.says(why)
    &&& new == old
}

/// The error of a message that belongs to no thread.
pub open spec fn no_thread() -> Seq<char> {
    "message has no thread id"@
}

// ---------------------------------------------------------------------------
// First look
// ---------------------------------------------------------------------------

/// What the first look at a message says.
pub enum Gate {
    /// Drop it.
    Drop,
    /// It is the answer to a ping, from a sender that does not say who it is.
    NamelessPong,
    /// Look into it.
    Pass,
}

/// The body, printed as JSON, is larger than allowed.
pub open spec fn oversized(body: Seq<char>) -> bool {
    match json_compact(body) {
        Some(t) => vstd::utf8::encode_utf8(t).len() > MAX_MESSAGE_BODY_SIZE,
        None => false,
    }
}

/// The first look: old messages, repeated ones, nameless ones and those with too
/// large a body are dropped.
pub open spec fn gate(message: InboundMessage, verdict: Verdict) -> Gate {
    if !verdict.fresh || verdict.replayed {
        Gate::Drop
    } else if message.from is None {
        if message.typ@ == "https://didcomm.org/trust-ping/2.0/ping-response"@ {
            Gate::NamelessPong
        } else {
            Gate::Drop
        }
    } else if oversized(message.body@) {
        Gate::Drop
    } else {
        Gate::Pass
    }
}

fn too_large(body: &str) -> (r: bool)
    ensures
        r == oversized(body@),
{
    match json_compact_of(body) {
        Some(t) => t.as_str().as_bytes().len() > MAX_MESSAGE_BODY_SIZE,
        None => false,
    }
}

/// The first of these DIDs that is a persona's.
pub open spec fn first_owned(config: Config, to: Seq<String>) -> Option<Seq<char>>
    decreases to.len(),
{
    if to.len() == 0 {
        None
    } else if config.owns_did(to[0]@) {
        Some(to[0]@)
    } else {
        first_owned(config, to.skip(1))
    }
}

/// The persona DID that a message is addressed to, or the active one.
pub open spec fn recipient_view(config: Config, message: InboundMessage) -> Seq<char> {
    match first_owned(config, message.to@) {
        Some(d) => d,
        None => config.persona_did_view(),
    }
}

/// The persona that a message is addressed to.
pub open spec fn recipient_persona(config: Config, message: InboundMessage) -> Option<PersonaId> {
    match persona_with_did(config.account.personas@, recipient_view(config, message)) {
        Some(p) => Some(p.persona_id),
        None => None,
    }
}

fn recipient(config: &Config, message: &InboundMessage) -> (r: String)
    ensures
        r@ == recipient_view(*config, *message),
{
    let mut i: usize = 0;
    assert(message.to@.skip(0) =~= message.to@);
    while i < message.to.len()
        invariant
            i <= message.to@.len(),
            first_owned(*config, message.to@) == first_owned(*config, message.to@.skip(i as int)),
        decreases message.to@.len() - i,
    {
        assert(message.to@.skip(i as int)[0] == message.to@[i as int]);
        assert(message.to@.skip(i as int).skip(1) =~= message.to@.skip(i + 1));
        if config.is_persona_did(message.to[i].as_str()) {
            return message.to[i].clone();
        }
        i = i + 1;
    }
    owned(config.persona_did())
}

/// A party that we have, or are about to have, a relationship with.
pub open spec fn known_party(config: Config, did: Seq<char>) -> bool {
    lookup(config.private.relationships@, did) is Some || by_remote_did(
        config.private.relationships@,
        did,
    ) is Some
}

fn is_known(config: &Config, did: &str) -> (r: bool)
    ensures
        r == known_party(*config, did@),
{
    config.private.relationships.get(did).is_some()
        || config.private.relationships.find_by_remote_did(did).is_some()
}

/// The first DID that a message is addressed to.
pub open spec fn first_to(message: InboundMessage) -> Seq<char> {
    if message.to@.len() == 0 {
        Seq::empty()
    } else {
        message.to@[0]@
    }
}

fn first_addressee(message: &InboundMessage) -> (r: String)
    ensures
        r@ == first_to(*message),
{
    if message.to.len() == 0 {
        String::new()
    } else {
        message.to[0].clone()
    }
}

/// A reason, or a word for none.
pub open spec fn reason_view(reason: Option<String>) -> Seq<char> {
    match reason {
        Some(s) => s@,
        None => "none"@,
    }
}

/// A reason, or a word for none.
pub fn reason_text(reason: &Option<String>) -> (r: String)
    ensures
        r@ == reason_view(*reason),
{
    match reason {
        Some(s) => s.clone(),
        None => owned("none"),
    }
}

// ---------------------------------------------------------------------------
// Effects
// ---------------------------------------------------------------------------

/// `new` is `old` but for its inbox and its log, which has one line more.
pub open spec fn inbox_changed(
    old: Config,
    new: Config,
    family: LogFamily,
    line: Seq<char>,
) -> bool {
    &&& new == (Config {
        public: PublicConfig { logs: new.public.logs, ..old.public },
        private: ProtectedConfig { tasks: new.private.tasks, ..old.private },
        ..old
    })
    &&& new.public.logs@ == old.public.logs@.push((family, line))
}

/// The inbox holds the task that is named.
pub open spec fn holds_task(config: Config, task: Option<String>) -> bool {
    task matches Some(id) && lookup(config.private.tasks@, id@) is Some
}

/// The task that is named left the inbox, and nothing else happened; where the
/// inbox holds no such task, nothing at all.
pub open spec fn task_closed(old: Config, new: Config, task: Option<String>, r: Processed) -> bool {
    if holds_task(old, task) {
        &&& r matches Ok(o) && o.quiet(true)
        &&& new == (Config {
            private: ProtectedConfig { tasks: new.private.tasks, ..old.private },
            ..old
        })
        &&& new.private.tasks@ == without(old.private.tasks@, task->0@)
    } else {
        ignored(old, new, r)
    }
}

fn close_task(config: &mut Config, task: &Option<String>) -> (r: Processed)
    ensures
        task_closed(*old(config), *final(config), *task, r),
{
    if let Some(id) = task {
        if config.private.tasks.get_by_id(id.as_str()).is_some() {
            let _ = config.private.tasks.remove(id.as_str());
            return Ok(quiet(true));
        }
    }
    Ok(quiet(false))
}

/// Our request for a relationship was turned down: the relationship it was to
/// become goes, with what was filed under it, and so does the task.
pub open spec fn rejected_effect(
    old: Config,
    new: Config,
    thid: Seq<char>,
    from: Seq<char>,
    reason: Option<String>,
    r: Processed,
) -> bool {
    let rels = old.private.relationships@;
    if !known_party(old, from) {
        ignored(old, new, r)
    } else {
        &&& r matches Ok(o) && o.changed && o.send is None && opt_view(o.remove_listener) == (
        match task_position(rels, thid) {
            Some(i) => if old.owns_did(rels[i].our_did@) {
                None
            } else {
                Some(listener_view(rels[i].our_did@, old))
            },
            None => None,
        })
        &&& new == (Config {
            public: PublicConfig { logs: new.public.logs, ..old.public },
            private: ProtectedConfig { contacts: old.private.contacts, ..new.private },
            ..old
        })
        &&& new.private.relationships.path_pointer == old.private.relationships.path_pointer
        &&& match task_position(rels, thid) {
            Some(i) => {
                let party = rels[i].remote_p_did@;
                &&& new.private.relationships@ == without(rels, party)
                &&& new.private.vrcs_issued.entries@ == old.private.vrcs_issued.entries@.filter(
                    other_remote(party),
                )
                &&& new.private.vrcs_received.entries@
                    == old.private.vrcs_received.entries@.filter(other_remote(party))
            },
            None => {
                &&& new.private.relationships == old.private.relationships
                &&& new.private.vrcs_issued == old.private.vrcs_issued
                &&& new.private.vrcs_received == old.private.vrcs_received
            },
        }
        &&& new.private.tasks@ == without(old.private.tasks@, thid)
        &&& new.public.logs@ == old.public.logs@.push(
            (
                LogFamily::Relationship,
                "Relationship request rejected by ("@ + from + "). Reason: "@ + reason_view(reason),
            ),
        )
    }
}

fn on_rejected(config: &mut Config, thid: &str, from: &str, reason: &Option<String>) -> (r:
    Processed)
    ensures
        rejected_effect(*old(config), *final(config), thid@, from@, *reason, r),
{
    if !is_known(config, from) {
        return Ok(quiet(false));
    }
    let mut remove_listener: Option<String> = None;
    if let Some(i) = config.private.relationships.find_key_by_task_id(thid) {
        let our_did = config.private.relationships.relationships[i].our_did.clone();
        let party = config.private.relationships.relationships[i].remote_p_did.clone();
        if !config.is_persona_did(our_did.as_str()) {
            remove_listener = Some(listener_id_for_did(our_did.as_str(), config));
        }
        config.private.relationships.remove(
            party.as_str(),
            &mut config.private.vrcs_issued,
            &mut config.private.vrcs_received,
        );
    }
    let _ = config.private.tasks.remove(thid);
    let why = reason_text(reason);
    config.note(
        LogFamily::Relationship,
        cat4("Relationship request rejected by (", from, "). Reason: ", why.as_str()),
    );
    Ok(InboundOutcome { changed: true, remove_listener, send: None })
}

/// The relationship that an answer belongs to: that of the task it answers, or
/// that with its sender.
pub open spec fn answered(rels: Seq<Relationship>, thid: Seq<char>, from: Seq<char>) -> Option<int> {
    match task_position(rels, thid) {
        Some(i) => Some(i),
        None => key_at(rels, from),
    }
}

fn answered_position(config: &Config, thid: &str, from: &str) -> (r: Option<usize>)
    ensures
        match r {
            Some(i) => answered(config.private.relationships@, thid@, from@) == Some(i as int) && i
                < config.private.relationships@.len(),
            None => answered(config.private.relationships@, thid@, from@) is None,
        },
{
    match config.private.relationships.find_key_by_task_id(thid) {
        Some(i) => Some(i),
        None => position(&config.private.relationships.relationships, from),
    }
}

/// `new` is `old` after the relationship at `i` became `rel`, the task was closed
/// and a line was logged.
pub open spec fn established(
    old: Config,
    new: Config,
    i: int,
    rel: Relationship,
    thid: Seq<char>,
    line: Seq<char>,
) -> bool {
    &&& new == (Config {
        public: PublicConfig { logs: new.public.logs, ..old.public },
        private: ProtectedConfig {
            tasks: new.private.tasks,
            relationships: new.private.relationships,
            ..old.private
        },
        ..old
    })
    &&& new.private.relationships.path_pointer == old.private.relationships.path_pointer
    &&& new.private.relationships@ == old.private.relationships@.update(i, rel)
    &&& new.private.tasks@ == without(old.private.tasks@, thid)
    &&& new.public.logs@ == old.public.logs@.push((LogFamily::Relationship, line))
}

/// A confirmation that a relationship is established, from us to the sender.
pub open spec fn confirms(
    send: Option<Envelope>,
    config: Config,
    us: Seq<char>,
    from: Seq<char>,
    thid: Seq<char>,
) -> bool {
    &&& send matches Some(e)
    &&& e.listener_id@ == listener_view(us, config)
    &&& e.to_did@ == from
    &&& e.message@ == (OutboundView {
        from: us,
        to: from,
        thid: Some(thid),
        body: BodyView::RelationshipFinalize,
    })
    &&& e.message.stamped(Some(MESSAGE_LIFETIME))
}

/// Our request for a relationship was accepted: the relationship is established,
/// the sender uses the DID it gave, and its acceptance is confirmed. Anyone but
/// the party asked is ignored.
pub open spec fn accepted_effect(
    old: Config,
    new: Config,
    thid: Seq<char>,
    from: Seq<char>,
    body: AcceptBody,
    us: Seq<char>,
    r: Processed,
) -> bool {
    let rels = old.private.relationships@;
    if !body.did_valid {
        ignored(old, new, r)
    } else {
        match answered(rels, thid, from) {
            None => ignored(old, new, r),
            Some(i) => if rels[i].remote_p_did@ != from {
                ignored(old, new, r)
            } else {
                &&& established(
                    old,
                    new,
                    i,
                    (Relationship {
                        state: RelationshipState::Established,
                        remote_did: body.did,
                        ..rels[i]
                    }),
                    thid,
                    "Relationship established with ("@ + from + ")"@,
                )
                &&& r matches Ok(o) && o.changed && o.remove_listener is None && confirms(
                    o.send,
                    old,
                    us,
                    from,
                    thid,
                )
            },
        }
    }
}

fn on_accepted(config: &mut Config, thid: &str, from: &str, body: AcceptBody, us: &str) -> (r:
    Processed)
    ensures
        accepted_effect(*old(config), *final(config), thid@, from@, body, us@, r),
{
    if !body.did_valid {
        return Ok(quiet(false));
    }
    let i: usize = match answered_position(config, thid, from) {
        Some(i) => i,
        None => {
            return Ok(quiet(false));
        },
    };
    if !same(config.private.relationships.relationships[i].remote_p_did.as_str(), from) {
        return Ok(quiet(false));
    }
    let listener_id = listener_id_for_did(us, config);
    let ghost rels = config.private.relationships@;
    config.private.relationships.relationships[i].state = RelationshipState::Established;
    config.private.relationships.relationships[i].remote_did = body.did;
    assert(config.private.relationships@ =~= rels.update(
        i as int,
        (Relationship {
            state: RelationshipState::Established,
            remote_did: body.did,
            ..rels[i as int]
        }),
    ));
    let message = build_didcomm_message(
        OutboundBody::RelationshipFinalize,
        us,
        from,
        Some(owned(thid)),
    );
    let _ = config.private.tasks.remove(thid);
    config.note(LogFamily::Relationship, cat3("Relationship established with (", from, ")"));
    Ok(
        InboundOutcome {
            changed: true,
            remove_listener: None,
            send: Some(Envelope { listener_id, to_did: owned(from), message }),
        },
    )
}

/// A relationship that we accepted is confirmed.
pub open spec fn finalized_effect(
    old: Config,
    new: Config,
    thid: Seq<char>,
    from: Seq<char>,
    r: Processed,
) -> bool {
    let rels = old.private.relationships@;
    match answered(rels, thid, from) {
        None => ignored(old, new, r),
        Some(i) => if rels[i].remote_p_did@ != from {
            ignored(old, new, r)
        } else {
            &&& established(
                old,
                new,
                i,
                (Relationship { state: RelationshipState::Established, ..rels[i] }),
                thid,
                "Relationship finalized with ("@ + from + ")"@,
            )
            &&& r matches Ok(o) && o.quiet(true)
        },
    }
}

fn on_finalize(config: &mut Config, thid: &str, from: &str) -> (r: Processed)
    ensures
        finalized_effect(*old(config), *final(config), thid@, from@, r),
{
    let i: usize = match answered_position(config, thid, from) {
        Some(i) => i,
        None => {
            return Ok(quiet(false));
        },
    };
    if !same(config.private.relationships.relationships[i].remote_p_did.as_str(), from) {
        return Ok(quiet(false));
    }
    let ghost rels = config.private.relationships@;
    config.private.relationships.relationships[i].state = RelationshipState::Established;
    assert(config.private.relationships@ =~= rels.update(
        i as int,
        (Relationship { state: RelationshipState::Established, ..rels[i as int] }),
    ));
    let _ = config.private.tasks.remove(thid);
    config.note(LogFamily::Relationship, cat3("Relationship finalized with (", from, ")"));
    Ok(quiet(true))
}

/// Our request for a credential was turned down.
pub open spec fn vrc_rejected_effect(
    old: Config,
    new: Config,
    thid: Seq<char>,
    from: Seq<char>,
    reason: Option<String>,
    r: Processed,
) -> bool {
    if !known_party(old, from) {
        ignored(old, new, r)
    } else {
        &&& r matches Ok(o) && o.quiet(true)
        &&& inbox_changed(
            old,
            new,
            LogFamily::Task,
            "VRC request rejected by ("@ + from + "). Reason: "@ + reason_view(reason),
        )
        &&& new.private.tasks@ == without(old.private.tasks@, thid)
    }
}

fn on_vrc_rejected(config: &mut Config, thid: &str, from: &str, reason: &Option<String>) -> (r:
    Processed)
    ensures
        vrc_rejected_effect(*old(config), *final(config), thid@, from@, *reason, r),
{
    if !is_known(config, from) {
        return Ok(quiet(false));
    }
    let _ = config.private.tasks.remove(thid);
    let why = reason_text(reason);
    config.note(
        LogFamily::Task,
        cat4("VRC request rejected by (", from, "). Reason: ", why.as_str()),
    );
    Ok(quiet(true))
}

/// A task holds a request for a relationship from this sender.
pub open spec fn request_pending(s: Seq<Task>, from: Seq<char>) -> bool {
    exists|i: int|
        0 <= i < s.len() && (#[trigger] s[i]).type_ is RelationshipRequestInbound
            && s[i].type_->RelationshipRequestInbound_from@ == from
}

fn has_pending(config: &Config, from: &str) -> (r: bool)
    ensures
        r == request_pending(config.private.tasks@, from@),
{
    let mut i: usize = 0;
    while i < config.private.tasks.tasks.len()
        invariant
            i <= config.private.tasks@.len(),
            config.private.tasks@ == config.private.tasks.tasks@,
            forall|j: int|
                0 <= j < i ==> !((#[trigger] config.private.tasks@[j]).type_ is RelationshipRequestInbound
                    && config.private.tasks@[j].type_->RelationshipRequestInbound_from@ == from@),
        decreases config.private.tasks@.len() - i,
    {
        match &config.private.tasks.tasks[i].type_ {
            TaskType::RelationshipRequestInbound { from: sender, .. } => {
                if same(sender.as_str(), from) {
                    assert(config.private.tasks@[i as int].type_ is RelationshipRequestInbound);
                    return true;
                }
            },
            _ => {},
        }
        i = i + 1;
    }
    false
}

/// Whether a request for a relationship is taken into the inbox.
pub open spec fn request_welcome(
    config: Config,
    from: Seq<char>,
    did_valid: bool,
    max_tasks: usize,
) -> bool {
    &&& did_valid
    &&& config.private.tasks@.len() < max_tasks
    &&& config.private.relationships@.len() < MAX_RELATIONSHIPS
    &&& !known_party(config, from)
    &&& !request_pending(config.private.tasks@, from)
}

/// A party asks for a relationship: that is for the user to decide.
pub open spec fn requested_effect(
    old: Config,
    new: Config,
    message: InboundMessage,
    body: RequestBody,
    max_tasks: usize,
    r: Processed,
) -> bool {
    let from = message.from->0;
    if !request_welcome(old, from@, body.did_valid, max_tasks) {
        ignored(old, new, r)
    } else {
        &&& r matches Ok(o) && o.quiet(true)
        &&& inbox_changed(
            old,
            new,
            LogFamily::Task,
            "Inbound relationship request from ("@ + from@ + ")"@,
        )
        &&& exists|to: String|
            to@ == first_to(message) && #[trigger] task_filed(
                old.private.tasks@,
                new.private.tasks@,
                message.id@,
                TaskType::RelationshipRequestInbound { from, to, request: body.request },
                recipient_persona(old, message),
            )
    }
}

fn on_requested(
    config: &mut Config,
    message: &InboundMessage,
    body: RequestBody,
    from: &String,
    max_tasks: usize,
    persona: Option<PersonaId>,
) -> (r: Processed)
    requires
        message.from == Some(*from),
        persona == recipient_persona(*old(config), *message),
    ensures
        requested_effect(*old(config), *final(config), *message, body, max_tasks, r),
{
    if !body.did_valid || config.private.tasks.tasks.len() >= max_tasks
        || config.private.relationships.relationships.len() >= MAX_RELATIONSHIPS || is_known(
        config,
        from.as_str(),
    ) || has_pending(config, from.as_str()) {
        return Ok(quiet(false));
    }
    let to = first_addressee(message);
    config.private.tasks.new_task_for(
        message.id.as_str(),
        TaskType::RelationshipRequestInbound { from: from.clone(), to, request: body.request },
        persona,
    );
    config.note(
        LogFamily::Task,
        cat3("Inbound relationship request from (", from.as_str(), ")"),
    );
    Ok(quiet(true))
}

/// A party that we have a relationship with asks for a credential: that is for
/// the user to decide.
pub open spec fn vrc_requested_effect(
    old: Config,
    new: Config,
    message: InboundMessage,
    reason: Option<String>,
    max_tasks: usize,
    r: Processed,
) -> bool {
    let from = message.from->0@;
    match by_remote_did(old.private.relationships@, from) {
        None => refused(
            old,
            new,
            r,
            "VRC request from ("@ + from + ") but no relationship found"@,
        ),
        Some(rel) => if rel.state !is Established || old.private.tasks@.len() >= max_tasks {
            ignored(old, new, r)
        } else {
            &&& r matches Ok(o) && o.quiet(true)
            &&& inbox_changed(
                old,
                new,
                LogFamily::Task,
                "Inbound VRC request from ("@ + from + ")"@,
            )
            &&& task_filed(
                old.private.tasks@,
                new.private.tasks@,
                message.id@,
                TaskType::VRCRequestInbound { reason, remote_p_did: rel.remote_p_did },
                recipient_persona(old, message),
            )
        },
    }
}

fn on_vrc_requested(
    config: &mut Config,
    message: &InboundMessage,
    reason: Option<String>,
    from: &str,
    max_tasks: usize,
    persona: Option<PersonaId>,
) -> (r: Processed)
    requires
        message.from matches Some(f) && f@ == from@,
        persona == recipient_persona(*old(config), *message),
    ensures
        vrc_requested_effect(*old(config), *final(config), *message, reason, max_tasks, r),
{
    let (established, remote_p_did) = match config.private.relationships.find_by_remote_did(from) {
        None => {
            return Err(
                ErrorText::plain(
                    cat3("VRC request from (", from, ") but no relationship found"),
                ),
            );
        },
        Some(rel) => (rel.state == RelationshipState::Established, rel.remote_p_did.clone()),
    };
    if !established || config.private.tasks.tasks.len() >= max_tasks {
        return Ok(quiet(false));
    }
    config.private.tasks.new_task_for(
        message.id.as_str(),
        TaskType::VRCRequestInbound { reason, remote_p_did },
        persona,
    );
    config.note(LogFamily::Task, cat3("Inbound VRC request from (", from, ")"));
    Ok(quiet(true))
}

/// The task of ours that an issued credential answers: the request for one from
/// this party that its thread names.
pub open spec fn answers_request(
    s: Seq<Task>,
    thid: Option<String>,
    party: Seq<char>,
) -> Option<Seq<char>> {
    match thid {
        Some(id) => match lookup(s, id@) {
            Some(task) => match task.type_ {
                TaskType::VRCRequestOutbound { remote_p_did } => if remote_p_did@ == party {
                    Some(id@)
                } else {
                    None
                },
                _ => None,
            },
            None => None,
        },
        None => None,
    }
}

/// Whether a credential issued to us is to be trusted so far: its sender is the
/// other side of an established relationship and issued it itself. If so, the
/// request of ours that it answers, if any.
pub open spec fn vetted(
    config: Config,
    issuer: Seq<char>,
    from: Seq<char>,
    thid: Option<String>,
) -> Option<Option<Seq<char>>> {
    match by_remote_did(config.private.relationships@, from) {
        Some(rel) => if rel.state is Established && issuer == rel.remote_p_did@ {
            Some(answers_request(config.private.tasks@, thid, rel.remote_p_did@))
        } else {
            None
        },
        None => None,
    }
}

/// Vets a credential issued to us.
pub fn vet_vrc_issued(config: &Config, issuer: &str, from: &str, thid: &Option<String>) -> (r:
    Option<Option<String>>)
    ensures
        match r {
            Some(pending) => vetted(*config, issuer@, from@, *thid) == Some(opt_view(pending)),
            None => vetted(*config, issuer@, from@, *thid) is None,
        },
{
    let party = match config.private.relationships.find_by_remote_did(from) {
        Some(rel) => {
            if rel.state != RelationshipState::Established || !same(
                issuer,
                rel.remote_p_did.as_str(),
            ) {
                return None;
            }
            rel.remote_p_did.clone()
        },
        None => {
            return None;
        },
    };
    let pending = match thid {
        Some(id) => match config.private.tasks.get_by_id(id.as_str()) {
            Some(task) => match &task.type_ {
                TaskType::VRCRequestOutbound { remote_p_did } => {
                    if same(remote_p_did.as_str(), party.as_str()) {
                        Some(id.clone())
                    } else {
                        None
                    }
                },
                _ => None,
            },
            None => None,
        },
        None => None,
    };
    Some(pending)
}

/// The inbox after the request that was answered, if any, was taken out.
pub open spec fn request_closed(s: Seq<Task>, pending: Option<Seq<char>>) -> Seq<Task> {
    match pending {
        Some(id) => without(s, id),
        None => s,
    }
}

/// A credential was issued to us: one that is vetted and whose proof holds is
/// put before the user, in the place of the request that it answers. Where the
/// inbox is full, that request still leaves it.
pub open spec fn vrc_issued_effect(
    old: Config,
    new: Config,
    message: InboundMessage,
    body: IssuedBody,
    max_tasks: usize,
    r: Processed,
) -> bool {
    let from = message.from->0@;
    match vetted(old, body.vrc.issuer@, from, message.thid) {
        None => ignored(old, new, r),
        Some(pending) => if !body.proof_valid {
            ignored(old, new, r)
        } else {
            let left = request_closed(old.private.tasks@, pending);
            if left.len() >= max_tasks && pending is None {
                ignored(old, new, r)
            } else if left.len() >= max_tasks {
                &&& r matches Ok(o) && o.quiet(true)
                &&& new == (Config {
                    private: ProtectedConfig { tasks: new.private.tasks, ..old.private },
                    ..old
                })
                &&& new.private.tasks@ == left
            } else {
                &&& r matches Ok(o) && o.quiet(true)
                &&& inbox_changed(
                    old,
                    new,
                    LogFamily::Task,
                    "VRC issued received from ("@ + from + ")"@,
                )
                &&& task_filed(
                    left,
                    new.private.tasks@,
                    match pending {
                        Some(id) => id,
                        None => message.id@,
                    },
                    TaskType::VRCIssued { vrc: body.vrc },
                    recipient_persona(old, message),
                )
            }
        },
    }
}

fn on_vrc_issued(
    config: &mut Config,
    message: &InboundMessage,
    body: IssuedBody,
    from: &str,
    max_tasks: usize,
    persona: Option<PersonaId>,
) -> (r: Processed)
    requires
        message.from matches Some(f) && f@ == from@,
        persona == recipient_persona(*old(config), *message),
    ensures
        vrc_issued_effect(*old(config), *final(config), *message, body, max_tasks, r),
{
    let pending = match vet_vrc_issued(config, body.vrc.issuer.as_str(), from, &message.thid) {
        Some(pending) => pending,
        None => {
            return Ok(quiet(false));
        },
    };
    if !body.proof_valid {
        return Ok(quiet(false));
    }
    let task_id = match &pending {
        Some(id) => id.clone(),
        None => message.id.clone(),
    };
    if let Some(id) = &pending {
        let _ = config.private.tasks.remove(id.as_str());
    }
    if config.private.tasks.tasks.len() >= max_tasks {
        return Ok(quiet(pending.is_some()));
    }
    config.private.tasks.new_task_for(
        task_id.as_str(),
        TaskType::VRCIssued { vrc: body.vrc },
        persona,
    );
    config.note(LogFamily::Task, cat3("VRC issued received from (", from, ")"));
    Ok(quiet(true))
}

/// A ping from a party that we have a relationship with is shown in the inbox.
pub open spec fn pinged_effect(
    old: Config,
    new: Config,
    message: InboundMessage,
    max_tasks: usize,
    r: Processed,
) -> bool {
    let from = message.from->0;
    if old.private.tasks@.len() >= max_tasks {
        ignored(old, new, r)
    } else {
        match by_remote_did(old.private.relationships@, from@) {
            None => ignored(old, new, r),
            Some(rel) => {
                &&& r matches Ok(o) && o.quiet(true)
                &&& new == (Config {
                    private: ProtectedConfig { tasks: new.private.tasks, ..old.private },
                    ..old
                })
                &&& exists|to: String|
                    to@ == first_to(message) && #[trigger] task_filed(
                        old.private.tasks@,
                        new.private.tasks@,
                        message.id@,
                        TaskType::TrustPing { from, to, remote_p_did: rel.remote_p_did },
                        recipient_persona(old, message),
                    )
            },
        }
    }
}

fn on_pinged(
    config: &mut Config,
    message: &InboundMessage,
    from: &String,
    max_tasks: usize,
    persona: Option<PersonaId>,
) -> (r: Processed)
    requires
        message.from == Some(*from),
        persona == recipient_persona(*old(config), *message),
    ensures
        pinged_effect(*old(config), *final(config), *message, max_tasks, r),
{
    if config.private.tasks.tasks.len() >= max_tasks {
        return Ok(quiet(false));
    }
    let remote_p_did = match config.private.relationships.find_by_remote_did(from.as_str()) {
        Some(rel) => rel.remote_p_did.clone(),
        None => {
            return Ok(quiet(false));
        },
    };
    let to = first_addressee(message);
    config.private.tasks.new_task_for(
        message.id.as_str(),
        TaskType::TrustPing { from: from.clone(), to, remote_p_did },
        persona,
    );
    Ok(quiet(true))
}

// ---------------------------------------------------------------------------
// Communities
// ---------------------------------------------------------------------------

/// A membership that awaits the answer to this request.
pub open spec fn awaits(c: CommunityRecord, vtc: Seq<char>, request: Seq<char>) -> bool {
    &&& c.vtc_did@ == vtc
    &&& c.status is Pending
    &&& c.status->Pending_request_id@ == request
}

/// The position of the first membership that awaits the answer to this request.
pub open spec fn awaiting_at(s: Seq<CommunityRecord>, vtc: Seq<char>, request: Seq<char>) -> Option<
    int,
>
    decreases s.len(),
{
    if s.len() == 0 {
        None
    } else if awaits(s[0], vtc, request) {
        Some(0)
    } else {
        match awaiting_at(s.skip(1), vtc, request) {
            Some(i) => Some(i + 1),
            None => None,
        }
    }
}

proof fn lemma_awaiting_at(s: Seq<CommunityRecord>, vtc: Seq<char>, request: Seq<char>, i: int)
    requires
        0 <= i <= s.len(),
        forall|j: int| 0 <= j < i ==> !awaits(#[trigger] s[j], vtc, request),
        i < s.len() ==> awaits(s[i], vtc, request),
    ensures
        awaiting_at(s, vtc, request) == (if i < s.len() {
            Some(i)
        } else {
            None
        }),
    decreases i,
{
    if i > 0 {
        assert(!awaits(s[0], vtc, request));
        assert forall|j: int| 0 <= j < i - 1 implies !awaits(
            #[trigger] s.skip(1)[j],
            vtc,
            request,
        ) by {
            assert(!awaits(s[j + 1], vtc, request));
        }
        lemma_awaiting_at(s.skip(1), vtc, request, i - 1);
    }
}

/// `new` is `old` but for the membership at `i`.
pub open spec fn membership_changed(old: Account, new: Account, i: int, c: CommunityRecord) -> bool {
    &&& new == (Account { communities: new.communities, ..old })
    &&& new.communities@ == old.communities@.update(i, c)
}

/// A community says under which id it has our request: the membership that
/// awaits its answer takes on that id.
pub open spec fn receipt_effect(
    old: Account,
    new: Account,
    thid: Option<String>,
    request_id: String,
    from: Seq<char>,
    changed: bool,
) -> bool {
    let hit = match thid {
        Some(id) => awaiting_at(old.communities@, from, id@),
        None => None,
    };
    match hit {
        Some(i) => changed && membership_changed(
            old,
            new,
            i,
            (CommunityRecord {
                status: CommunityStatus::Pending { request_id },
                ..old.communities@[i]
            }),
        ),
        None => !changed && new == old,
    }
}

/// Takes note of the id under which a community has our request.
pub fn handle_join_submit_receipt(
    account: &mut Account,
    thid: &Option<String>,
    request_id: String,
    from: &str,
) -> (r: bool)
    ensures
        receipt_effect(*old(account), *final(account), *thid, request_id, from@, r),
{
    let id = match thid {
        Some(id) => id,
        None => {
            return false;
        },
    };
    let mut i: usize = 0;
    while i < account.communities.len()
        invariant
            *account == *old(account),
            *thid == Some(*id),
            i <= account.communities@.len(),
            forall|j: int|
                0 <= j < i ==> !awaits(#[trigger] account.communities@[j], from@, id@),
        decreases account.communities@.len() - i,
    {
        let hit = match &account.communities[i].status {
            CommunityStatus::Pending { request_id: placeholder } => same(
                account.communities[i].vtc_did.as_str(),
                from,
            ) && same(placeholder.as_str(), id.as_str()),
            _ => false,
        };
        if hit {
            proof {
                lemma_awaiting_at(account.communities@, from@, id@, i as int);
            }
            let ghost before = account.communities@;
            account.communities[i].status = CommunityStatus::Pending { request_id };
            assert(account.communities@ =~= before.update(
                i as int,
                (CommunityRecord {
                    status: CommunityStatus::Pending { request_id },
                    ..before[i as int]
                }),
            ));
            return true;
        }
        i = i + 1;
    }
    proof {
        lemma_awaiting_at(account.communities@, from@, id@, i as int);
    }
    false
}

/// The membership after its credential put it in force.
pub open spec fn admitted(c: CommunityRecord, credential: String, now: i64) -> CommunityRecord {
    CommunityRecord {
        membership_credential: Some(credential),
        status: CommunityStatus::Active,
        member_since: Some(now),
        ..c
    }
}

/// `new` is `old` after the membership at `i` was put in force by its credential.
pub open spec fn membership_admitted(old: Account, new: Account, i: int, credential: String) -> bool {
    exists|now: i64|
        clock_read(now) && membership_changed(
            old,
            new,
            i,
            #[trigger] admitted(old.communities@[i], credential, now),
        )
}

/// A community issued a credential to a persona of ours: it is kept with the
/// membership, and the membership's own credential puts it in force.
pub open spec fn issue_effect(
    old: Account,
    new: Account,
    kind: IssuedKind,
    credential: String,
    from: Seq<char>,
    persona: Option<PersonaId>,
    changed: bool,
) -> bool {
    let hit = match persona {
        Some(p) => membership_at(old.communities@, from, p),
        None => None,
    };
    match hit {
        Some(i) => {
            let c = old.communities@[i];
            if !c.live() || kind is Other {
                !changed && new == old
            } else if kind is Role {
                changed && membership_changed(
                    old,
                    new,
                    i,
                    (CommunityRecord { role_credential: Some(credential), ..c }),
                )
            } else if c.status is Active {
                changed && membership_changed(
                    old,
                    new,
                    i,
                    (CommunityRecord { membership_credential: Some(credential), ..c }),
                )
            } else {
                changed && membership_admitted(old, new, i, credential)
            }
        },
        None => !changed && new == old,
    }
}

/// Keeps a credential that a community issued.
pub fn handle_credential_issue(
    account: &mut Account,
    kind: IssuedKind,
    credential: String,
    from: &str,
    persona: Option<PersonaId>,
) -> (r: bool)
    ensures
        issue_effect(*old(account), *final(account), kind, credential, from@, persona, r),
{
    let p = match persona {
        Some(p) => p,
        None => {
            return false;
        },
    };
    let i: usize = match account.membership(from, p) {
        Some(i) => i,
        None => {
            return false;
        },
    };
    if !account.communities[i].is_live() {
        return false;
    }
    let ghost before = account.communities@;
    match kind {
        IssuedKind::Other => false,
        IssuedKind::Role => {
            account.communities[i].role_credential = Some(credential);
            assert(account.communities@ =~= before.update(
                i as int,
                (CommunityRecord { role_credential: Some(credential), ..before[i as int] }),
            ));
            true
        },
        IssuedKind::Membership => {
            let in_force = account.communities[i].status.is_active();
            account.communities[i].membership_credential = Some(credential);
            if !in_force {
                let now: i64 = read_clock();
                account.communities[i].activate(now);
                proof {
                    assert(account.communities@ =~= before.update(
                        i as int,
                        admitted(before[i as int], credential, now),
                    ));
                    assert(membership_changed(
                        *old(account),
                        *account,
                        i as int,
                        admitted(before[i as int], credential, now),
                    ));
                }
            } else {
                assert(account.communities@ =~= before.update(
                    i as int,
                    (CommunityRecord {
                        membership_credential: Some(credential),
                        ..before[i as int]
                    }),
                ));
            }
            true
        },
    }
}

// ---------------------------------------------------------------------------
// The whole
// ---------------------------------------------------------------------------

/// What becomes of a message that passed the first look.
pub open spec fn passed_effect(
    old: Config,
    new: Config,
    message: InboundMessage,
    kind: InboundKind,
    max_tasks: usize,
    r: Processed,
) -> bool {
    let from = message.from->0@;
    match kind {
        InboundKind::JoinReceipt { request_id } => {
            &&& new == (Config { account: new.account, ..old })
            &&& r matches Ok(o) && o.quiet(o.changed) && receipt_effect(
                old.account,
                new.account,
                message.thid,
                request_id,
                from,
                o.changed,
            )
        },
        InboundKind::CredentialIssue { kind, credential } => {
            &&& new == (Config { account: new.account, ..old })
            &&& r matches Ok(o) && o.quiet(o.changed) && issue_effect(
                old.account,
                new.account,
                kind,
                credential,
                from,
                recipient_persona(old, message),
                o.changed,
            )
        },
        InboundKind::RelationshipRejected { reason } => match message.thid {
            None => refused(old, new, r, no_thread()),
            Some(thid) => match reason {
                Err(e) => refused(old, new, r, e@),
                Ok(reason) => rejected_effect(old, new, thid@, from, reason, r),
            },
        },
        InboundKind::RelationshipAccepted { body } => match message.thid {
            None => refused(old, new, r, no_thread()),
            Some(thid) => match body {
                Err(e) => refused(old, new, r, e@),
                Ok(body) => accepted_effect(
                    old,
                    new,
                    thid@,
                    from,
                    body,
                    recipient_view(old, message),
                    r,
                ),
            },
        },
        InboundKind::RelationshipFinalize => match message.thid {
            None => refused(old, new, r, no_thread()),
            Some(thid) => finalized_effect(old, new, thid@, from, r),
        },
        InboundKind::TrustPong => task_closed(old, new, message.thid, r),
        InboundKind::VrcRejected { reason } => match message.thid {
            None => refused(old, new, r, no_thread()),
            Some(thid) => match reason {
                Err(e) => refused(old, new, r, e@),
                Ok(reason) => vrc_rejected_effect(old, new, thid@, from, reason, r),
            },
        },
        InboundKind::RelationshipRequest { body } => match body {
            Err(e) => refused(old, new, r, e@),
            Ok(body) => requested_effect(old, new, message, body, max_tasks, r),
        },
        InboundKind::VrcRequest { reason } => match reason {
            Err(e) => refused(old, new, r, e@),
            Ok(reason) => vrc_requested_effect(old, new, message, reason, max_tasks, r),
        },
        InboundKind::VrcIssued { body } => match body {
            Err(e) => refused(old, new, r, e@),
            Ok(body) => vrc_issued_effect(old, new, message, body, max_tasks, r),
        },
        InboundKind::TrustPing => pinged_effect(old, new, message, max_tasks, r),
        InboundKind::Unknown => ignored(old, new, r),
    }
}

/// What processing a message does to the configuration and to the outside.
pub open spec fn processed(
    old: Config,
    new: Config,
    message: InboundMessage,
    kind: InboundKind,
    verdict: Verdict,
    r: Processed,
) -> bool {
    match gate(message, verdict) {
        Gate::Drop => ignored(old, new, r),
        Gate::NamelessPong => task_closed(old, new, message.thid, r),
        Gate::Pass => passed_effect(old, new, message, kind, verdict.max_tasks, r),
    }
}

/// Processes an incoming message.
pub fn process_inbound_message(
    config: &mut Config,
    message: &InboundMessage,
    kind: InboundKind,
    verdict: Verdict,
) -> (r: Processed)
    ensures
        processed(*old(config), *final(config), *message, kind, verdict, r),
{
    if !verdict.fresh || verdict.replayed {
        return Ok(quiet(false));
    }
    let from = match &message.from {
        Some(did) => did.clone(),
        None => {
            if same(message.typ.as_str(), "https://didcomm.org/trust-ping/2.0/ping-response") {
                return close_task(config, &message.thid);
            }
            return Ok(quiet(false));
        },
    };
    if too_large(message.body.as_str()) {
        return Ok(quiet(false));
    }
    let us = recipient(config, message);
    let persona = config.account.persona_id_for_did(us.as_str());
    match kind {
        InboundKind::JoinReceipt { request_id } => {
            let changed = handle_join_submit_receipt(
                &mut config.account,
                &message.thid,
                request_id,
                from.as_str(),
            );
            Ok(quiet(changed))
        },
        InboundKind::CredentialIssue { kind, credential } => {
            let changed = handle_credential_issue(
                &mut config.account,
                kind,
                credential,
                from.as_str(),
                persona,
            );
            Ok(quiet(changed))
        },
        InboundKind::RelationshipRejected { reason } => match &message.thid {
            None => Err(ErrorText::plain(owned("message has no thread id"))),
            Some(thid) => match reason {
                Err(e) => Err(ErrorText::plain(e)),
                Ok(reason) => on_rejected(config, thid.as_str(), from.as_str(), &reason),
            },
        },
        InboundKind::RelationshipAccepted { body } => match &message.thid {
            None => Err(ErrorText::plain(owned("message has no thread id"))),
            Some(thid) => match body {
                Err(e) => Err(ErrorText::plain(e)),
                Ok(body) => on_accepted(config, thid.as_str(), from.as_str(), body, us.as_str()),
            },
        },
        InboundKind::RelationshipFinalize => match &message.thid {
            None => Err(ErrorText::plain(owned("message has no thread id"))),
            Some(thid) => on_finalize(config, thid.as_str(), from.as_str()),
        },
        InboundKind::TrustPong => close_task(config, &message.thid),
        InboundKind::VrcRejected { reason } => match &message.thid {
            None => Err(ErrorText::plain(owned("message has no thread id"))),
            Some(thid) => match reason {
                Err(e) => Err(ErrorText::plain(e)),
                Ok(reason) => on_vrc_rejected(config, thid.as_str(), from.as_str(), &reason),
            },
        },
        InboundKind::RelationshipRequest { body } => match body {
            Err(e) => Err(ErrorText::plain(e)),
            Ok(body) => on_requested(config, message, body, &from, verdict.max_tasks, persona),
        },
        InboundKind::VrcRequest { reason } => match reason {
            Err(e) => Err(ErrorText::plain(e)),
            Ok(reason) => on_vrc_requested(
                config,
                message,
                reason,
                from.as_str(),
                verdict.max_tasks,
                persona,
            ),
        },
        InboundKind::VrcIssued { body } => match body {
            Err(e) => Err(ErrorText::plain(e)),
            Ok(body) => on_vrc_issued(
                config,
                message,
                body,
                from.as_str(),
                verdict.max_tasks,
                persona,
            ),
        },
        InboundKind::TrustPing => on_pinged(config, message, &from, verdict.max_tasks, persona),
        InboundKind::Unknown => Ok(quiet(false)),
    }
}

/// A message that was handled before, or is too old, changes nothing, whatever
/// it says.
pub proof fn law_replays_change_nothing(
    old: Config,
    new: Config,
    message: InboundMessage,
    kind: InboundKind,
    verdict: Verdict,
    r: Processed,
)
    requires
        !verdict.fresh || verdict.replayed,
        processed(old, new, message, kind, verdict, r),
    ensures
        new == old,
{
}

/// A message that is said to have changed nothing, or that is in error, has
/// changed nothing.
pub proof fn law_changes_are_reported(
    old: Config,
    new: Config,
    message: InboundMessage,
    kind: InboundKind,
    verdict: Verdict,
    r: Processed,
)
    requires
        processed(old, new, message, kind, verdict, r),
        !(r matches Ok(o) && o.changed),
    ensures
        new == old,
{
}

/// A stranger cannot establish a relationship: an acceptance or a confirmation
/// from anyone but the party at the other end leaves every relationship as it
/// was.
pub proof fn law_strangers_establish_nothing(
    old: Config,
    new: Config,
    thid: Seq<char>,
    from: Seq<char>,
    body: AcceptBody,
    us: Seq<char>,
    r: Processed,
)
    requires
        accepted_effect(old, new, thid, from, body, us, r) || finalized_effect(
            old,
            new,
            thid,
            from,
            r,
        ),
        forall|i: int|
            0 <= i < old.private.relationships@.len() ==> (
            #[trigger] old.private.relationships@[i]).remote_p_did@ != from,
    ensures
        new == old,
{
    let rels = old.private.relationships@;
    lemma_task_position_holds(rels, thid);
    lemma_key_at(rels, from);
}

// ---------------------------------------------------------------------------
// What processing is for
// ---------------------------------------------------------------------------

proof fn lemma_updated_is_found(s: Seq<Relationship>, i: int, rel: Relationship)
    requires
        0 <= i < s.len(),
        distinct_keys(s),
        rel.remote_p_did@ == s[i].remote_p_did@,
    ensures
        lookup(s, rel.remote_p_did@) == Some(s[i]),
        lookup(s.update(i, rel), rel.remote_p_did@) == Some(rel),
        distinct_keys(s.update(i, rel)),
        forall|k: Seq<char>|
            k != rel.remote_p_did@ ==> #[trigger] lookup(s.update(i, rel), k) == lookup(s, k),
{
    let t = s.update(i, rel);
    let key = rel.remote_p_did@;
    assert forall|j: int| 0 <= j < i implies #[trigger] s[j].key() != key by {
        assert(s[j].key() != s[i].key());
    }
    lemma_lookup_at(s, key, i);
    assert forall|j: int| 0 <= j < i implies #[trigger] t[j].key() != key by {
        assert(s[j].key() != s[i].key());
    }
    lemma_lookup_at(t, key, i);
    assert forall|a: int, b: int| 0 <= a < b < t.len() implies #[trigger] t[a].key()
        != #[trigger] t[b].key() by {
        assert(s[a].key() != s[b].key());
    }
    assert forall|k: Seq<char>| k != key implies #[trigger] lookup(t, k) == lookup(s, k) by {
        lemma_lookup_updated(s, i, rel, k);
    }
}

proof fn lemma_lookup_updated(s: Seq<Relationship>, i: int, rel: Relationship, k: Seq<char>)
    requires
        0 <= i < s.len(),
        rel.remote_p_did@ == s[i].remote_p_did@,
        k != rel.remote_p_did@,
    ensures
        lookup(s.update(i, rel), k) == lookup(s, k),
    decreases s.len(),
{
    let t = s.update(i, rel);
    if i == 0 {
        assert(t.skip(1) =~= s.skip(1));
    } else {
        assert(t.skip(1) =~= s.skip(1).update(i - 1, rel));
        lemma_lookup_updated(s.skip(1), i - 1, rel, k);
    }
}

proof fn lemma_answered_at(s: Seq<Relationship>, thid: Seq<char>, from: Seq<char>, i: int)
    requires
        0 <= i < s.len(),
        s[i].task_id@ == thid,
        forall|j: int| 0 <= j < s.len() && j != i ==> (#[trigger] s[j]).task_id@ != thid,
    ensures
        answered(s, thid, from) == Some(i),
        task_position(s, thid) == Some(i),
{
    lemma_task_position(s, thid, i);
}

/// Once the other side of a relationship that its thread names confirms it, the
/// relationship is established: it is found by its party in that state, and as it
/// was otherwise. The task is closed, and no other relationship changes.
pub proof fn law_finalized_is_established(
    config: &mut Config,
    message: &InboundMessage,
    kind: InboundKind,
    verdict: Verdict,
    r: Processed,
    from: String,
    thid: String,
    i: int,
)
    requires
        call_ensures(process_inbound_message, (config, message, kind, verdict), r),
        verdict.fresh && !verdict.replayed,
        message.from == Some(from),
        !oversized(message.body@),
        kind is RelationshipFinalize,
        message.thid == Some(thid),
        distinct_keys(old(config).private.relationships@),
        0 <= i < old(config).private.relationships@.len(),
        old(config).private.relationships@[i].remote_p_did@ == from@,
        old(config).private.relationships@[i].task_id@ == thid@,
        forall|j: int|
            0 <= j < old(config).private.relationships@.len() && j != i ==> (
            #[trigger] old(config).private.relationships@[j]).task_id@ != thid@,
    ensures
        r matches Ok(o) && o.changed,
        lookup(final(config).private.relationships@, from@) matches Some(rel) && rel.state
            is Established && rel.our_did == old(config).private.relationships@[i].our_did
            && rel.remote_did == old(config).private.relationships@[i].remote_did && rel.task_id@
            == thid@,
        lookup(final(config).private.tasks@, thid@) is None,
        forall|k: Seq<char>|
            k != from@ ==> #[trigger] lookup(final(config).private.relationships@, k) == lookup(
                old(config).private.relationships@,
                k,
            ),
        distinct_keys(final(config).private.relationships@),
{
    let rels = old(config).private.relationships@;
    lemma_answered_at(rels, thid@, from@, i);
    lemma_updated_is_found(rels, i, final(config).private.relationships@[i]);
    lemma_without(old(config).private.tasks@, thid@);
}

/// Once a relationship was confirmed, a request for a credential over it is put
/// before the user, where the inbox has room for it.
pub proof fn law_finalized_party_may_ask(
    config: &mut Config,
    message: &InboundMessage,
    kind: InboundKind,
    verdict: Verdict,
    r: Processed,
    from: String,
    thid: String,
    i: int,
    later: &mut Config,
    ask: &InboundMessage,
    asker: String,
    reason: Option<String>,
    then: Verdict,
    reply: Processed,
)
    requires
        call_ensures(process_inbound_message, (config, message, kind, verdict), r),
        verdict.fresh && !verdict.replayed,
        message.from == Some(from),
        !oversized(message.body@),
        kind is RelationshipFinalize,
        message.thid == Some(thid),
        distinct_keys(old(config).private.relationships@),
        0 <= i < old(config).private.relationships@.len(),
        old(config).private.relationships@[i].remote_p_did@ == from@,
        old(config).private.relationships@[i].task_id@ == thid@,
        forall|j: int|
            0 <= j < old(config).private.relationships@.len() && j != i ==> (
            #[trigger] old(config).private.relationships@[j]).task_id@ != thid@,
        *old(later) == *final(config),
        call_ensures(
            process_inbound_message,
            (
                later,
                ask,
                InboundKind::VrcRequest { reason: Ok::<Option<String>, String>(reason) },
                then,
            ),
            reply,
        ),
        then.fresh && !then.replayed,
        ask.from == Some(asker),
        !oversized(ask.body@),
        old(later).private.tasks@.len() < then.max_tasks,
        by_remote_did(old(later).private.relationships@, asker@) matches Some(rel)
            && rel.remote_p_did@ == from@,
    ensures
        reply matches Ok(o) && o.changed,
        lookup(final(later).private.tasks@, ask.id@) matches Some(task) && (task.type_ matches TaskType::VRCRequestInbound {
            reason: why,
            remote_p_did,
        } && remote_p_did@ == from@ && why == reason),
{
    law_finalized_is_established(config, message, kind, verdict, r, from, thid, i);
    let rels = old(later).private.relationships@;
    lemma_remote_did_found(rels, asker@);
    let rel = by_remote_did(rels, asker@)->0;
    let k = choose|k: int| 0 <= k < rels.len() && rels[k] == rel;
    lemma_distinct_found(rels, k);
    lemma_task_filed(
        old(later).private.tasks@,
        final(later).private.tasks@,
        ask.id@,
        TaskType::VRCRequestInbound { reason, remote_p_did: rel.remote_p_did },
        recipient_persona(*old(later), *ask),
    );
}

proof fn lemma_distinct_found(s: Seq<Relationship>, k: int)
    requires
        0 <= k < s.len(),
        distinct_keys(s),
    ensures
        lookup(s, s[k].remote_p_did@) == Some(s[k]),
{
    assert forall|j: int| 0 <= j < k implies #[trigger] s[j].key() != s[k].remote_p_did@ by {
        assert(s[j].key() != s[k].key());
    }
    lemma_lookup_at(s, s[k].remote_p_did@, k);
}

/// Once the party that we asked accepts, the relationship is established and goes
/// to the DID that it gave: by that DID the party is found. The task is closed,
/// and a confirmation goes back to it in the same thread, from the DID that it
/// wrote to.
pub proof fn law_acceptance_is_taken_up(
    config: &mut Config,
    message: &InboundMessage,
    kind: InboundKind,
    verdict: Verdict,
    r: Processed,
    from: String,
    thid: String,
    i: int,
    body: AcceptBody,
)
    requires
        call_ensures(process_inbound_message, (config, message, kind, verdict), r),
        verdict.fresh && !verdict.replayed,
        message.from == Some(from),
        !oversized(message.body@),
        kind == (InboundKind::RelationshipAccepted { body: Ok::<AcceptBody, String>(body) }),
        body.did_valid,
        message.thid == Some(thid),
        distinct_keys(old(config).private.relationships@),
        0 <= i < old(config).private.relationships@.len(),
        old(config).private.relationships@[i].remote_p_did@ == from@,
        old(config).private.relationships@[i].task_id@ == thid@,
        forall|j: int|
            0 <= j < old(config).private.relationships@.len() && j != i ==> (
            #[trigger] old(config).private.relationships@[j]).task_id@ != thid@,
    ensures
        lookup(final(config).private.relationships@, from@) matches Some(rel) && rel.state
            is Established && rel.remote_did@ == body.did@ && rel.our_did == old(config).private.relationships@[i].our_did,
        by_remote_did(final(config).private.relationships@, body.did@) is Some,
        lookup(final(config).private.tasks@, thid@) is None,
        r matches Ok(o) && o.changed && (o.send matches Some(e) && e.to_did@ == from@
            && e.message@.to == from@ && e.message@.thid == Some(thid@) && e.message@.body
            is RelationshipFinalize && e.message@.from == (match first_owned(
            *old(config),
            message.to@,
        ) {
            Some(d) => d,
            None => old(config).persona_did_view(),
        })),
        forall|k: Seq<char>|
            k != from@ ==> #[trigger] lookup(final(config).private.relationships@, k) == lookup(
                old(config).private.relationships@,
                k,
            ),
{
    let rels = old(config).private.relationships@;
    lemma_answered_at(rels, thid@, from@, i);
    lemma_updated_is_found(rels, i, final(config).private.relationships@[i]);
    lemma_without(old(config).private.tasks@, thid@);
    lemma_remote_did_found(final(config).private.relationships@, body.did@);
}

/// A relationship comes to be established by its own party's acceptance or
/// confirmation alone, whatever else is sent.
pub proof fn law_only_the_party_establishes(
    config: &mut Config,
    message: &InboundMessage,
    kind: InboundKind,
    verdict: Verdict,
    r: Processed,
    party: Seq<char>,
)
    requires
        call_ensures(process_inbound_message, (config, message, kind, verdict), r),
        distinct_keys(old(config).private.relationships@),
        lookup(final(config).private.relationships@, party) matches Some(rel) && rel.state
            is Established,
        !(lookup(old(config).private.relationships@, party) matches Some(rel) && rel.state
            is Established),
    ensures
        kind is RelationshipAccepted || kind is RelationshipFinalize,
        message.from matches Some(f) && f@ == party,
        lookup(old(config).private.relationships@, party) is Some,
        verdict.fresh && !verdict.replayed,
{
    let rels = old(config).private.relationships@;
    let new = final(config).private.relationships@;
    if kind is RelationshipAccepted || kind is RelationshipFinalize {
        if new != rels {
            let thid = message.thid->0@;
            let from = message.from->0@;
            lemma_task_position_holds(rels, thid);
            lemma_key_at(rels, from);
            let i = answered(rels, thid, from)->0;
            lemma_updated_is_found(rels, i, new[i]);
        }
    } else if kind is RelationshipRejected {
        if new != rels {
            let i = task_position(rels, message.thid->0@)->0;
            lemma_without(rels, rels[i].remote_p_did@);
        }
    }
}

/// A rejection of our request by a known party ends the relationship that its
/// thread names: it is found no more, nor is a credential filed under its party,
/// the task is closed, and every other relationship stays.
pub proof fn law_rejection_ends_the_relationship(
    config: &mut Config,
    message: &InboundMessage,
    kind: InboundKind,
    verdict: Verdict,
    r: Processed,
    from: String,
    thid: String,
    i: int,
    reason: Option<String>,
)
    requires
        call_ensures(process_inbound_message, (config, message, kind, verdict), r),
        verdict.fresh && !verdict.replayed,
        message.from == Some(from),
        !oversized(message.body@),
        kind == (InboundKind::RelationshipRejected {
            reason: Ok::<Option<String>, String>(reason),
        }),
        message.thid == Some(thid),
        distinct_keys(old(config).private.relationships@),
        0 <= i < old(config).private.relationships@.len(),
        old(config).private.relationships@[i].remote_p_did@ == from@,
        old(config).private.relationships@[i].task_id@ == thid@,
        forall|j: int|
            0 <= j < old(config).private.relationships@.len() && j != i ==> (
            #[trigger] old(config).private.relationships@[j]).task_id@ != thid@,
    ensures
        r matches Ok(o) && o.changed && o.send is None,
        lookup(final(config).private.relationships@, from@) is None,
        lookup(final(config).private.tasks@, thid@) is None,
        forall|j: int|
            0 <= j < final(config).private.vrcs_issued.entries@.len() ==> (#[trigger] final(config).private.vrcs_issued.entries@[j]).remote_p_did@ != from@,
        forall|j: int|
            0 <= j < final(config).private.vrcs_received.entries@.len() ==> (#[trigger] final(config).private.vrcs_received.entries@[j]).remote_p_did@ != from@,
        forall|k: Seq<char>|
            k != from@ ==> #[trigger] lookup(final(config).private.relationships@, k) == lookup(
                old(config).private.relationships@,
                k,
            ),
        !old(config).owns_did(old(config).private.relationships@[i].our_did@) ==> (
        r matches Ok(o) && opt_view(o.remove_listener) == Some(
            listener_view(old(config).private.relationships@[i].our_did@, *old(config)),
        )),
{
    broadcast use vstd::seq_lib::group_filter_ensures;

    let rels = old(config).private.relationships@;
    lemma_answered_at(rels, thid@, from@, i);
    lemma_distinct_found(rels, i);
    lemma_without(rels, from@);
    lemma_without(old(config).private.tasks@, thid@);
    let p = other_remote(from@);
    let a = old(config).private.vrcs_issued.entries@;
    let b = old(config).private.vrcs_received.entries@;
    assert forall|j: int| 0 <= j < a.filter(p).len() implies (#[trigger] a.filter(
        p,
    )[j]).remote_p_did@ != from@ by {
        assert(p(a.filter(p)[j]));
    }
    assert forall|j: int| 0 <= j < b.filter(p).len() implies (#[trigger] b.filter(
        p,
    )[j]).remote_p_did@ != from@ by {
        assert(p(b.filter(p)[j]));
    }
}

/// A request for a relationship from a party that is not known yet is put before
/// the user as it came, where there is room: under its id, from its sender, to
/// the DID it was sent to. No relationship comes of it by itself.
pub proof fn law_request_is_put_before_the_user(
    config: &mut Config,
    message: &InboundMessage,
    kind: InboundKind,
    verdict: Verdict,
    r: Processed,
    from: String,
    body: RequestBody,
)
    requires
        call_ensures(process_inbound_message, (config, message, kind, verdict), r),
        verdict.fresh && !verdict.replayed,
        message.from == Some(from),
        !oversized(message.body@),
        kind == (InboundKind::RelationshipRequest { body: Ok::<RequestBody, String>(body) }),
        body.did_valid,
        old(config).private.tasks@.len() < verdict.max_tasks,
        old(config).private.relationships@.len() < 5000,
        lookup(old(config).private.relationships@, from@) is None,
        by_remote_did(old(config).private.relationships@, from@) is None,
        forall|i: int|
            0 <= i < old(config).private.tasks@.len() ==> !((#[trigger] old(config).private.tasks@[i]).type_ is RelationshipRequestInbound && old(config).private.tasks@[i].type_->RelationshipRequestInbound_from@ == from@),
    ensures
        r matches Ok(o) && o.changed && o.send is None,
        lookup(final(config).private.tasks@, message.id@) matches Some(task) && (task.type_ matches TaskType::RelationshipRequestInbound {
            from: sender,
            to,
            request,
        } && sender@ == from@ && request == body.request && (message.to@.len() > 0 ==> to@
            == message.to@[0]@)),
        final(config).private.relationships == old(config).private.relationships,
        forall|k: Seq<char>|
            k != message.id@ ==> #[trigger] lookup(final(config).private.tasks@, k) == lookup(
                old(config).private.tasks@,
                k,
            ),
{
    assert(!request_pending(old(config).private.tasks@, from@));
    assert(request_welcome(*old(config), from@, body.did_valid, verdict.max_tasks));
    let to = choose|to: String|
        to@ == first_to(*message) && #[trigger] task_filed(
            old(config).private.tasks@,
            final(config).private.tasks@,
            message.id@,
            TaskType::RelationshipRequestInbound { from, to, request: body.request },
            recipient_persona(*old(config), *message),
        );
    lemma_task_filed(
        old(config).private.tasks@,
        final(config).private.tasks@,
        message.id@,
        TaskType::RelationshipRequestInbound { from, to, request: body.request },
        recipient_persona(*old(config), *message),
    );
}

/// A request for a relationship from a party that we know, or whose request is in
/// the inbox already, or for which there is no room, changes nothing.
pub proof fn law_needless_request_is_dropped(
    config: &mut Config,
    message: &InboundMessage,
    kind: InboundKind,
    verdict: Verdict,
    r: Processed,
    from: String,
    body: RequestBody,
)
    requires
        call_ensures(process_inbound_message, (config, message, kind, verdict), r),
        message.from == Some(from),
        kind == (InboundKind::RelationshipRequest { body: Ok::<RequestBody, String>(body) }),
        !body.did_valid || old(config).private.tasks@.len() >= verdict.max_tasks || old(config).private.relationships@.len() >= 5000 || lookup(
            old(config).private.relationships@,
            from@,
        ) is Some || by_remote_did(old(config).private.relationships@, from@) is Some,
    ensures
        *final(config) == *old(config),
        r matches Ok(o) && !o.changed && o.send is None,
{
}

/// A credential issued to us comes before the user only where it was sent over an
/// established relationship, by the party that issued it, with a proof that
/// holds; and then it does, as it came, where the inbox has room.
pub proof fn law_issued_credential_is_vetted(
    config: &mut Config,
    message: &InboundMessage,
    kind: InboundKind,
    verdict: Verdict,
    r: Processed,
    from: String,
    body: IssuedBody,
)
    requires
        call_ensures(process_inbound_message, (config, message, kind, verdict), r),
        message.from == Some(from),
        kind == (InboundKind::VrcIssued { body: Ok::<IssuedBody, String>(body) }),
    ensures
        !(by_remote_did(old(config).private.relationships@, from@) matches Some(rel) && rel.state
            is Established && rel.remote_p_did@ == body.vrc.issuer@) || !body.proof_valid
            ==> *final(config) == *old(config),
        (by_remote_did(old(config).private.relationships@, from@) matches Some(rel) && rel.state
            is Established && rel.remote_p_did@ == body.vrc.issuer@) && body.proof_valid
            && verdict.fresh && !verdict.replayed && !oversized(message.body@) && old(config).private.tasks@.len() < verdict.max_tasks ==> exists|id: Seq<char>| #[trigger]
            lookup(final(config).private.tasks@, id) is Some && (id == message.id@ || opt_view(
                message.thid,
            ) == Some(id)) && lookup(final(config).private.tasks@, id)->0.type_ == (TaskType::VRCIssued {
                vrc: body.vrc,
            }),
        final(config).private.vrcs_received == old(config).private.vrcs_received,
        final(config).private.relationships == old(config).private.relationships,
{
    if (by_remote_did(old(config).private.relationships@, from@) matches Some(rel) && rel.state
        is Established && rel.remote_p_did@ == body.vrc.issuer@) && body.proof_valid
        && verdict.fresh && !verdict.replayed && !oversized(message.body@) && old(config).private.tasks@.len() < verdict.max_tasks {
        let tasks = old(config).private.tasks@;
        let pending = vetted(*old(config), body.vrc.issuer@, from@, message.thid)->0;
        let left = request_closed(tasks, pending);
        let id = match pending {
            Some(id) => id,
            None => message.id@,
        };
        if let Some(p) = pending {
            lemma_without(tasks, p);
        }
        assert(left.len() <= tasks.len());
        lemma_task_filed(
            left,
            final(config).private.tasks@,
            id,
            TaskType::VRCIssued { vrc: body.vrc },
            recipient_persona(*old(config), *message),
        );
        assert(lookup(final(config).private.tasks@, id) is Some);
    }
}

/// A request for a credential comes before the user where it was sent over an
/// established relationship and the inbox has room, and otherwise not.
pub proof fn law_credential_is_asked_for_over_a_relationship(
    config: &mut Config,
    message: &InboundMessage,
    kind: InboundKind,
    verdict: Verdict,
    r: Processed,
    from: String,
    reason: Option<String>,
)
    requires
        call_ensures(process_inbound_message, (config, message, kind, verdict), r),
        verdict.fresh && !verdict.replayed,
        message.from == Some(from),
        !oversized(message.body@),
        kind == (InboundKind::VrcRequest { reason: Ok::<Option<String>, String>(reason) }),
    ensures
        by_remote_did(old(config).private.relationships@, from@) is None ==> r is Err && *final(config) == *old(config),
        by_remote_did(old(config).private.relationships@, from@) matches Some(rel) ==> {
            if rel.state is Established && old(config).private.tasks@.len() < verdict.max_tasks {
                &&& lookup(final(config).private.tasks@, message.id@) matches Some(task)
                &&& task.type_ matches TaskType::VRCRequestInbound { reason: why, remote_p_did }
                &&& why == reason
                &&& remote_p_did@ == rel.remote_p_did@
            } else {
                *final(config) == *old(config)
            }
        },
        final(config).private.relationships == old(config).private.relationships,
        final(config).private.vrcs_issued == old(config).private.vrcs_issued,
{
    if let Some(rel) = by_remote_did(old(config).private.relationships@, from@) {
        if rel.state is Established && old(config).private.tasks@.len() < verdict.max_tasks {
            lemma_task_filed(
                old(config).private.tasks@,
                final(config).private.tasks@,
                message.id@,
                TaskType::VRCRequestInbound { reason, remote_p_did: rel.remote_p_did },
                recipient_persona(*old(config), *message),
            );
        }
    }
}

/// That a request of ours for a credential was turned down by a known party takes
/// it out of the inbox, and nothing else.
pub proof fn law_turned_down_request_is_closed(
    config: &mut Config,
    message: &InboundMessage,
    kind: InboundKind,
    verdict: Verdict,
    r: Processed,
    from: String,
    thid: String,
    reason: Option<String>,
)
    requires
        call_ensures(process_inbound_message, (config, message, kind, verdict), r),
        verdict.fresh && !verdict.replayed,
        message.from == Some(from),
        !oversized(message.body@),
        kind == (InboundKind::VrcRejected { reason: Ok::<Option<String>, String>(reason) }),
        message.thid == Some(thid),
    ensures
        lookup(old(config).private.relationships@, from@) is Some || by_remote_did(
            old(config).private.relationships@,
            from@,
        ) is Some ==> lookup(final(config).private.tasks@, thid@) is None && forall|k: Seq<char>|
            k != thid@ ==> #[trigger] lookup(final(config).private.tasks@, k) == lookup(
                old(config).private.tasks@,
                k,
            ),
        lookup(old(config).private.relationships@, from@) is None && by_remote_did(
            old(config).private.relationships@,
            from@,
        ) is None ==> *final(config) == *old(config),
        final(config).private.relationships == old(config).private.relationships,
        final(config).private.vrcs_received == old(config).private.vrcs_received,
{
    lemma_without(old(config).private.tasks@, thid@);
}

/// An answer to a ping closes the task of that ping and leaves every other task,
/// and everything else, as it was.
pub proof fn law_pong_closes_its_ping(
    config: &mut Config,
    message: &InboundMessage,
    kind: InboundKind,
    verdict: Verdict,
    r: Processed,
    thid: String,
)
    requires
        call_ensures(process_inbound_message, (config, message, kind, verdict), r),
        verdict.fresh && !verdict.replayed,
        message.thid == Some(thid),
        message.from is Some && !oversized(message.body@) && kind is TrustPong || message.from
            is None && message.typ@ == "https://didcomm.org/trust-ping/2.0/ping-response"@,
    ensures
        lookup(final(config).private.tasks@, thid@) is None,
        forall|k: Seq<char>|
            k != thid@ ==> #[trigger] lookup(final(config).private.tasks@, k) == lookup(
                old(config).private.tasks@,
                k,
            ),
        r matches Ok(o) && (o.changed <==> lookup(old(config).private.tasks@, thid@) is Some),
        final(config).private.relationships == old(config).private.relationships,
        final(config).account == old(config).account,
{
    lemma_without(old(config).private.tasks@, thid@);
}

/// A ping from the other side of a relationship is shown in the inbox, under the
/// party it came from.
pub proof fn law_ping_of_a_party_is_shown(
    config: &mut Config,
    message: &InboundMessage,
    kind: InboundKind,
    verdict: Verdict,
    r: Processed,
    from: String,
    rel: Relationship,
)
    requires
        call_ensures(process_inbound_message, (config, message, kind, verdict), r),
        verdict.fresh && !verdict.replayed,
        message.from == Some(from),
        !oversized(message.body@),
        kind is TrustPing,
        old(config).private.tasks@.len() < verdict.max_tasks,
        by_remote_did(old(config).private.relationships@, from@) == Some(rel),
    ensures
        r matches Ok(o) && o.changed,
        lookup(final(config).private.tasks@, message.id@) matches Some(task) && (task.type_ matches TaskType::TrustPing {
            from: sender,
            to: _,
            remote_p_did,
        } && sender@ == from@ && remote_p_did@ == rel.remote_p_did@),
        final(config).private.relationships == old(config).private.relationships,
{
    let to = choose|to: String|
        to@ == first_to(*message) && #[trigger] task_filed(
            old(config).private.tasks@,
            final(config).private.tasks@,
            message.id@,
            TaskType::TrustPing { from, to, remote_p_did: rel.remote_p_did },
            recipient_persona(*old(config), *message),
        );
    lemma_task_filed(
        old(config).private.tasks@,
        final(config).private.tasks@,
        message.id@,
        TaskType::TrustPing { from, to, remote_p_did: rel.remote_p_did },
        recipient_persona(*old(config), *message),
    );
}

/// A message whose body, printed, has more than a mebibyte is dropped.
pub proof fn law_oversized_body_is_dropped(
    config: &mut Config,
    message: &InboundMessage,
    kind: InboundKind,
    verdict: Verdict,
    r: Processed,
    printed: Seq<char>,
)
    requires
        call_ensures(process_inbound_message, (config, message, kind, verdict), r),
        json_compact(message.body@) == Some(printed),
        vstd::utf8::encode_utf8(printed).len() > 1048576,
        message.from is Some,
    ensures
        *final(config) == *old(config),
        r matches Ok(o) && !o.changed && o.send is None && o.remove_listener is None,
{
}

/// A message that does not say who sent it changes nothing, unless it answers a
/// ping.
pub proof fn law_nameless_message_is_dropped(
    config: &mut Config,
    message: &InboundMessage,
    kind: InboundKind,
    verdict: Verdict,
    r: Processed,
)
    requires
        call_ensures(process_inbound_message, (config, message, kind, verdict), r),
        message.from is None,
        message.typ@ != "https://didcomm.org/trust-ping/2.0/ping-response"@,
    ensures
        *final(config) == *old(config),
        r matches Ok(o) && !o.changed && o.send is None && o.remove_listener is None,
{
}

/// What a persona of ours is sent by a community concerns the memberships alone,
/// and what others send does not touch them.
pub proof fn law_messages_keep_to_their_own(
    config: &mut Config,
    message: &InboundMessage,
    kind: InboundKind,
    verdict: Verdict,
    r: Processed,
)
    requires
        call_ensures(process_inbound_message, (config, message, kind, verdict), r),
    ensures
        kind is JoinReceipt || kind is CredentialIssue ==> final(config).public == old(config).public && (message.from is Some ==> final(config).private == old(config).private),
        kind !is JoinReceipt && kind !is CredentialIssue ==> final(config).account == old(config).account,
        final(config).identities == old(config).identities,
        final(config).key_info == old(config).key_info,
        final(config).key_backend == old(config).key_backend,
        final(config).private.contacts == old(config).private.contacts,
        final(config).private.vrcs_received.entries@.len() <= old(config).private.vrcs_received.entries@.len(),
{
    broadcast use vstd::seq_lib::group_filter_ensures;

}

/// A community's own receipt tells us the id under which it has our request: the
/// membership that awaits it goes on under that id, and nothing else changes.
pub proof fn law_receipt_renames_the_request(
    account: &mut Account,
    thid: &Option<String>,
    request_id: String,
    from: &str,
    r: bool,
    id: String,
    i: int,
)
    requires
        call_ensures(handle_join_submit_receipt, (account, thid, request_id, from), r),
        *thid == Some(id),
        0 <= i < old(account).communities@.len(),
        old(account).communities@[i].vtc_did@ == from@,
        old(account).communities@[i].status matches CommunityStatus::Pending { request_id: was }
            && was@ == id@,
        forall|j: int|
            0 <= j < i ==> !((#[trigger] old(account).communities@[j]).vtc_did@ == from@ && old(account).communities@[j].status is Pending && old(account).communities@[j].status->Pending_request_id@ == id@),
    ensures
        r,
        final(account).communities@.len() == old(account).communities@.len(),
        final(account).communities@[i].status matches CommunityStatus::Pending { request_id: now }
            && now@ == request_id@,
        final(account).communities@[i].vtc_did == old(account).communities@[i].vtc_did,
        final(account).communities@[i].persona_ref == old(account).communities@[i].persona_ref,
        forall|j: int|
            0 <= j < old(account).communities@.len() && j != i ==> #[trigger] final(account).communities@[j] == old(account).communities@[j],
{
    lemma_awaiting_at(old(account).communities@, from@, id@, i);
}

/// Only the community that was asked can answer: a receipt from anyone else, or
/// in another thread, changes nothing.
pub proof fn law_receipt_must_match(
    account: &mut Account,
    thid: &Option<String>,
    request_id: String,
    from: &str,
    r: bool,
)
    requires
        call_ensures(handle_join_submit_receipt, (account, thid, request_id, from), r),
        *thid is None || forall|j: int|
            0 <= j < old(account).communities@.len() ==> !((#[trigger] old(account).communities@[j]).vtc_did@ == from@ && old(account).communities@[j].status is Pending
                && old(account).communities@[j].status->Pending_request_id@ == thid->0@),
    ensures
        !r,
        *final(account) == *old(account),
{
    if let Some(id) = *thid {
        lemma_awaiting_at(
            old(account).communities@,
            from@,
            id@,
            old(account).communities@.len() as int,
        );
    }
}

/// A membership credential from the community puts a pending membership of the
/// persona it was sent to in force, from the moment that the clock shows; the
/// credential is kept with it. No other membership changes.
pub proof fn law_credential_puts_membership_in_force(
    account: &mut Account,
    kind: IssuedKind,
    credential: String,
    from: &str,
    persona: Option<PersonaId>,
    r: bool,
    p: PersonaId,
    i: int,
)
    requires
        call_ensures(handle_credential_issue, (account, kind, credential, from, persona), r),
        persona == Some(p),
        membership_at(old(account).communities@, from@, p) == Some(i),
        old(account).communities@[i].status is Pending,
        kind is Membership,
    ensures
        r,
        0 <= i < final(account).communities@.len(),
        final(account).communities@[i].status is Active,
        final(account).communities@[i].live(),
        final(account).communities@[i].vtc_did@ == from@,
        final(account).communities@[i].persona_ref == p,
        opt_view(final(account).communities@[i].membership_credential) == Some(credential@),
        final(account).communities@[i].member_since matches Some(t) && clock_read(t),
        forall|j: int|
            0 <= j < old(account).communities@.len() && j != i ==> #[trigger] final(account).communities@[j] == old(account).communities@[j],
{
    lemma_membership_found(old(account).communities@, from@, p);
}

/// A credential changes no membership but a live one of the persona it was sent
/// to, in the community that sent it: what has been left or refused stays so, and
/// only a membership credential puts one in force.
pub proof fn law_credential_revives_nothing(
    account: &mut Account,
    kind: IssuedKind,
    credential: String,
    from: &str,
    persona: Option<PersonaId>,
    r: bool,
    j: int,
)
    requires
        call_ensures(handle_credential_issue, (account, kind, credential, from, persona), r),
        0 <= j < old(account).communities@.len(),
        final(account).communities@[j] != old(account).communities@[j],
    ensures
        old(account).communities@[j].live(),
        persona == Some(old(account).communities@[j].persona_ref),
        old(account).communities@[j].vtc_did@ == from@,
        final(account).communities@[j].status != old(account).communities@[j].status
            ==> kind is Membership,
        kind is Role ==> opt_view(final(account).communities@[j].role_credential) == Some(
            credential@,
        ) && final(account).communities@[j].status == old(account).communities@[j].status,
        r,
{
    if let Some(p) = persona {
        lemma_membership_found(old(account).communities@, from@, p);
    }
}

} // verus!
