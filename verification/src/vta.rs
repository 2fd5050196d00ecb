//! What is asked of a VTA, and what is made of its replies.

use crate::ledger::KeySource;
use crate::main_page::ErrorText;
use crate::setup::{KeyInfo, KeyMaterial, PersonaDIDKeys, WebvhPathMode};
use crate::text::{cat2, cat3, copy_opt, opt_view, owned};
use vstd::prelude::*;

verus! {

// ---------------------------------------------------------------------------
// Retries
// ---------------------------------------------------------------------------

/// How often a request is sent before it is given up.
pub const VTA_MAX_ATTEMPTS: usize = 3;

/// How many milliseconds pass before the second attempt; twice as many before
/// the third.
pub const VTA_RETRY_BASE: u64 = 500;

/// Why a request to a VTA failed.
#[derive(Clone, Debug)]
pub enum VtaError {
    /// The message did not get through.
    DidcommTransport(String),
    /// The network did not carry the request.
    Network(String),
    /// The VTA itself failed.
    Server { status: u16, body: String },
    Validation(String),
    Conflict(String),
    NotFound(String),
    Auth(String),
    Gone(String),
    Other(String),
}

/// Whether another attempt may fare better: where the request did not get
/// through, or the VTA itself failed.
pub open spec fn is_transient(e: VtaError) -> bool {
    e is DidcommTransport || e is Network || e is Server
}

/// Whether another attempt may fare better.
pub fn vta_retryable(e: &VtaError) -> (r: bool)
    ensures
        r == is_transient(*e),
{
    match e {
        VtaError::DidcommTransport(_) => true,
        VtaError::Network(_) => true,
        VtaError::Server { .. } => true,
        _ => false,
    }
}

/// How many milliseconds to wait before the attempt after this one; `None` where
/// there is none.
pub open spec fn retry_delay(attempt: usize, e: VtaError) -> Option<u64> {
    if !is_transient(e) {
        None
    } else if attempt == 1 {
        Some(VTA_RETRY_BASE)
    } else if attempt == 2 {
        Some((2 * VTA_RETRY_BASE) as u64)
    } else {
        None
    }
}

/// How many milliseconds to wait before another attempt, if there is to be one.
pub fn vta_retry(attempt: usize, e: &VtaError) -> (r: Option<u64>)
    ensures
        r == retry_delay(attempt, *e),
{
    if !vta_retryable(e) {
        None
    } else if attempt == 1 {
        Some(VTA_RETRY_BASE)
    } else if attempt == 2 {
        Some(2 * VTA_RETRY_BASE)
    } else {
        None
    }
}

/// No request is sent more often than allowed, and one that was refused for good
/// is not sent again.
pub proof fn law_attempts_are_bounded(attempt: usize, e: VtaError)
    ensures
        attempt >= VTA_MAX_ATTEMPTS ==> retry_delay(attempt, e) is None,
        !is_transient(e) ==> retry_delay(attempt, e) is None,
        1 <= attempt < VTA_MAX_ATTEMPTS && is_transient(e) ==> retry_delay(attempt, e) is Some,
{
}

// ---------------------------------------------------------------------------
// Keys
// ---------------------------------------------------------------------------

/// The kinds of keys.
#[derive(Clone, Copy, Debug, PartialEq, Eq, Structural)]
pub enum KeyType {
    Ed25519,
    X25519,
}

/// A key that a VTA is asked to make.
#[derive(Clone, Debug)]
pub struct KeyOrder {
    pub key_type: KeyType,
    pub label: String,
    pub context_id: Option<String>,
    /// How the key is named in errors.
    pub what: String,
}

/// What is fixed of an order.
pub struct OrderView {
    pub key_type: KeyType,
    pub label: Seq<char>,
    pub context_id: Option<Seq<char>>,
    pub what: Seq<char>,
}

impl View for KeyOrder {
    type V = OrderView;

    open spec fn view(&self) -> OrderView {
        OrderView {
            key_type: self.key_type,
            label: self.label@,
            context_id: opt_view(self.context_id),
            what: self.what@,
        }
    }
}

/// The keys of a persona, in the order in which they are made.
pub open spec fn persona_order(n: int, context_id: Option<Seq<char>>) -> Option<OrderView> {
    if n == 0 {
        Some(
            OrderView {
                key_type: KeyType::Ed25519,
                label: "persona-signing"@,
                context_id,
                what: "signing key"@,
            },
        )
    } else if n == 1 {
        Some(
            OrderView {
                key_type: KeyType::Ed25519,
                label: "persona-authentication"@,
                context_id,
                what: "authentication key"@,
            },
        )
    } else if n == 2 {
        Some(
            OrderView {
                key_type: KeyType::X25519,
                label: "persona-encryption"@,
                context_id,
                what: "encryption key"@,
            },
        )
    } else {
        None
    }
}

fn order(key_type: KeyType, label: &str, context_id: &Option<String>, what: &str) -> (r: KeyOrder)
    ensures
        r@ == (OrderView {
            key_type,
            label: label@,
            context_id: opt_view(*context_id),
            what: what@,
        }),
{
    KeyOrder {
        key_type,
        label: owned(label),
        context_id: copy_opt(context_id),
        what: owned(what),
    }
}

/// The orders for the keys of a persona: one to sign, one to authenticate and
/// one to encrypt.
pub fn create_persona_keys(context_id: &Option<String>) -> (r: Vec<KeyOrder>)
    ensures
        r@.len() == 3,
        forall|n: int|
            0 <= n < 3 ==> persona_order(n, opt_view(*context_id)) == Some((#[trigger] r@[n])@),
{
    let mut v: Vec<KeyOrder> = Vec::new();
    v.push(order(KeyType::Ed25519, "persona-signing", context_id, "signing key"));
    v.push(order(KeyType::Ed25519, "persona-authentication", context_id, "authentication key"));
    v.push(order(KeyType::X25519, "persona-encryption", context_id, "encryption key"));
    v
}

/// The keys that update a DID, in the order in which they are made.
pub open spec fn update_order(n: int, context_id: Option<Seq<char>>) -> Option<OrderView> {
    if n == 0 {
        Some(
            OrderView {
                key_type: KeyType::Ed25519,
                label: "webvh-update"@,
                context_id,
                what: "WebVH update key"@,
            },
        )
    } else if n == 1 {
        Some(
            OrderView {
                key_type: KeyType::Ed25519,
                label: "webvh-next-update"@,
                context_id,
                what: "WebVH next update key"@,
            },
        )
    } else {
        None
    }
}

/// The orders for the keys that update a DID: this one and the next.
pub fn create_update_keys(context_id: &Option<String>) -> (r: Vec<KeyOrder>)
    ensures
        r@.len() == 2,
        forall|n: int|
            0 <= n < 2 ==> update_order(n, opt_view(*context_id)) == Some((#[trigger] r@[n])@),
{
    let mut v: Vec<KeyOrder> = Vec::new();
    v.push(order(KeyType::Ed25519, "webvh-update", context_id, "WebVH update key"));
    v.push(order(KeyType::Ed25519, "webvh-next-update", context_id, "WebVH next update key"));
    v
}

/// What a VTA replied to an order.
#[derive(Clone)]
pub enum KeyReply {
    /// The key was not made.
    NotCreated(String),
    /// Its secret was not handed out.
    NoSecret(String),
    /// Its secret could not be read.
    Unreadable(String),
    /// The key, and the id under which the VTA holds it.
    Created { key_id: String, secret: KeyMaterial },
}

/// What an order comes to.
pub open spec fn order_filled(
    o: KeyOrder,
    reply: KeyReply,
    now: i64,
    r: Result<KeyInfo, ErrorText>,
) -> bool {
    match reply {
        KeyReply::NotCreated(e) => r matches Err(t) && t.says(
            "Failed to create "@ + o.what@ + ": "@ + e@,
        ),
        KeyReply::NoSecret(e) => r matches Err(t) && t.says(
            "Failed to get "@ + o.what@ + " secret: "@ + e@,
        ),
        KeyReply::Unreadable(e) => r matches Err(t) && t.says(e@),
        KeyReply::Created { key_id, secret } => r == Ok::<KeyInfo, ErrorText>(
            KeyInfo {
                secret,
                source: KeySource::VtaManaged { key_id },
                expiry: None,
                created: now,
            },
        ),
    }
}

/// Makes a key of the reply to an order.
pub fn fill_order(o: &KeyOrder, reply: KeyReply, now: i64) -> (r: Result<KeyInfo, ErrorText>)
    ensures
        order_filled(*o, reply, now, r),
{
    match reply {
        KeyReply::NotCreated(e) => {
            let head = cat2("Failed to create ", o.what.as_str());
            Err(ErrorText::plain(cat3(head.as_str(), ": ", e.as_str())))
        },
        KeyReply::NoSecret(e) => {
            let head = cat2("Failed to get ", o.what.as_str());
            Err(ErrorText::plain(cat3(head.as_str(), " secret: ", e.as_str())))
        },
        KeyReply::Unreadable(e) => Err(ErrorText::plain(e)),
        KeyReply::Created { key_id, secret } => Ok(
            KeyInfo {
                secret,
                source: KeySource::VtaManaged { key_id },
                expiry: None,
                created: now,
            },
        ),
    }
}

// ---------------------------------------------------------------------------
// DIDs
// ---------------------------------------------------------------------------

/// A DID that a VTA is asked to have a server host.
#[derive(Clone, Debug)]
pub struct DidRequest {
    pub context_id: String,
    pub server_id: String,
    pub path_mode: WebvhPathMode,
    /// The DID may move to another server.
    pub portable: bool,
    /// The VTA's own mediator is named in the document.
    pub add_mediator_service: bool,
    pub pre_rotation_count: u32,
    pub set_primary: bool,
}

/// Asks for a DID on a server.
pub fn did_request(context_id: &str, server_id: &str, path_mode: WebvhPathMode) -> (r: DidRequest)
    ensures
        r.context_id@ == context_id@,
        r.server_id@ == server_id@,
        r.path_mode == path_mode,
        r.portable,
        r.add_mediator_service,
        r.pre_rotation_count == 1,
        !r.set_primary,
{
    DidRequest {
        context_id: owned(context_id),
        server_id: owned(server_id),
        path_mode,
        portable: true,
        add_mediator_service: true,
        pre_rotation_count: 1,
        set_primary: false,
    }
}

/// A DID that a server hosts now.
#[derive(Clone, Debug)]
pub struct DidCreated {
    pub did: String,
    pub mnemonic: Option<String>,
    pub signing_key_id: String,
    pub ka_key_id: String,
}

/// What a VTA replied to a request for a DID.
#[derive(Clone)]
pub enum DidReply {
    NotCreated(String),
    /// The secret of the signing key was not handed out.
    NoSigningSecret(String),
    /// The secret of the encryption key was not handed out.
    NoKaSecret(String),
    /// A secret could not be read.
    Unreadable(String),
    /// The DID could not be resolved.
    Unresolved(String),
    /// The DID, the secrets of its keys and its document, as JSON text.
    Created { created: DidCreated, signing: KeyMaterial, ka: KeyMaterial, document: String },
}

/// A persona's DID on a server, with its keys.
#[derive(Clone)]
pub struct HostedDid {
    pub keys: PersonaDIDKeys,
    pub did: String,
    pub document: String,
    pub mnemonic: String,
}

/// A key of a hosted DID, under the id of its verification method.
pub open spec fn is_hosted_key(
    k: KeyInfo,
    secret: KeyMaterial,
    did: Seq<char>,
    fragment: Seq<char>,
    key_id: String,
    now: i64,
) -> bool {
    &&& k.secret.id@ == did + fragment
    &&& k.secret.public_bytes@ == secret.public_bytes@
    &&& k.secret.private_key_mb == secret.private_key_mb
    &&& k.source == (KeySource::VtaManaged { key_id })
    &&& k.expiry is None
    &&& k.created == now
}

/// What a request for a DID comes to: the same key signs and authenticates.
pub open spec fn did_hosted(reply: DidReply, now: i64, r: Result<HostedDid, ErrorText>) -> bool {
    match reply {
        DidReply::NotCreated(e) => r matches Err(t) && t.says(
            "Failed to create DID via WebVH server: "@ + e@,
        ),
        DidReply::NoSigningSecret(e) => r matches Err(t) && t.says(
            "Failed to get signing key secret: "@ + e@,
        ),
        DidReply::NoKaSecret(e) => r matches Err(t) && t.says("Failed to get KA key secret: "@ + e@),
        DidReply::Unreadable(e) => r matches Err(t) && t.says(e@),
        DidReply::Unresolved(e) => r matches Err(t) && t.says(
            "Failed to resolve created DID: "@ + e@,
        ),
        DidReply::Created { created, signing, ka, document } => {
            &&& r matches Ok(h)
            &&& h.did == created.did
            &&& h.document == document
            &&& h.mnemonic@ == (match created.mnemonic {
                Some(m) => m@,
                None => Seq::empty(),
            })
            &&& is_hosted_key(
                h.keys.signing,
                signing,
                created.did@,
                "#key-0"@,
                created.signing_key_id,
                now,
            )
            &&& is_hosted_key(
                h.keys.authentication,
                signing,
                created.did@,
                "#key-0"@,
                created.signing_key_id,
                now,
            )
            &&& is_hosted_key(
                h.keys.decryption,
                ka,
                created.did@,
                "#key-1"@,
                created.ka_key_id,
                now,
            )
        },
    }
}

fn hosted_key(secret: &KeyMaterial, did: &str, fragment: &str, key_id: &String, now: i64) -> (r:
    KeyInfo)
    ensures
        is_hosted_key(r, *secret, did@, fragment@, *key_id, now),
{
    KeyInfo {
        secret: KeyMaterial {
            id: cat2(did, fragment),
            public_bytes: copy_bytes(&secret.public_bytes),
            private_key_mb: secret.private_key_mb.clone(),
        },
        source: KeySource::VtaManaged { key_id: key_id.clone() },
        expiry: None,
        created: now,
    }
}

/// A copy of these bytes.
pub fn copy_bytes(v: &Vec<u8>) -> (r: Vec<u8>)
    ensures
        r@ == v@,
{
    let mut out: Vec<u8> = Vec::new();
    let mut i: usize = 0;
    while i < v.len()
        invariant
            i <= v@.len(),
            out@ == v@.take(i as int),
        decreases v@.len() - i,
    {
        out.push(v[i]);
        assert(v@.take(i + 1) =~= v@.take(i as int).push(v@[i as int]));
        i = i + 1;
    }
    assert(v@.take(i as int) =~= v@);
    out
}

/// Makes a persona's DID of the reply to a request for one.
pub fn create_did_via_server(reply: DidReply, now: i64) -> (r: Result<HostedDid, ErrorText>)
    ensures
        did_hosted(reply, now, r),
{
    match reply {
        DidReply::NotCreated(e) => Err(
            ErrorText::plain(cat2("Failed to create DID via WebVH server: ", e.as_str())),
        ),
        DidReply::NoSigningSecret(e) => Err(
            ErrorText::plain(cat2("Failed to get signing key secret: ", e.as_str())),
        ),
        DidReply::NoKaSecret(e) => Err(
            ErrorText::plain(cat2("Failed to get KA key secret: ", e.as_str())),
        ),
        DidReply::Unreadable(e) => Err(ErrorText::plain(e)),
        DidReply::Unresolved(e) => Err(
            ErrorText::plain(cat2("Failed to resolve created DID: ", e.as_str())),
        ),
        DidReply::Created { created, signing, ka, document } => {
            let did = created.did.as_str();
            let keys = PersonaDIDKeys {
                signing: hosted_key(&signing, did, "#key-0", &created.signing_key_id, now),
                authentication: hosted_key(&signing, did, "#key-0", &created.signing_key_id, now),
                decryption: hosted_key(&ka, did, "#key-1", &created.ka_key_id, now),
            };
            let mnemonic = match created.mnemonic {
                Some(m) => m,
                None => String::new(),
            };
            Ok(HostedDid { keys, did: created.did, document, mnemonic })
        },
    }
}

/// The context of a community under that of the account, once it is made: the
/// one that was asked for.
pub fn create_sub_context(sub_context_id: &str) -> (r: String)
    ensures
        r@ == sub_context_id@,
{
    owned(sub_context_id)
}

/// Each wait is twice as long as the one before it, and after the last attempt
/// there is none.
pub proof fn law_waits_double(attempt: usize, e: VtaError, r: Option<u64>, next: Option<u64>)
    requires
        1 <= attempt < usize::MAX,
        call_ensures(vta_retry, (attempt, &e), r),
        call_ensures(vta_retry, ((attempt + 1) as usize, &e), next),
    ensures
        r is None ==> next is None,
        r is Some && next is Some ==> next->0 == 2 * r->0,
        attempt + 1 == VTA_MAX_ATTEMPTS ==> (r is Some <==> is_transient(e)),
        attempt + 1 == VTA_MAX_ATTEMPTS ==> next is None,
        r is Some ==> r->0 > 0,
{
}

/// A persona has a key to sign and a key to authenticate, and only the last of
/// its keys agrees on secrets; all of them are made in the context that was asked
/// for.
pub proof fn law_persona_keys_serve_their_purpose(context_id: Option<String>, r: Vec<KeyOrder>)
    requires
        call_ensures(create_persona_keys, (&context_id,), r),
    ensures
        r@.len() == 3,
        r@[0].key_type is Ed25519,
        r@[1].key_type is Ed25519,
        r@[2].key_type is X25519,
        r@[0].label@ != r@[1].label@,
        r@[1].label@ != r@[2].label@,
        r@[0].label@ != r@[2].label@,
        forall|n: int|
            0 <= n < 3 ==> opt_view((#[trigger] r@[n]).context_id) == opt_view(context_id),
{
    reveal_strlit("persona-signing");
    reveal_strlit("persona-authentication");
    reveal_strlit("persona-encryption");
    assert("persona-signing"@.len() == 15);
    assert("persona-authentication"@.len() == 22);
    assert("persona-encryption"@.len() == 18);
    assert(persona_order(0, opt_view(context_id)) == Some(r@[0]@));
    assert(persona_order(1, opt_view(context_id)) == Some(r@[1]@));
    assert(persona_order(2, opt_view(context_id)) == Some(r@[2]@));
    assert forall|n: int| 0 <= n < 3 implies opt_view((#[trigger] r@[n]).context_id) == opt_view(
        context_id,
    ) by {
        assert(persona_order(n, opt_view(context_id)) == Some(r@[n]@));
    }
}

/// The keys that update a DID sign, are two different ones, and are made in the
/// context that was asked for.
pub proof fn law_update_keys_sign(context_id: Option<String>, r: Vec<KeyOrder>)
    requires
        call_ensures(create_update_keys, (&context_id,), r),
    ensures
        r@.len() == 2,
        r@[0].label@ != r@[1].label@,
        forall|n: int|
            0 <= n < 2 ==> {
                &&& (#[trigger] r@[n]).key_type is Ed25519
                &&& opt_view(r@[n].context_id) == opt_view(context_id)
            },
{
    reveal_strlit("webvh-update");
    reveal_strlit("webvh-next-update");
    assert("webvh-update"@.len() == 12);
    assert("webvh-next-update"@.len() == 17);
    assert(update_order(0, opt_view(context_id)) == Some(r@[0]@));
    assert(update_order(1, opt_view(context_id)) == Some(r@[1]@));
    assert forall|n: int| 0 <= n < 2 implies {
        &&& (#[trigger] r@[n]).key_type is Ed25519
        &&& opt_view(r@[n].context_id) == opt_view(context_id)
    } by {
        assert(update_order(n, opt_view(context_id)) == Some(r@[n]@));
    }
}

/// A key comes of an order exactly where the VTA made it: it has the secret and
/// the id that the VTA gave it, and the VTA holds it.
pub proof fn law_filled_order_is_the_key(
    o: KeyOrder,
    reply: KeyReply,
    now: i64,
    r: Result<KeyInfo, ErrorText>,
)
    requires
        call_ensures(fill_order, (&o, reply, now), r),
    ensures
        r is Ok <==> reply is Created,
        reply matches KeyReply::Created { key_id, secret } ==> {
            let k = r->Ok_0;
            &&& k.secret == secret
            &&& k.source == (KeySource::VtaManaged { key_id })
            &&& k.created == now
            &&& k.expiry is None
        },
{
}

/// A hosted DID has the keys that the VTA made for it: what was signed with the
/// first is checked under the first verification method, and what is sent to it
/// is read with the second.
pub proof fn law_hosted_did_has_its_keys(
    reply: DidReply,
    now: i64,
    r: Result<HostedDid, ErrorText>,
)
    requires
        call_ensures(create_did_via_server, (reply, now), r),
    ensures
        r is Ok <==> reply is Created,
        reply matches DidReply::Created { created, signing, ka, document } ==> {
            let h = r->Ok_0;
            &&& h.did == created.did
            &&& h.document == document
            &&& h.keys.signing.secret.id@ == created.did@ + "#key-0"@
            &&& h.keys.authentication.secret.id@ == created.did@ + "#key-0"@
            &&& h.keys.decryption.secret.id@ == created.did@ + "#key-1"@
            &&& h.keys.signing.secret.private_key_mb == signing.private_key_mb
            &&& h.keys.authentication.secret.private_key_mb == signing.private_key_mb
            &&& h.keys.decryption.secret.private_key_mb == ka.private_key_mb
            &&& h.keys.signing.secret.public_bytes@ == signing.public_bytes@
            &&& h.keys.authentication.secret.public_bytes@ == signing.public_bytes@
            &&& h.keys.decryption.secret.public_bytes@ == ka.public_bytes@
            &&& h.keys.signing.source == (KeySource::VtaManaged { key_id: created.signing_key_id })
            &&& h.keys.decryption.source == (KeySource::VtaManaged { key_id: created.ka_key_id })
            &&& h.keys.signing.created == now
            &&& h.keys.authentication.created == now
            &&& h.keys.decryption.created == now
        },
{
}

/// A DID is asked for in this context, on this server and at this path; it may
/// move and rotate its keys, and names a mediator.
pub proof fn law_did_is_asked_for_as_wanted(
    context_id: &str,
    server_id: &str,
    path_mode: WebvhPathMode,
    r: DidRequest,
)
    requires
        call_ensures(did_request, (context_id, server_id, path_mode), r),
    ensures
        r.context_id@ == context_id@,
        r.server_id@ == server_id@,
        r.path_mode == path_mode,
        r.portable,
        r.add_mediator_service,
        r.pre_rotation_count > 0,
        !r.set_primary,
{
}

/// A request is sent again where it did not get through or the VTA failed, and
/// never where it was refused.
pub proof fn law_refusals_are_final(e: VtaError, r: bool, delay: Option<u64>)
    requires
        call_ensures(vta_retryable, (&e,), r),
        call_ensures(vta_retry, (1, &e), delay),
    ensures
        e is Network || e is DidcommTransport || e is Server ==> r && delay is Some,
        e is Validation || e is Conflict || e is NotFound || e is Auth || e is Gone || e is Other
            ==> !r && delay is None,
{
}

} // verus!
