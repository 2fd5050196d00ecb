//! Making a configuration: a new account, an imported backup, a new persona.

use crate::account::{held_by_others, drop_held, Account, KeyRef, PersonaRecord};
use crate::clock::{clock_read, draw_id, id_drawn, read_clock};
use crate::codec::{base64_url_decode, base64_url_read, bip32_key, bip32_signing_key};
use crate::config::{
    keys_recorded, Config, Identity, KeyBackend, ProtectionType, PublicConfig, CONFIG_VERSION,
};
use crate::ledger::{KeyEntry, KeyPurpose, KeySource, LogFamily, PersonaId};
use crate::main_page::ErrorText;
use crate::setup::{
    complain, messages_view, ConfigImport, ConfigProtection, KeyInfo, MessageView, PersonaDIDKeys,
    SetupState,
};
use crate::state::State;
use crate::text::{cat2, cat4, copy_opt, opt_view, owned};
use crate::vta::copy_bytes;
use vstd::prelude::*;

verus! {

/// What stands in where nothing else was chosen.
#[derive(Clone, Debug)]
pub struct Defaults {
    /// The organisation of a new account.
    pub org_did: String,
    /// The mediator of a new persona.
    pub mediator_did: String,
}

// ---------------------------------------------------------------------------
// A new account
// ---------------------------------------------------------------------------

/// The protection that was chosen.
pub open spec fn chosen_protection(p: ConfigProtection, r: ProtectionType) -> bool {
    match p {
        ConfigProtection::PlainText => r is Plaintext,
        ConfigProtection::Token(token) => r == ProtectionType::Token(token),
        ConfigProtection::Passcode(_) => r is Encrypted,
    }
}

/// The key that unlocks the configuration, where it was derived from a passcode.
pub open spec fn chosen_unlock(p: ConfigProtection, r: Option<Vec<u8>>) -> bool {
    match p {
        ConfigProtection::Passcode(key) => r matches Some(k) && k@ == key@,
        _ => r is None,
    }
}

/// The configuration of a new account: it has the keys of its VTA and nothing
/// else, neither a persona nor a community.
pub open spec fn is_new_account(
    config: Config,
    setup: SetupState,
    bundle: String,
    seed: Vec<u8>,
    defaults: Defaults,
) -> bool {
    let vta = setup.vta;
    let admin = vta.admin_credential->0;
    &&& config.account.vta_did == vta.vta_did
    &&& config.account.vta_url == vta.vta_url
    &&& config.account.top_context_id@ == (match vta.context_id {
        Some(c) => c@,
        None => Seq::empty(),
    })
    &&& config.account.org_did == defaults.org_did
    &&& config.account.personas@.len() == 0
    &&& config.account.communities@.len() == 0
    &&& config.identities@.len() == 0
    &&& config.active_persona is None
    &&& config.key_backend == (KeyBackend::Vta {
        credential_bundle: bundle,
        credential_did: admin.admin_did,
        credential_private_key: admin.admin_private_key_mb,
        vta_did: vta.vta_did,
        vta_url: vta.vta_url,
        mediator_did: vta.mediator_did,
        encryption_seed: seed,
    })
    &&& config.public.config_version == CONFIG_VERSION
    &&& chosen_protection(setup.protection, config.public.protection)
    &&& chosen_unlock(setup.protection, config.unlock_code)
    &&& config.public.friendly_name@.len() == 0
    &&& config.public.logs@ == seq![(LogFamily::Config, "Account bootstrap completed"@)]
    &&& config.private.is_empty()
    &&& config.key_info@.len() == 0
}

/// Makes the configuration of a new account; `bundle` is the credential of the
/// account in the form in which it is stored, and `seed` what its key comes to
/// for the encryption of the private part.
pub fn build_state_a_config(
    setup: &SetupState,
    bundle: Result<String, String>,
    seed: Result<Vec<u8>, String>,
    defaults: &Defaults,
) -> (r: Result<Config, ErrorText>)
    ensures
        match setup.vta.admin_credential {
            None => r matches Err(e) && e.says("VTA admin credential not issued"@),
            Some(_) => match bundle {
                Err(why) => r matches Err(e) && e.says(
                    "Failed to serialise VTA credential bundle: "@ + why@,
                ),
                Ok(text) => match seed {
                    Err(why) => r matches Err(e) && e.says(why@),
                    Ok(seed) => r matches Ok(config) && is_new_account(
                        config,
                        *setup,
                        text,
                        seed,
                        *defaults,
                    ),
                },
            },
        },
{
    let (protection, unlock_code) = match &setup.protection {
        ConfigProtection::PlainText => (ProtectionType::Plaintext, None),
        ConfigProtection::Token(token) => (ProtectionType::Token(token.clone()), None),
        ConfigProtection::Passcode(key) => (ProtectionType::Encrypted, Some(copy_bytes(key))),
    };
    let admin = match &setup.vta.admin_credential {
        Some(a) => a,
        None => {
            return Err(ErrorText::plain(owned("VTA admin credential not issued")));
        },
    };
    let credential_bundle = match bundle {
        Ok(text) => text,
        Err(why) => {
            return Err(
                ErrorText::plain(
                    cat2("Failed to serialise VTA credential bundle: ", why.as_str()),
                ),
            );
        },
    };
    let encryption_seed = match seed {
        Ok(bytes) => bytes,
        Err(why) => {
            return Err(ErrorText::plain(why));
        },
    };
    let mut config = Config::new(
        KeyBackend::Vta {
            credential_bundle,
            credential_did: admin.admin_did.clone(),
            credential_private_key: admin.admin_private_key_mb.clone(),
            vta_did: setup.vta.vta_did.clone(),
            vta_url: setup.vta.vta_url.clone(),
            mediator_did: copy_opt(&setup.vta.mediator_did),
            encryption_seed,
        },
    );
    config.account.vta_did = setup.vta.vta_did.clone();
    config.account.vta_url = setup.vta.vta_url.clone();
    config.account.top_context_id = match &setup.vta.context_id {
        Some(c) => c.clone(),
        None => String::new(),
    };
    config.account.org_did = defaults.org_did.clone();
    config.public.protection = protection;
    config.unlock_code = unlock_code;
    let ghost before = config.public.logs@;
    config.note(LogFamily::Config, owned("Account bootstrap completed"));
    assert(before =~= Seq::empty());
    assert(config.public.logs@ =~= seq![(LogFamily::Config, "Account bootstrap completed"@)]);
    Ok(config)
}

// ---------------------------------------------------------------------------
// A backup
// ---------------------------------------------------------------------------

/// `new` is `old` after the import page showed an error.
pub open spec fn import_complained(old: State, new: State, text: Seq<char>) -> bool {
    &&& new == (State {
        setup: SetupState {
            config_import: ConfigImport {
                messages: new.setup.config_import.messages,
                ..old.setup.config_import
            },
            ..old.setup
        },
        ..old
    })
    &&& messages_view(new.setup.config_import.messages@) == messages_view(
        old.setup.config_import.messages@,
    ).push(MessageView::Error(text))
}

/// What unpacking the content of a backup comes to.
pub open spec fn backup_unpacked(
    old: State,
    new: State,
    file: Seq<char>,
    content: Result<String, String>,
    r: Result<Vec<u8>, ErrorText>,
) -> bool {
    match content {
        Err(why) => import_complained(
            old,
            new,
            "Couldn't read from file ("@ + file + "). Reason: "@ + why@,
        ) && (r matches Err(e) && e.says("File read error"@)),
        Ok(text) => match base64_url_read(text@) {
            Err(why) => import_complained(
                old,
                new,
                "Couldn't base64 decode file content. Reason: "@ + why,
            ) && (r matches Err(e) && e.says("base64 decoding error"@)),
            Ok(bytes) => new == old && (r matches Ok(b) && b@ == bytes),
        },
    }
}

/// Unpacks the content of a backup; `content` is what was read of the file.
pub fn unpack_backup(state: &mut State, file: &str, content: Result<String, String>) -> (r: Result<
    Vec<u8>,
    ErrorText,
>)
    ensures
        backup_unpacked(*old(state), *final(state), file@, content, r),
{
    match content {
        Err(why) => {
            complain(
                &mut state.setup.config_import.messages,
                cat4("Couldn't read from file (", file, "). Reason: ", why.as_str()),
            );
            Err(ErrorText::plain(owned("File read error")))
        },
        Ok(text) => match base64_url_decode(text.as_str()) {
            Err(why) => {
                complain(
                    &mut state.setup.config_import.messages,
                    cat2("Couldn't base64 decode file content. Reason: ", why.as_str()),
                );
                Err(ErrorText::plain(owned("base64 decoding error")))
            },
            Ok(bytes) => Ok(bytes),
        },
    }
}

/// What a backup holds that its private part is unlocked with.
#[derive(Clone)]
pub struct BackupSecrets {
    /// The seed of its keys, in base64.
    pub bip32_seed: Option<String>,
    pub protection: ProtectionType,
}

/// The path of the key that unlocks the private part.
pub open spec fn private_path() -> Seq<char> {
    "m/0'/0'/0'"@
}

/// What a seed comes to: the key that unlocks the private part, or why there is
/// none.
pub open spec fn private_key_of(seed: Option<String>) -> Result<Seq<u8>, Seq<char>> {
    match seed {
        None => Err("Imported config missing BIP32 seed"@),
        Some(text) => match base64_url_read(text@) {
            Err(why) => Err("Couldn't base64 decode BIP32 seed: "@ + why),
            Ok(bytes) => match bip32_key(bytes, private_path()) {
                Some(key) => Ok(key),
                None => Err("Couldn't derive the private key of the imported config"@),
            },
        },
    }
}

/// The key that unlocks the private part, from the decoded seed.
pub fn private_key(seed: &Option<String>) -> (r: Result<Vec<u8>, ErrorText>)
    ensures
        match private_key_of(*seed) {
            Ok(key) => r matches Ok(k) && k@ == key,
            Err(why) => r matches Err(e) && e.says(why),
        },
{
    let text = match seed {
        None => {
            return Err(ErrorText::plain(owned("Imported config missing BIP32 seed")));
        },
        Some(t) => t,
    };
    let bytes = match base64_url_decode(text.as_str()) {
        Ok(b) => b,
        Err(why) => {
            return Err(
                ErrorText::plain(cat2("Couldn't base64 decode BIP32 seed: ", why.as_str())),
            );
        },
    };
    proof {
        reveal_strlit("m/0'/0'/0'");
    }
    match bip32_signing_key(bytes.as_slice(), "m/0'/0'/0'") {
        Some(key) => Ok(key),
        None => Err(
            ErrorText::plain(owned("Couldn't derive the private key of the imported config")),
        ),
    }
}

/// What reading a backup comes to: `parsed` is what its decrypted content holds,
/// or why it could not be read.
pub open spec fn backup_read(
    old: State,
    new: State,
    parsed: Result<BackupSecrets, String>,
    r: Result<Vec<u8>, ErrorText>,
) -> bool {
    match parsed {
        Err(why) => import_complained(
            old,
            new,
            "Couldn't deserialize configuration settings. Reason: "@ + why@,
        ) && (r matches Err(e) && e.says("deserialization error"@)),
        Ok(secrets) => new == old && match private_key_of(secrets.bip32_seed) {
            Ok(key) => r matches Ok(k) && k@ == key,
            Err(why) => r matches Err(e) && e.says(why),
        },
    }
}

/// Finds the key that unlocks the private part of a backup.
pub fn read_backup(state: &mut State, parsed: &Result<BackupSecrets, String>) -> (r: Result<
    Vec<u8>,
    ErrorText,
>)
    ensures
        backup_read(*old(state), *final(state), *parsed, r),
{
    match parsed {
        Err(why) => {
            complain(
                &mut state.setup.config_import.messages,
                cat2("Couldn't deserialize configuration settings. Reason: ", why.as_str()),
            );
            Err(ErrorText::plain(owned("deserialization error")))
        },
        Ok(secrets) => private_key(&secrets.bip32_seed),
    }
}

/// The token that a backup is locked with, if any.
pub fn backup_token(secrets: &BackupSecrets) -> (r: Option<String>)
    ensures
        r == (match secrets.protection {
            ProtectionType::Token(token) => Some(token),
            _ => None,
        }),
{
    match &secrets.protection {
        ProtectionType::Token(token) => Some(token.clone()),
        _ => None,
    }
}

// ---------------------------------------------------------------------------
// A new persona
// ---------------------------------------------------------------------------

/// The entry of a persona's key.
pub open spec fn key_entry(k: KeyInfo, purpose: KeyPurpose) -> KeyEntry {
    KeyEntry { id: k.secret.id, source: k.source, created: k.created, purpose }
}

/// The entries of a persona's keys.
pub open spec fn persona_entries(keys: PersonaDIDKeys) -> Seq<KeyEntry> {
    seq![
        key_entry(keys.signing, KeyPurpose::PersonaSigning),
        key_entry(keys.authentication, KeyPurpose::PersonaAuthentication),
        key_entry(keys.decryption, KeyPurpose::PersonaEncryption),
    ]
}

fn copy_source(s: &KeySource) -> (r: KeySource)
    ensures
        r == *s,
{
    match s {
        KeySource::Derived { path } => KeySource::Derived { path: path.clone() },
        KeySource::VtaManaged { key_id } => KeySource::VtaManaged { key_id: key_id.clone() },
        KeySource::Imported { seed } => KeySource::Imported { seed: seed.clone() },
    }
}

fn entry_of(k: &KeyInfo, purpose: KeyPurpose) -> (r: KeyEntry)
    ensures
        r == key_entry(*k, purpose),
{
    KeyEntry {
        id: k.secret.id.clone(),
        source: copy_source(&k.source),
        created: k.created,
        purpose,
    }
}

/// The keys of a persona as they are once entered: where two share an id, as the
/// last one.
pub open spec fn persona_refs(keys: PersonaDIDKeys) -> Seq<KeyEntry> {
    keys_recorded(Seq::empty(), persona_entries(keys))
}

/// The references of a record to these keys.
pub open spec fn refers_to(refs: Seq<KeyRef>, entries: Seq<KeyEntry>) -> bool {
    &&& refs.len() == entries.len()
    &&& forall|i: int|
        0 <= i < refs.len() ==> {
            let r = #[trigger] refs[i];
            &&& r.key_id == entries[i].id
            &&& r.purpose == entries[i].purpose
            &&& r.created_at == entries[i].created
        }
}

fn refs_to(entries: &Vec<KeyEntry>) -> (r: Vec<KeyRef>)
    ensures
        refers_to(r@, entries@),
{
    let mut out: Vec<KeyRef> = Vec::new();
    let mut i: usize = 0;
    while i < entries.len()
        invariant
            i <= entries@.len(),
            out@.len() == i,
            forall|j: int|
                0 <= j < i ==> {
                    let r = #[trigger] out@[j];
                    &&& r.key_id == entries@[j].id
                    &&& r.purpose == entries@[j].purpose
                    &&& r.created_at == entries@[j].created
                },
        decreases entries@.len() - i,
    {
        out.push(
            KeyRef {
                key_id: entries[i].id.clone(),
                purpose: entries[i].purpose,
                created_at: entries[i].created,
            },
        );
        i = i + 1;
    }
    out
}

/// The mediator of a new persona: the one chosen, or the public one.
pub open spec fn mediator_for(setup: SetupState, defaults: Defaults) -> Seq<char> {
    match setup.custom_mediator {
        Some(m) => m@,
        None => defaults.mediator_did@,
    }
}

/// The record of a new persona.
pub open spec fn is_minted_record(
    p: PersonaRecord,
    setup: SetupState,
    defaults: Defaults,
    id: PersonaId,
    now: i64,
) -> bool {
    &&& p.persona_id == id
    &&& p.did@ == setup.webvh_address.did@
    &&& opt_view(p.did_document) == Some(setup.webvh_address.document@)
    &&& refers_to(p.key_refs@, persona_refs(setup.did_keys->0))
    &&& opt_view(p.mediator_did) == Some(mediator_for(setup, defaults))
    &&& p.origin_context_id@.len() == 0
    &&& p.created_at == now
    &&& opt_view(p.label) == Some(setup.username@)
}

/// The identity of a new persona.
pub open spec fn is_minted_identity(
    i: Identity,
    setup: SetupState,
    defaults: Defaults,
    id: PersonaId,
) -> bool {
    &&& i.persona_id == id
    &&& i.did@ == setup.webvh_address.did@
    &&& i.document@ == setup.webvh_address.document@
    &&& opt_view(i.mediator_did) == Some(mediator_for(setup, defaults))
}

/// `new` is `old` with a new persona, its identity and its keys, under its name.
pub open spec fn persona_minted(
    old: Config,
    new: Config,
    setup: SetupState,
    defaults: Defaults,
    id: PersonaId,
    now: i64,
) -> bool {
    let people = new.account.personas@;
    let who = new.identities@;
    &&& new == (Config {
        account: Account { personas: new.account.personas, ..old.account },
        identities: new.identities,
        key_info: new.key_info,
        public: PublicConfig { friendly_name: new.public.friendly_name, ..old.public },
        ..old
    })
    &&& people.len() > 0
    &&& people == old.account.personas@.filter(held_by_others(id)).push(people.last())
    &&& is_minted_record(people.last(), setup, defaults, id, now)
    &&& who.len() > 0
    &&& who == old.identities@.filter(held_by_others(id)).push(who.last())
    &&& is_minted_identity(who.last(), setup, defaults, id)
    &&& new.key_info@ == keys_recorded(old.key_info@, persona_refs(setup.did_keys->0))
    &&& new.public.friendly_name == setup.username
}

/// Makes a persona of what was set up, under this id.
pub fn mint_persona_with(
    config: &mut Config,
    setup: &SetupState,
    defaults: &Defaults,
    id: PersonaId,
    now: i64,
) -> (r: Result<PersonaId, ErrorText>)
    ensures
        match setup.did_keys {
            None => *final(config) == *old(config) && (r matches Err(e) && e.says(
                "Persona DID keys not set during setup"@,
            )),
            Some(_) => r == Ok::<PersonaId, ErrorText>(id) && persona_minted(
                *old(config),
                *final(config),
                *setup,
                *defaults,
                id,
                now,
            ),
        },
{
    let keys = match &setup.did_keys {
        Some(k) => k,
        None => {
            return Err(ErrorText::plain(owned("Persona DID keys not set during setup")));
        },
    };
    let mediator = match &setup.custom_mediator {
        Some(m) => m.clone(),
        None => defaults.mediator_did.clone(),
    };
    let mut listed: Vec<KeyEntry> = Vec::new();
    listed.push(entry_of(&keys.signing, KeyPurpose::PersonaSigning));
    listed.push(entry_of(&keys.authentication, KeyPurpose::PersonaAuthentication));
    listed.push(entry_of(&keys.decryption, KeyPurpose::PersonaEncryption));
    assert(listed@ =~= persona_entries(*keys));
    let entries = merge_entries(listed);
    let key_refs = refs_to(&entries);
    let ghost before = config.account.personas@;
    drop_held(&mut config.account.personas, id);
    config.account.personas.push(
        PersonaRecord {
            persona_id: id,
            did: setup.webvh_address.did.clone(),
            did_document: Some(setup.webvh_address.document.clone()),
            key_refs,
            mediator_did: Some(mediator.clone()),
            origin_context_id: String::new(),
            created_at: now,
            label: Some(setup.username.clone()),
        },
    );
    drop_held(&mut config.identities, id);
    config.identities.push(
        Identity {
            persona_id: id,
            did: setup.webvh_address.did.clone(),
            document: setup.webvh_address.document.clone(),
            mediator_did: Some(mediator),
        },
    );
    config.record_keys(entries);
    config.public.friendly_name = setup.username.clone();
    Ok(id)
}

fn merge_entries(listed: Vec<KeyEntry>) -> (r: Vec<KeyEntry>)
    ensures
        r@ == keys_recorded(Seq::empty(), listed@),
{
    let mut listed = listed;
    let ghost all = listed@;
    let ghost mut done: int = 0;
    let mut out: Vec<KeyEntry> = Vec::new();
    assert(all.take(0) =~= Seq::<KeyEntry>::empty());
    while listed.len() > 0
        invariant
            0 <= done <= all.len(),
            listed@ == all.skip(done),
            out@ == keys_recorded(Seq::empty(), all.take(done)),
        decreases listed.len(),
    {
        let k = listed.remove(0);
        proof {
            assert(k == all[done]);
            assert(all.take(done + 1).drop_last() =~= all.take(done));
            assert(listed@ =~= all.skip(done + 1));
            done = done + 1;
        }
        crate::keyed::put(&mut out, k);
    }
    assert(all.take(done) =~= all);
    out
}

/// `new` is `old` with a new persona, made now, under an id that was drawn for it.
pub open spec fn persona_minted_some_time(
    old: Config,
    new: Config,
    setup: SetupState,
    defaults: Defaults,
    id: PersonaId,
) -> bool {
    &&& id_drawn(id.0)
    &&& exists|now: i64|
        clock_read(now) && #[trigger] persona_minted(old, new, setup, defaults, id, now)
}

/// Makes a persona of what was set up, under an id drawn for it, at the moment
/// that the clock shows.
pub fn mint_persona_into(config: &mut Config, setup: &SetupState, defaults: &Defaults) -> (r:
    Result<PersonaId, ErrorText>)
    ensures
        match setup.did_keys {
            None => *final(config) == *old(config) && (r matches Err(e) && e.says(
                "Persona DID keys not set during setup"@,
            )),
            Some(_) => r matches Ok(id) && persona_minted_some_time(
                *old(config),
                *final(config),
                *setup,
                *defaults,
                id,
            ),
        },
{
    let id = PersonaId(draw_id());
    let now: i64 = read_clock();
    let r = mint_persona_with(config, setup, defaults, id, now);
    assert(setup.did_keys is Some ==> persona_minted(
        *old(config),
        *config,
        *setup,
        *defaults,
        id,
        now,
    ));
    r
}

/// A new account belongs to the VTA that it was set up with, under the protection
/// that was chosen, and holds neither a persona nor a community.
pub proof fn law_new_account_is_the_one_set_up(
    setup: SetupState,
    bundle: Result<String, String>,
    seed: Result<Vec<u8>, String>,
    defaults: Defaults,
    r: Result<Config, ErrorText>,
)
    requires
        call_ensures(build_state_a_config, (&setup, bundle, seed, &defaults), r),
    ensures
        r is Ok <==> setup.vta.admin_credential is Some && bundle is Ok && seed is Ok,
        r matches Ok(config) ==> {
            &&& config.account.vta_did == setup.vta.vta_did
            &&& config.account.vta_url == setup.vta.vta_url
            &&& config.account.org_did == defaults.org_did
            &&& setup.vta.context_id is Some ==> config.account.top_context_id@
                == setup.vta.context_id->0@
            &&& config.account.personas@.len() == 0
            &&& config.account.communities@.len() == 0
            &&& config.persona_did_view().len() == 0
            &&& config.key_backend matches KeyBackend::Vta {
                credential_bundle,
                credential_did,
                credential_private_key,
                vta_did,
                vta_url,
                mediator_did,
                encryption_seed,
            }
            &&& credential_bundle == bundle->Ok_0
            &&& credential_did == setup.vta.admin_credential->0.admin_did
            &&& credential_private_key == setup.vta.admin_credential->0.admin_private_key_mb
            &&& vta_did == setup.vta.vta_did
            &&& vta_url == setup.vta.vta_url
            &&& mediator_did == setup.vta.mediator_did
            &&& encryption_seed == seed->Ok_0
            &&& setup.protection is Passcode <==> config.unlock_code is Some
            &&& setup.protection is Passcode <==> config.public.protection is Encrypted
            &&& setup.protection matches ConfigProtection::Passcode(key)
                ==> config.unlock_code->0@ == key@
            &&& setup.protection matches ConfigProtection::Token(token)
                ==> config.public.protection == ProtectionType::Token(token)
        },
{
}

/// A backup is unpacked exactly where it was read and holds base64, and then
/// nothing is shown; otherwise the import page shows one error more.
pub proof fn law_unpacking_says_what_failed(
    state: &mut State,
    file: &str,
    content: Result<String, String>,
    r: Result<Vec<u8>, ErrorText>,
)
    requires
        call_ensures(unpack_backup, (state, file, content), r),
    ensures
        r is Ok <==> content is Ok && base64_url_read(content->Ok_0@) is Ok,
        r is Ok ==> *final(state) == *old(state) && Ok::<Seq<u8>, Seq<char>>(r->Ok_0@)
            == base64_url_read(content->Ok_0@),
        r is Err ==> {
            let shown = messages_view(final(state).setup.config_import.messages@);
            &&& shown.len() == messages_view(old(state).setup.config_import.messages@).len() + 1
            &&& shown.last() is Error
        },
{
}

/// The private part of a backup is unlocked with the key that its own seed gives:
/// backups with the same seed are unlocked with the same key.
pub proof fn law_backup_is_unlocked_by_its_seed(
    a: Option<String>,
    b: Option<String>,
    r: Result<Vec<u8>, ErrorText>,
    s: Result<Vec<u8>, ErrorText>,
)
    requires
        call_ensures(private_key, (&a,), r),
        call_ensures(private_key, (&b,), s),
        opt_view(a) == opt_view(b),
    ensures
        r is Ok <==> s is Ok,
        r is Ok ==> r->Ok_0@ == s->Ok_0@,
        a is None ==> r is Err,
        r is Ok ==> bip32_key(base64_url_read(a->0@)->Ok_0, "m/0'/0'/0'"@) == Some(r->Ok_0@),
{
}

/// Only a backup that a token protects asks for a token, and then for that one.
pub proof fn law_backup_asks_for_its_token(secrets: BackupSecrets, r: Option<String>)
    requires
        call_ensures(backup_token, (&secrets,), r),
    ensures
        r is Some <==> secrets.protection is Token,
        r is Some ==> secrets.protection == ProtectionType::Token(r->0),
{
}

/// A persona that was set up is found under the id that was drawn for it, with the
/// DID, the document, the name and the mediator that were set up, dated by the
/// clock; no persona under another id is lost.
pub proof fn law_minted_persona_is_the_one_set_up(
    config: &mut Config,
    setup: SetupState,
    defaults: Defaults,
    r: Result<PersonaId, ErrorText>,
)
    requires
        call_ensures(mint_persona_into, (config, &setup, &defaults), r),
    ensures
        r is Ok <==> setup.did_keys is Some,
        r is Err ==> *final(config) == *old(config),
        r matches Ok(id) ==> {
            let p = final(config).account.personas@.last();
            let i = final(config).identities@.last();
            &&& id_drawn(id.0)
            &&& final(config).account.personas@.len() > 0
            &&& p.persona_id == id
            &&& p.did@ == setup.webvh_address.did@
            &&& opt_view(p.did_document) == Some(setup.webvh_address.document@)
            &&& opt_view(p.label) == Some(setup.username@)
            &&& p.mediator_did is Some
            &&& setup.custom_mediator is Some ==> p.mediator_did->0@ == setup.custom_mediator->0@
            &&& setup.custom_mediator is None ==> p.mediator_did->0@ == defaults.mediator_did@
            &&& clock_read(p.created_at)
            &&& final(config).identities@.len() > 0
            &&& i.persona_id == id
            &&& i.did@ == p.did@
            &&& i.document@ == setup.webvh_address.document@
            &&& opt_view(i.mediator_did) == opt_view(p.mediator_did)
            &&& final(config).owns_did(setup.webvh_address.did@)
            &&& final(config).public.friendly_name == setup.username
            &&& final(config).account.communities == old(config).account.communities
            &&& final(config).private == old(config).private
            &&& final(config).key_backend == old(config).key_backend
            &&& final(config).active_persona == old(config).active_persona
            &&& forall|q: PersonaRecord|
                #![trigger final(config).account.personas@.contains(q)]
                old(config).account.personas@.contains(q) && q.persona_id != id
                    ==> final(config).account.personas@.contains(q)
        },
{
    if let Ok(id) = r {
        let now = choose|now: i64|
            clock_read(now) && #[trigger] persona_minted(
                *old(config),
                *final(config),
                setup,
                defaults,
                id,
                now,
            );
        let is = final(config).identities@;
        assert(is[is.len() - 1].did@ == setup.webvh_address.did@);
        let was = old(config).account.personas@;
        let keep = held_by_others::<PersonaRecord>(id);
        let people = final(config).account.personas@;
        assert forall|q: PersonaRecord|
            #![trigger final(config).account.personas@.contains(q)]
            old(config).account.personas@.contains(q) && q.persona_id != id implies final(config).account.personas@.contains(q) by {
            assert(keep(q));
            let at = choose|at: int| 0 <= at < was.len() && was[at] == q;
            was.lemma_filter_contains(keep, at);
            let k = choose|k: int| 0 <= k < was.filter(keep).len() && was.filter(keep)[k] == q;
            assert(people[k] == q);
        }
    }
}

/// The keys of a persona that was set up are known under their own ids: each of
/// its references names a key that was set up.
pub proof fn law_minted_persona_has_its_keys(
    config: &mut Config,
    setup: SetupState,
    defaults: Defaults,
    id: PersonaId,
    now: i64,
    r: Result<PersonaId, ErrorText>,
    k: int,
)
    requires
        call_ensures(mint_persona_with, (config, &setup, &defaults, id, now), r),
        setup.did_keys is Some,
        0 <= k < final(config).account.personas@.last().key_refs@.len(),
    ensures
        r == Ok::<PersonaId, ErrorText>(id),
        final(config).account.personas@.last().persona_id == id,
        final(config).account.personas@.last().created_at == now,
        ({
            let keys = setup.did_keys->0;
            let named = final(config).account.personas@.last().key_refs@[k];
            ||| named.key_id == keys.signing.secret.id
            ||| named.key_id == keys.authentication.secret.id
            ||| named.key_id == keys.decryption.secret.id
        }),
{
    let all = persona_entries(setup.did_keys->0);
    lemma_recorded_from(all, k);
}

proof fn lemma_recorded_from(all: Seq<KeyEntry>, k: int)
    requires
        0 <= k < keys_recorded(Seq::empty(), all).len(),
    ensures
        all.contains(keys_recorded(Seq::empty(), all)[k]),
    decreases all.len(),
{
    let out = keys_recorded(Seq::empty(), all);
    if all.len() > 0 {
        let rest = all.drop_last();
        let before = keys_recorded(Seq::empty(), rest);
        if out[k] == all.last() {
            assert(all[all.len() - 1] == out[k]);
        } else {
            crate::keyed::lemma_without(before, crate::keyed::Keyed::key(all.last()));
            let w = crate::keyed::without(before, crate::keyed::Keyed::key(all.last()));
            assert(k < w.len() && w[k] == out[k]);
            assert(w.contains(out[k]));
            assert(before.contains(out[k]));
            let j = choose|j: int| 0 <= j < before.len() && before[j] == out[k];
            lemma_recorded_from(rest, j);
            let i = choose|i: int| 0 <= i < rest.len() && rest[i] == out[k];
            assert(all[i] == out[k]);
        }
    }
}

} // verus!
