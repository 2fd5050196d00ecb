//! The configuration of a profile.

use crate::account::{
    drop_held, held_by, held_by_others, held_position, Account, Held, PersonaRecord,
};
use crate::clock::clock_read;
use crate::keyed::{lookup, put, remove_key, without};
use crate::ledger::{Contacts, KeyEntry, Logs, LogFamily, PersonaId, Relationships, Tasks, Vrcs};
use crate::text::{opt_view, owned, same, texts_view};
use vstd::prelude::*;

verus! {

/// Version of the configuration format.
pub const CONFIG_VERSION: u32 = 2;

/// A persona as it is used at run time.
#[derive(Clone, Debug)]
pub struct Identity {
    pub persona_id: PersonaId,
    pub did: String,
    /// The DID document, as JSON text.
    pub document: String,
    pub mediator_did: Option<String>,
}

impl Held for Identity {
    open spec fn holder(self) -> PersonaId {
        self.persona_id
    }

    fn holder_id(&self) -> PersonaId {
        self.persona_id
    }
}

/// Where keys are kept.
#[derive(Clone)]
pub enum KeyBackend {
    /// Derived from a seed held here.
    Bip32 { seed: Vec<u8> },
    /// Held by a VTA.
    Vta {
        credential_bundle: String,
        credential_did: String,
        credential_private_key: String,
        vta_did: String,
        vta_url: String,
        mediator_did: Option<String>,
        /// What the private part of the configuration is encrypted with.
        encryption_seed: Vec<u8>,
    },
}

/// How the stored configuration is protected.
#[derive(Clone, Debug)]
pub enum ProtectionType {
    /// By the hardware token with this id.
    Token(String),
    /// By a passphrase.
    Encrypted,
    /// By the keyring alone.
    Plaintext,
}

/// The part of the configuration that is stored in the open.
#[derive(Clone, Debug)]
pub struct PublicConfig {
    pub config_version: u32,
    pub protection: ProtectionType,
    pub friendly_name: String,
    pub logs: Logs,
}

/// The part of the configuration that is stored encrypted.
#[derive(Clone, Debug)]
pub struct ProtectedConfig {
    pub tasks: Tasks,
    pub relationships: Relationships,
    pub contacts: Contacts,
    pub vrcs_issued: Vrcs,
    pub vrcs_received: Vrcs,
}

impl ProtectedConfig {
    /// Nothing yet.
    pub open spec fn is_empty(self) -> bool {
        &&& self.tasks@.len() == 0
        &&& self.relationships@.len() == 0
        &&& self.relationships.path_pointer == 0
        &&& self.contacts.contacts@.len() == 0
        &&& self.contacts.aliases@.len() == 0
        &&& self.vrcs_issued.entries@.len() == 0
        &&& self.vrcs_received.entries@.len() == 0
    }

    /// Nothing yet.
    pub fn empty() -> (r: ProtectedConfig)
        ensures
            r.is_empty(),
    {
        ProtectedConfig {
            tasks: Tasks::empty(),
            relationships: Relationships::empty(),
            contacts: Contacts::empty(),
            vrcs_issued: Vrcs::empty(),
            vrcs_received: Vrcs::empty(),
        }
    }
}

/// The configuration of a profile.
#[derive(Clone)]
pub struct Config {
    pub account: Account,
    pub identities: Vec<Identity>,
    pub active_persona: Option<PersonaId>,
    pub key_backend: KeyBackend,
    pub public: PublicConfig,
    pub private: ProtectedConfig,
    pub key_info: Vec<KeyEntry>,
    pub unlock_code: Option<Vec<u8>>,
}

/// Whether one of these identities has this DID.
pub open spec fn did_among(s: Seq<Identity>, did: Seq<char>) -> bool {
    exists|i: int| 0 <= i < s.len() && (#[trigger] s[i]).did@ == did
}

impl Config {
    /// The identity that actions are taken under: that of the active persona,
    /// or the first one.
    pub open spec fn active(self) -> Option<Identity> {
        match self.active_persona {
            Some(p) => match held_by(self.identities@, p) {
                Some(i) => Some(i),
                None => self.first_identity(),
            },
            None => self.first_identity(),
        }
    }

    /// The first identity.
    pub open spec fn first_identity(self) -> Option<Identity> {
        if self.identities@.len() > 0 {
            Some(self.identities@[0])
        } else {
            None
        }
    }

    /// The DID that actions are taken under; empty without an identity.
    pub open spec fn persona_did_view(self) -> Seq<char> {
        match self.active() {
            Some(i) => i.did@,
            None => Seq::empty(),
        }
    }

    /// The mediator of the active identity; empty where there is none.
    pub open spec fn mediator_view(self) -> Seq<char> {
        match self.active() {
            Some(i) => match i.mediator_did {
                Some(m) => m@,
                None => Seq::empty(),
            },
            None => Seq::empty(),
        }
    }

    /// Whether this DID is one of our personas'.
    pub open spec fn owns_did(self, did: Seq<char>) -> bool {
        did_among(self.identities@, did)
    }

    /// An account that holds nothing but its keys.
    pub fn new(key_backend: KeyBackend) -> (r: Config)
        ensures
            r.key_backend == key_backend,
            r.account.personas@.len() == 0,
            r.account.communities@.len() == 0,
            r.account.top_context_id@.len() == 0,
            r.identities@.len() == 0,
            r.active_persona is None,
            r.public.config_version == CONFIG_VERSION,
            r.public.protection is Plaintext,
            r.public.friendly_name@.len() == 0,
            r.public.logs@.len() == 0,
            r.private.is_empty(),
            r.key_info@.len() == 0,
            r.unlock_code is None,
    {
        Config {
            account: Account::empty(),
            identities: Vec::new(),
            active_persona: None,
            key_backend,
            public: PublicConfig {
                config_version: CONFIG_VERSION,
                protection: ProtectionType::Plaintext,
                friendly_name: String::new(),
                logs: Logs { messages: Vec::new() },
            },
            private: ProtectedConfig::empty(),
            key_info: Vec::new(),
            unlock_code: None,
        }
    }

    spec fn stands_first(self, i: int) -> bool {
        match self.active_persona {
            Some(p) => if held_by(self.identities@, p) is Some {
                &&& self.identities@[i].persona_id == p
                &&& forall|j: int| 0 <= j < i ==> (#[trigger] self.identities@[j]).persona_id != p
            } else {
                i == 0
            },
            None => i == 0,
        }
    }

    fn active_position(&self) -> (r: Option<usize>)
        ensures
            match r {
                Some(i) => i < self.identities@.len() && self.active() == Some(
                    self.identities@[i as int],
                ) && self.stands_first(i as int),
                None => self.active() is None && self.identities@.len() == 0,
            },
    {
        match self.active_persona {
            Some(p) => {
                match held_position(&self.identities, p) {
                    Some(i) => {
                        return Some(i);
                    },
                    None => {},
                }
            },
            None => {},
        }
        if self.identities.len() > 0 {
            Some(0)
        } else {
            None
        }
    }

    /// The identity that actions are taken under.
    pub fn active_identity(&self) -> (r: Option<&Identity>)
        ensures
            match r {
                Some(i) => self.active() == Some(*i),
                None => self.active() is None,
            },
    {
        match self.active_position() {
            Some(i) => Some(&self.identities[i]),
            None => None,
        }
    }

    /// The DID that actions are taken under; empty without an identity.
    pub fn persona_did(&self) -> (r: &str)
        ensures
            r@ == self.persona_did_view(),
    {
        match self.active_position() {
            Some(i) => self.identities[i].did.as_str(),
            None => {
                proof {
                    reveal_strlit("");
                    assert(""@ =~= Seq::<char>::empty());
                }
                ""
            },
        }
    }

    /// The mediator of the active identity; empty where there is none.
    pub fn mediator_did(&self) -> (r: &str)
        ensures
            r@ == self.mediator_view(),
    {
        proof {
            reveal_strlit("");
            assert(""@ =~= Seq::<char>::empty());
        }
        match self.active_position() {
            Some(i) => match &self.identities[i].mediator_did {
                Some(m) => m.as_str(),
                None => "",
            },
            None => "",
        }
    }

    /// Whether this DID is one of our personas'.
    pub fn is_persona_did(&self, did: &str) -> (r: bool)
        ensures
            r == self.owns_did(did@),
    {
        let mut i: usize = 0;
        while i < self.identities.len()
            invariant
                i <= self.identities@.len(),
                forall|j: int| 0 <= j < i ==> (#[trigger] self.identities@[j]).did@ != did@,
            decreases self.identities@.len() - i,
        {
            if same(self.identities[i].did.as_str(), did) {
                return true;
            }
            i = i + 1;
        }
        false
    }

    /// Chooses the persona that actions are taken under.
    pub fn set_active_persona(&mut self, persona: Option<PersonaId>)
        ensures
            *final(self) == (Config { active_persona: persona, ..*old(self) }),
    {
        self.active_persona = persona;
    }

    /// Sets the mediator of the active identity and of its persona record.
    pub fn set_active_mediator_did(&mut self, did: &str)
        ensures
            mediator_set(*old(self), *final(self), did@),
    {
        match self.active_position() {
            None => {},
            Some(i) => {
                let ghost before = self.identities@;
                let persona: PersonaId = self.identities[i].persona_id;
                self.identities[i].mediator_did = Some(owned(did));
                proof {
                    assert forall|j: int| 0 <= j < before.len() implies before[j].holder() == (
                    #[trigger] self.identities@[j]).holder() by {}
                    if let Some(p) = self.active_persona {
                        lemma_same_holders(before, self.identities@, p);
                        if held_by(before, p) is Some {
                            let k = choose|k: int|
                                0 <= k < before.len() && before[k].holder() == p && held_by(
                                    before,
                                    p,
                                ) == Some(before[k]) && held_by(self.identities@, p) == Some(
                                    #[trigger] self.identities@[k],
                                ) && forall|j: int|
                                    0 <= j < k ==> (#[trigger] before[j]).holder() != p;
                            assert(k == i) by {
                                if k < i {
                                    assert(before[k].holder() != p);
                                } else if i < k {
                                    assert(before[i as int].holder() != p);
                                }
                            }
                        }
                    }
                }
                let ghost people = self.account.personas@;
                match held_position(&self.account.personas, persona) {
                    Some(k) => {
                        self.account.personas[k].mediator_did = Some(owned(did));
                        proof {
                            let now = self.account.personas@;
                            assert forall|j: int| 0 <= j < people.len() implies people[j].holder()
                                == (#[trigger] now[j]).holder() by {}
                            lemma_same_holders(people, now, persona);
                            let m = choose|m: int|
                                0 <= m < people.len() && people[m].holder() == persona && held_by(
                                    people,
                                    persona,
                                ) == Some(people[m]) && held_by(now, persona) == Some(
                                    #[trigger] now[m],
                                ) && forall|j: int|
                                    0 <= j < m ==> (#[trigger] people[j]).holder() != persona;
                            assert(m == k) by {
                                if m < k {
                                    assert(people[m].holder() != persona);
                                } else if k < m {
                                    assert(people[k as int].holder() != persona);
                                }
                            }
                        }
                    },
                    None => {},
                }
            },
        }
    }

    /// Records keys, each in the place of any with its id.
    pub fn record_keys(&mut self, keys: Vec<KeyEntry>)
        ensures
            final(self).key_info@ == keys_recorded(old(self).key_info@, keys@),
            *final(self) == (Config { key_info: final(self).key_info, ..*old(self) }),
    {
        let mut keys = keys;
        let ghost all = keys@;
        let ghost start = self.key_info@;
        let ghost mut done: int = 0;
        assert(all.take(0) =~= Seq::<KeyEntry>::empty());
        while keys.len() > 0
            invariant
                0 <= done <= all.len(),
                keys@ == all.skip(done),
                self.key_info@ == keys_recorded(start, all.take(done)),
                *self == (Config { key_info: self.key_info, ..*old(self) }),
            decreases keys.len(),
        {
            let k = keys.remove(0);
            proof {
                assert(k == all[done]);
                assert(all.take(done + 1).drop_last() =~= all.take(done));
                assert(keys@ =~= all.skip(done + 1));
                done = done + 1;
            }
            put(&mut self.key_info, k);
        }
        assert(all.take(done) =~= all);
    }

    /// Forgets the key with this id.
    pub fn forget_key(&mut self, id: &str)
        ensures
            final(self).key_info@ == without(old(self).key_info@, id@),
            *final(self) == (Config { key_info: final(self).key_info, ..*old(self) }),
    {
        let _ = remove_key(&mut self.key_info, id);
    }

    /// Forgets a persona, its identity and these keys of it.
    pub fn forget_persona(&mut self, persona: PersonaId, key_ids: &Vec<String>)
        ensures
            persona_forgotten(*old(self), *final(self), persona, texts_view(key_ids@)),
    {
        drop_held(&mut self.account.personas, persona);
        drop_held(&mut self.identities, persona);
        let ghost all = texts_view(key_ids@);
        let ghost start = self.key_info@;
        let mut i: usize = 0;
        assert(all.take(0) =~= Seq::<Seq<char>>::empty());
        while i < key_ids.len()
            invariant
                i <= key_ids@.len(),
                all == texts_view(key_ids@),
                self.key_info@ == keys_forgotten(start, all.take(i as int)),
                *self == (Config {
                    key_info: self.key_info,
                    identities: self.identities,
                    account: Account { personas: self.account.personas, ..old(self).account },
                    ..*old(self)
                }),
                start == old(self).key_info@,
                self.identities@ == old(self).identities@.filter(held_by_others(persona)),
                self.account.personas@ == old(self).account.personas@.filter(
                    held_by_others(persona),
                ),
            decreases key_ids@.len() - i,
        {
            let _ = remove_key(&mut self.key_info, key_ids[i].as_str());
            proof {
                assert(all.take(i + 1).drop_last() =~= all.take(i as int));
                assert(all.take(i + 1).last() == key_ids@[i as int]@);
            }
            i = i + 1;
        }
        assert(all.take(i as int) =~= all);
        if self.active_persona == Some(persona) {
            self.active_persona = None;
        }
    }

    /// Adds a line to the persisted log.
    pub fn note(&mut self, family: LogFamily, message: String)
        ensures
            final(self).public.logs@ == old(self).public.logs@.push((family, message@)),
            clock_read(final(self).public.logs.messages@.last().created),
            *final(self) == (Config {
                public: PublicConfig { logs: final(self).public.logs, ..old(self).public },
                ..*old(self)
            }),
    {
        self.public.logs.insert(family, message);
    }
}

/// The keys of a table after these were stored in it, one after the other.
pub open spec fn keys_recorded(s: Seq<KeyEntry>, keys: Seq<KeyEntry>) -> Seq<KeyEntry>
    decreases keys.len(),
{
    if keys.len() == 0 {
        s
    } else {
        crate::keyed::with_entry(keys_recorded(s, keys.drop_last()), keys.last())
    }
}

/// The keys of a table after these were taken out of it, one after the other.
pub open spec fn keys_forgotten(s: Seq<KeyEntry>, ids: Seq<Seq<char>>) -> Seq<KeyEntry>
    decreases ids.len(),
{
    if ids.len() == 0 {
        s
    } else {
        without(keys_forgotten(s, ids.drop_last()), ids.last())
    }
}

/// `new` is `old` without a persona, its identity and these keys.
pub open spec fn persona_forgotten(
    old: Config,
    new: Config,
    persona: PersonaId,
    key_ids: Seq<Seq<char>>,
) -> bool {
    &&& new == (Config {
        key_info: new.key_info,
        identities: new.identities,
        account: Account { personas: new.account.personas, ..old.account },
        active_persona: if old.active_persona == Some(persona) {
            None
        } else {
            old.active_persona
        },
        ..old
    })
    &&& new.account.personas@ == old.account.personas@.filter(held_by_others(persona))
    &&& new.identities@ == old.identities@.filter(held_by_others(persona))
    &&& new.key_info@ == keys_forgotten(old.key_info@, key_ids)
}

/// `new` is `old` after the mediator of the active persona was set, in its
/// identity and in its record; nothing else changes.
pub open spec fn mediator_set(old: Config, new: Config, did: Seq<char>) -> bool {
    &&& new == (Config {
        identities: new.identities,
        account: Account { personas: new.account.personas, ..old.account },
        ..old
    })
    &&& new.identities@.len() == old.identities@.len()
    &&& new.account.personas@.len() == old.account.personas@.len()
    &&& new.persona_did_view() == old.persona_did_view()
    &&& match old.active() {
        None => new == old,
        Some(active) => {
            &&& new.mediator_view() == did
            &&& forall|i: int|
                0 <= i < old.identities@.len() ==> {
                    let was = old.identities@[i];
                    let is = #[trigger] new.identities@[i];
                    &&& is == Identity { mediator_did: is.mediator_did, ..was }
                    &&& is.mediator_did != was.mediator_did ==> was == active && opt_view(
                        is.mediator_did,
                    ) == Some(did)
                }
            &&& forall|i: int|
                0 <= i < old.account.personas@.len() ==> {
                    let was = old.account.personas@[i];
                    let is = #[trigger] new.account.personas@[i];
                    &&& is == PersonaRecord { mediator_did: is.mediator_did, ..was }
                    &&& is.mediator_did != was.mediator_did ==> was.persona_id
                        == active.persona_id && opt_view(is.mediator_did) == Some(did)
                }
            &&& held_by(new.account.personas@, active.persona_id) matches Some(p) ==> opt_view(
                p.mediator_did,
            ) == Some(did)
        },
    }
}

proof fn lemma_same_holders<T: Held>(a: Seq<T>, b: Seq<T>, p: PersonaId)
    requires
        a.len() == b.len(),
        forall|j: int| 0 <= j < a.len() ==> a[j].holder() == (#[trigger] b[j]).holder(),
    ensures
        held_by(a, p) is Some <==> held_by(b, p) is Some,
        held_by(a, p) is Some ==> exists|i: int|
            0 <= i < a.len() && a[i].holder() == p && held_by(a, p) == Some(a[i]) && held_by(b, p)
                == Some(#[trigger] b[i]) && forall|j: int|
                0 <= j < i ==> (#[trigger] a[j]).holder() != p,
    decreases a.len(),
{
    if a.len() > 0 {
        if a[0].holder() != p {
            assert(b[0].holder() != p);
            assert forall|j: int| 0 <= j < a.skip(1).len() implies a.skip(1)[j].holder() == (
            #[trigger] b.skip(1)[j]).holder() by {
                assert(b[j + 1].holder() == a[j + 1].holder());
            }
            lemma_same_holders(a.skip(1), b.skip(1), p);
            if held_by(a, p) is Some {
                let i = choose|i: int|
                    0 <= i < a.skip(1).len() && a.skip(1)[i].holder() == p && held_by(a.skip(1), p)
                        == Some(a.skip(1)[i]) && held_by(b.skip(1), p) == Some(
                        #[trigger] b.skip(1)[i],
                    ) && forall|j: int| 0 <= j < i ==> (#[trigger] a.skip(1)[j]).holder() != p;
                assert(b[i + 1] == b.skip(1)[i]);
                assert forall|j: int| 0 <= j < i + 1 implies (#[trigger] a[j]).holder() != p by {
                    if j > 0 {
                        assert(a.skip(1)[j - 1].holder() != p);
                    }
                }
            }
        } else {
            assert(b[0].holder() == p);
        }
    }
}

/// Actions are taken under the identity of the active persona, where it has one;
/// its DID is one of ours.
pub proof fn law_active_persona_acts(
    config: Config,
    persona: PersonaId,
    identity: Identity,
    r: Option<&Identity>,
    did: &str,
    ours: bool,
    i: int,
)
    requires
        call_ensures(Config::active_identity, (&config,), r),
        call_ensures(Config::persona_did, (&config,), did),
        call_ensures(Config::is_persona_did, (&config, did), ours),
        config.active_persona == Some(persona),
        0 <= i < config.identities@.len(),
        config.identities@[i] == identity,
        identity.persona_id == persona,
        forall|j: int| 0 <= j < i ==> (#[trigger] config.identities@[j]).persona_id != persona,
    ensures
        r == Some(&identity),
        did@ == identity.did@,
        ours,
{
    lemma_first_held(config.identities@, persona, i);
    assert(config.identities@[i].did@ == did@);
}

proof fn lemma_first_held(s: Seq<Identity>, persona: PersonaId, i: int)
    requires
        0 <= i < s.len(),
        s[i].persona_id == persona,
        forall|j: int| 0 <= j < i ==> (#[trigger] s[j]).persona_id != persona,
    ensures
        held_by(s, persona) == Some(s[i]),
    decreases i,
{
    assert(s[i].holder() == persona);
    if i > 0 {
        assert(s[0].persona_id != persona);
        assert(s[0].holder() != persona);
        let t = s.skip(1);
        assert(t[i - 1] == s[i]);
        assert forall|j: int| 0 <= j < i - 1 implies (#[trigger] t[j]).persona_id != persona by {
            assert(t[j] == s[j + 1]);
        }
        lemma_first_held(t, persona, i - 1);
    }
}

/// A DID is ours exactly if some identity of the account has it.
pub proof fn law_own_dids_are_those_of_identities(config: Config, did: &str, r: bool)
    requires
        call_ensures(Config::is_persona_did, (&config, did), r),
    ensures
        r <==> exists|i: int|
            0 <= i < config.identities@.len() && (#[trigger] config.identities@[i]).did@ == did@,
{
}

/// A key that was recorded is found under its id and one that was forgotten is
/// not; the other keys stay as they were.
pub proof fn law_recorded_key_is_found(
    put: &mut Config,
    dropped: &mut Config,
    key: KeyEntry,
    keys: Vec<KeyEntry>,
    id: &str,
    other: Seq<char>,
)
    requires
        call_ensures(Config::record_keys, (put, keys), ()),
        call_ensures(Config::forget_key, (dropped, id), ()),
        keys@ == seq![key],
    ensures
        lookup(final(put).key_info@, key.id@) == Some(key),
        other != key.id@ ==> lookup(final(put).key_info@, other) == lookup(
            old(put).key_info@,
            other,
        ),
        final(put).account == old(put).account && final(put).private == old(put).private,
        lookup(final(dropped).key_info@, id@) is None,
        other != id@ ==> lookup(final(dropped).key_info@, other) == lookup(
            old(dropped).key_info@,
            other,
        ),
        final(dropped).account == old(dropped).account && final(dropped).private == old(dropped).private,
{
    assert(keys@.drop_last() =~= Seq::<KeyEntry>::empty());
    assert(keys_recorded(old(put).key_info@, keys@.drop_last()) == old(put).key_info@);
    crate::keyed::law_stored_entry_is_found(old(put).key_info@, key);
    crate::keyed::lemma_without(old(dropped).key_info@, id@);
}

} // verus!
