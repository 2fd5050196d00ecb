//! What a profile remembers: its log, keys, inbox tasks, relationships,
//! contacts and relationship credentials.

use crate::clock::{clock_read, read_clock};
use crate::keyed::{self, find, has_key, lookup, position, put, remove_key, with_entry, without, Filter, Keyed};
use crate::text::{copy_opt, opt_view, same};
use vstd::prelude::*;

verus! {

// ---------------------------------------------------------------------------
// Identity of a persona
// ---------------------------------------------------------------------------

/// Stable identifier of a persona.
#[derive(Clone, Copy, Debug, PartialEq, Eq, Structural)]
pub struct PersonaId(pub u128);

// ---------------------------------------------------------------------------
// Log
// ---------------------------------------------------------------------------

/// What a log line is about.
#[derive(Clone, Copy, Debug, PartialEq, Eq, Structural)]
pub enum LogFamily {
    Relationship,
    Contact,
    Task,
    Config,
}

/// One line of the persisted log.
#[derive(Clone, Debug)]
pub struct LogMessage {
    pub created: i64,
    pub family: LogFamily,
    pub message: String,
}

/// The persisted log, oldest line first.
#[derive(Clone, Debug)]
pub struct Logs {
    pub messages: Vec<LogMessage>,
}

impl View for Logs {
    type V = Seq<(LogFamily, Seq<char>)>;

    open spec fn view(&self) -> Seq<(LogFamily, Seq<char>)> {
        self.messages@.map_values(|m: LogMessage| (m.family, m.message@))
    }
}

impl Logs {
    /// Adds a line at the end, stamped with the current time.
    pub fn insert(&mut self, family: LogFamily, message: String)
        ensures
            final(self)@ == old(self)@.push((family, message@)),
            final(self).messages@.drop_last() == old(self).messages@,
            clock_read(final(self).messages@.last().created),
    {
        let ghost before = self.messages@;
        let created: i64 = read_clock();
        self.messages.push(LogMessage { created, family, message });
        assert(self.messages@.drop_last() =~= before);
        assert(self@ =~= old(self)@.push((family, message@)));
    }
}

// ---------------------------------------------------------------------------
// Keys
// ---------------------------------------------------------------------------

/// Where key material comes from.
#[derive(Clone, Debug)]
pub enum KeySource {
    /// Derived from the seed along a path.
    Derived { path: String },
    /// Held by the VTA under this id.
    VtaManaged { key_id: String },
    /// Brought in from outside.
    Imported { seed: String },
}

/// What a key is for.
#[derive(Clone, Copy, Debug, PartialEq, Eq, Structural)]
pub enum KeyPurpose {
    PersonaSigning,
    PersonaAuthentication,
    PersonaEncryption,
    RelationshipVerification,
    RelationshipEncryption,
}

/// What is known of a key, found by its id.
#[derive(Clone, Debug)]
pub struct KeyEntry {
    pub id: String,
    pub source: KeySource,
    pub created: i64,
    pub purpose: KeyPurpose,
}

impl Keyed for KeyEntry {
    open spec fn key(self) -> Seq<char> {
        self.id@
    }

    fn key_text(&self) -> &str {
        self.id.as_str()
    }
}

// ---------------------------------------------------------------------------
// Relationship credentials
// ---------------------------------------------------------------------------

/// A verifiable relationship credential.
#[derive(Clone, Debug)]
pub struct Vrc {
    /// Hash of its proof; empty while it carries none.
    pub id: String,
    pub issuer: String,
    pub subject: String,
    pub valid_from: i64,
    pub valid_until: Option<i64>,
    /// The credential itself, as JSON text.
    pub credential: String,
}

impl Vrc {
    /// A copy of this credential.
    pub fn duplicate(&self) -> (r: Vrc)
        ensures
            r == *self,
    {
        Vrc {
            id: self.id.clone(),
            issuer: self.issuer.clone(),
            subject: self.subject.clone(),
            valid_from: self.valid_from,
            valid_until: self.valid_until,
            credential: self.credential.clone(),
        }
    }
}

/// A credential filed under the persona DID of the remote party.
#[derive(Clone, Debug)]
pub struct VrcEntry {
    pub remote_p_did: String,
    pub vrc: Vrc,
}

/// Filed credentials.
#[derive(Clone, Debug)]
pub struct Vrcs {
    pub entries: Vec<VrcEntry>,
}

/// Not the credential `id` of this remote party.
pub open spec fn other_filing(remote: Seq<char>, id: Seq<char>) -> spec_fn(VrcEntry) -> bool {
    |e: VrcEntry| !(e.remote_p_did@ == remote && e.vrc.id@ == id)
}

/// Not the credential `id`.
pub open spec fn other_vrc(id: Seq<char>) -> spec_fn(VrcEntry) -> bool {
    |e: VrcEntry| e.vrc.id@ != id
}

/// Not a credential of this remote party.
pub open spec fn other_remote(remote: Seq<char>) -> spec_fn(VrcEntry) -> bool {
    |e: VrcEntry| e.remote_p_did@ != remote
}

/// Passes every entry but one credential of one party.
pub struct NotFiling<'a> {
    pub remote: &'a str,
    pub id: &'a str,
}

impl<'a> Filter<VrcEntry> for NotFiling<'a> {
    open spec fn keeps(&self) -> spec_fn(VrcEntry) -> bool {
        other_filing(self.remote@, self.id@)
    }

    fn test(&self, e: &VrcEntry) -> bool {
        !(same(e.remote_p_did.as_str(), self.remote) && same(e.vrc.id.as_str(), self.id))
    }
}

/// Passes the entries of other credentials.
pub struct NotVrc<'a> {
    pub id: &'a str,
}

impl<'a> Filter<VrcEntry> for NotVrc<'a> {
    open spec fn keeps(&self) -> spec_fn(VrcEntry) -> bool {
        other_vrc(self.id@)
    }

    fn test(&self, e: &VrcEntry) -> bool {
        !same(e.vrc.id.as_str(), self.id)
    }
}

/// Passes the entries of other parties.
pub struct NotRemote<'a> {
    pub remote: &'a str,
}

impl<'a> Filter<VrcEntry> for NotRemote<'a> {
    open spec fn keeps(&self) -> spec_fn(VrcEntry) -> bool {
        other_remote(self.remote@)
    }

    fn test(&self, e: &VrcEntry) -> bool {
        !same(e.remote_p_did.as_str(), self.remote)
    }
}

/// No credential is filed twice under one party.
pub open spec fn distinct_filings(s: Seq<VrcEntry>) -> bool {
    forall|i: int, j: int|
        0 <= i < j < s.len() ==> !((#[trigger] s[i]).remote_p_did@ == (
        #[trigger] s[j]).remote_p_did@ && s[i].vrc.id@ == s[j].vrc.id@)
}

proof fn lemma_filter_filings(s: Seq<VrcEntry>, keep: spec_fn(VrcEntry) -> bool)
    requires
        distinct_filings(s),
    ensures
        distinct_filings(s.filter(keep)),
    decreases s.len(),
{
    reveal(Seq::filter);
    if s.len() > 0 {
        let t = s.drop_last();
        assert(distinct_filings(t));
        lemma_filter_filings(t, keep);
        if keep(s.last()) {
            let all = s.filter(keep);
            let kept = t.filter(keep);
            assert(all == kept.push(s.last()));
            assert forall|i: int, j: int| 0 <= i < j < all.len() implies !((
            #[trigger] all[i]).remote_p_did@ == (#[trigger] all[j]).remote_p_did@
                && all[i].vrc.id@ == all[j].vrc.id@) by {
                if j == kept.len() {
                    assert(all[i] == kept[i]);
                    t.lemma_filter_contains_rev(keep, kept[i]);
                    assert(t.contains(kept[i]));
                    let k = choose|k: int| 0 <= k < t.len() && t[k] == kept[i];
                    assert(s[k] == kept[i] && s[s.len() - 1] == all[j]);
                } else {
                    assert(all[i] == kept[i] && all[j] == kept[j]);
                }
            }
        }
    }
}

/// Filing a credential files it once: none comes to be filed twice under one
/// party.
pub proof fn law_filings_stay_distinct(s: Seq<VrcEntry>, entry: VrcEntry)
    requires
        distinct_filings(s),
    ensures
        distinct_filings(
            s.filter(other_filing(entry.remote_p_did@, entry.vrc.id@)).push(entry),
        ),
{
    let keep = other_filing(entry.remote_p_did@, entry.vrc.id@);
    lemma_filter_filings(s, keep);
    let kept = s.filter(keep);
    let all = kept.push(entry);
    broadcast use vstd::seq_lib::group_filter_ensures;

    assert forall|i: int, j: int| 0 <= i < j < all.len() implies !((
    #[trigger] all[i]).remote_p_did@ == (#[trigger] all[j]).remote_p_did@ && all[i].vrc.id@
        == all[j].vrc.id@) by {
        if j == kept.len() {
            assert(all[i] == kept[i]);
            assert(keep(kept[i]));
        } else {
            assert(all[i] == kept[i] && all[j] == kept[j]);
        }
    }
}

impl Vrcs {
    /// No credentials.
    pub fn empty() -> (r: Vrcs)
        ensures
            r.entries@ == Seq::<VrcEntry>::empty(),
    {
        Vrcs { entries: Vec::new() }
    }

    /// Files a credential under a remote party, in the place of one with its
    /// id; refuses a credential without a proof.
    pub fn insert(&mut self, remote_p_did: &str, vrc: Vrc) -> (r: bool)
        ensures
            r == (vrc.id@.len() > 0),
            !r ==> *final(self) == *old(self),
            r ==> ({
                let kept = old(self).entries@.filter(other_filing(remote_p_did@, vrc.id@));
                &&& final(self).entries@.len() == kept.len() + 1
                &&& final(self).entries@.drop_last() == kept
                &&& final(self).entries@.last().remote_p_did@ == remote_p_did@
                &&& final(self).entries@.last().vrc == vrc
            }),
    {
        if vrc.id.as_str().is_empty() {
            return false;
        }
        keyed::retain(&mut self.entries, &NotFiling { remote: remote_p_did, id: vrc.id.as_str() });
        let ghost kept = self.entries@;
        self.entries.push(VrcEntry { remote_p_did: crate::text::owned(remote_p_did), vrc });
        assert(self.entries@.drop_last() =~= kept);
        true
    }

    /// Takes the credential `id` out, whoever it is filed under.
    pub fn remove_vrc(&mut self, id: &str)
        ensures
            final(self).entries@ == old(self).entries@.filter(other_vrc(id@)),
    {
        keyed::retain(&mut self.entries, &NotVrc { id });
    }

    /// Takes every credential of a remote party out.
    pub fn remove_remote(&mut self, remote_p_did: &str)
        ensures
            final(self).entries@ == old(self).entries@.filter(other_remote(remote_p_did@)),
    {
        keyed::retain(&mut self.entries, &NotRemote { remote: remote_p_did });
    }
}

// ---------------------------------------------------------------------------
// Inbox tasks
// ---------------------------------------------------------------------------

/// What a party asks for when it requests a relationship.
#[derive(Clone, Debug)]
pub struct RelationshipRequest {
    pub reason: Option<String>,
    pub did: String,
    pub name: Option<String>,
}

/// What an inbox task is about.
#[derive(Clone, Debug)]
pub enum TaskType {
    RelationshipRequestInbound { from: String, to: String, request: RelationshipRequest },
    RelationshipRequestOutbound { to: String },
    RelationshipRequestAccepted,
    RelationshipRequestRejected,
    RelationshipRequestFinalized,
    TrustPing { from: String, to: String, remote_p_did: String },
    TrustPong,
    VRCRequestInbound { reason: Option<String>, remote_p_did: String },
    VRCRequestOutbound { remote_p_did: String },
    VRCRequestRejected,
    VRCIssued { vrc: Vrc },
    /// A kind of task that has no treatment of its own.
    Other,
}

impl TaskType {
    /// The heading under which a task is listed.
    pub open spec fn title_view(self) -> Seq<char> {
        match self {
            TaskType::RelationshipRequestInbound { .. } => "Relationship Request (Inbound)"@,
            TaskType::RelationshipRequestOutbound { .. } => "Relationship Request (Outbound)"@,
            TaskType::RelationshipRequestAccepted => "Relationship Request Accepted"@,
            TaskType::RelationshipRequestRejected => "Relationship Request Rejected"@,
            TaskType::RelationshipRequestFinalized => "Relationship Request Finalized"@,
            TaskType::TrustPing { .. } => "Trust Ping"@,
            TaskType::TrustPong => "Trust Pong"@,
            TaskType::VRCRequestInbound { .. } => "VRC Request (Inbound)"@,
            TaskType::VRCRequestOutbound { .. } => "VRC Request (Outbound)"@,
            TaskType::VRCRequestRejected => "VRC Request Rejected"@,
            TaskType::VRCIssued { .. } => "VRC Issued"@,
            TaskType::Other => "Unknown"@,
        }
    }

    /// The heading under which a task is listed.
    pub fn title(&self) -> (r: &'static str)
        ensures
            r@ == self.title_view(),
    {
        match self {
            TaskType::RelationshipRequestInbound { .. } => "Relationship Request (Inbound)",
            TaskType::RelationshipRequestOutbound { .. } => "Relationship Request (Outbound)",
            TaskType::RelationshipRequestAccepted => "Relationship Request Accepted",
            TaskType::RelationshipRequestRejected => "Relationship Request Rejected",
            TaskType::RelationshipRequestFinalized => "Relationship Request Finalized",
            TaskType::TrustPing { .. } => "Trust Ping",
            TaskType::TrustPong => "Trust Pong",
            TaskType::VRCRequestInbound { .. } => "VRC Request (Inbound)",
            TaskType::VRCRequestOutbound { .. } => "VRC Request (Outbound)",
            TaskType::VRCRequestRejected => "VRC Request Rejected",
            TaskType::VRCIssued { .. } => "VRC Issued",
            TaskType::Other => "Unknown",
        }
    }
}

/// A task of the inbox, found by its id.
#[derive(Clone, Debug)]
pub struct Task {
    pub id: String,
    pub type_: TaskType,
    pub created: i64,
    /// The persona that the task was addressed to.
    pub our_persona: Option<PersonaId>,
}

impl Keyed for Task {
    open spec fn key(self) -> Seq<char> {
        self.id@
    }

    fn key_text(&self) -> &str {
        self.id.as_str()
    }
}

/// The inbox.
#[derive(Clone, Debug)]
pub struct Tasks {
    pub tasks: Vec<Task>,
}

impl View for Tasks {
    type V = Seq<Task>;

    open spec fn view(&self) -> Seq<Task> {
        self.tasks@
    }
}

/// `new` is `old` with a task of this id, kind and persona in the place of any
/// task that had the id; it dates from when it was filed.
pub open spec fn task_filed(
    old: Seq<Task>,
    new: Seq<Task>,
    id: Seq<char>,
    type_: TaskType,
    persona: Option<PersonaId>,
) -> bool {
    &&& new.len() == without(old, id).len() + 1
    &&& new.drop_last() == without(old, id)
    &&& new.last().id@ == id
    &&& new.last().type_ == type_
    &&& new.last().our_persona == persona
    &&& clock_read(new.last().created)
}

impl Tasks {
    /// An empty inbox.
    pub fn empty() -> (r: Tasks)
        ensures
            r@ == Seq::<Task>::empty(),
    {
        Tasks { tasks: Vec::new() }
    }

    /// The task with this id.
    pub fn get_by_id(&self, id: &str) -> (r: Option<&Task>)
        ensures
            match r {
                Some(t) => lookup(self@, id@) == Some(*t) && t.id@ == id@,
                None => lookup(self@, id@) is None,
            },
    {
        find(&self.tasks, id)
    }

    /// Takes the task with this id out; tells whether there was one.
    pub fn remove(&mut self, id: &str) -> (r: bool)
        ensures
            final(self)@ == without(old(self)@, id@),
            r == has_key(old(self)@, id@),
    {
        remove_key(&mut self.tasks, id)
    }

    /// Empties the inbox.
    pub fn clear(&mut self)
        ensures
            final(self)@ == Seq::<Task>::empty(),
    {
        self.tasks.clear();
    }

    /// Files a task for a persona, in the place of any task with its id.
    pub fn new_task_for(&mut self, id: &str, type_: TaskType, our_persona: Option<PersonaId>)
        ensures
            task_filed(old(self)@, final(self)@, id@, type_, our_persona),
    {
        let created: i64 = read_clock();
        let _ = remove_key(&mut self.tasks, id);
        let ghost kept = self.tasks@;
        self.tasks.push(Task { id: crate::text::owned(id), type_, created, our_persona });
        assert(self.tasks@.drop_last() =~= kept);
    }

    /// Files a task that no persona was addressed by.
    pub fn new_task(&mut self, id: &str, type_: TaskType)
        ensures
            task_filed(old(self)@, final(self)@, id@, type_, None),
    {
        self.new_task_for(id, type_, None)
    }
}

// ---------------------------------------------------------------------------
// Relationships
// ---------------------------------------------------------------------------

/// How far a relationship has come.
#[derive(Clone, Copy, Debug, PartialEq, Eq, Structural)]
pub enum RelationshipState {
    RequestSent,
    RequestAccepted,
    RequestRejected,
    Established,
}

impl RelationshipState {
    /// How the state is shown.
    pub open spec fn label_view(self) -> Seq<char> {
        match self {
            RelationshipState::RequestSent => "Request Sent"@,
            RelationshipState::RequestAccepted => "Request Accepted"@,
            RelationshipState::RequestRejected => "Request Rejected"@,
            RelationshipState::Established => "Established"@,
        }
    }

    /// How the state is shown.
    pub fn label(&self) -> (r: &'static str)
        ensures
            r@ == self.label_view(),
    {
        match self {
            RelationshipState::RequestSent => "Request Sent",
            RelationshipState::RequestAccepted => "Request Accepted",
            RelationshipState::RequestRejected => "Request Rejected",
            RelationshipState::Established => "Established",
        }
    }
}

/// A relationship with a remote party, found by that party's persona DID.
#[derive(Clone, Debug)]
pub struct Relationship {
    pub task_id: String,
    pub our_did: String,
    pub remote_p_did: String,
    pub remote_did: String,
    pub created: i64,
    pub state: RelationshipState,
    pub our_persona: Option<PersonaId>,
}

impl Keyed for Relationship {
    open spec fn key(self) -> Seq<char> {
        self.remote_p_did@
    }

    fn key_text(&self) -> &str {
        self.remote_p_did.as_str()
    }
}

/// The relationships of a profile, and the next key-derivation index.
#[derive(Clone, Debug)]
pub struct Relationships {
    pub relationships: Vec<Relationship>,
    pub path_pointer: u32,
}

impl View for Relationships {
    type V = Seq<Relationship>;

    open spec fn view(&self) -> Seq<Relationship> {
        self.relationships@
    }
}

/// The first relationship in which the remote party uses this DID.
pub open spec fn by_remote_did(s: Seq<Relationship>, did: Seq<char>) -> Option<Relationship>
    decreases s.len(),
{
    if s.len() == 0 {
        None
    } else if s[0].remote_did@ == did {
        Some(s[0])
    } else {
        by_remote_did(s.skip(1), did)
    }
}

/// The position of the first relationship with such a task id.
pub open spec fn task_position(s: Seq<Relationship>, task_id: Seq<char>) -> Option<int>
    decreases s.len(),
{
    if s.len() == 0 {
        None
    } else if s[0].task_id@ == task_id {
        Some(0)
    } else {
        match task_position(s.skip(1), task_id) {
            Some(i) => Some(i + 1),
            None => None,
        }
    }
}

proof fn lemma_by_remote_did(s: Seq<Relationship>, did: Seq<char>, i: int)
    requires
        0 <= i <= s.len(),
        forall|j: int| 0 <= j < i ==> (#[trigger] s[j]).remote_did@ != did,
        i < s.len() ==> s[i].remote_did@ == did,
    ensures
        by_remote_did(s, did) == (if i < s.len() {
            Some(s[i])
        } else {
            None
        }),
    decreases i,
{
    if i > 0 {
        assert(s[0].remote_did@ != did);
        assert forall|j: int| 0 <= j < i - 1 implies (#[trigger] s.skip(1)[j]).remote_did@
            != did by {
            assert(s[j + 1].remote_did@ != did);
        }
        lemma_by_remote_did(s.skip(1), did, i - 1);
    }
}

/// The first relationship with a task id stands where none before it has that id.
pub proof fn lemma_task_position(s: Seq<Relationship>, task_id: Seq<char>, i: int)
    requires
        0 <= i <= s.len(),
        forall|j: int| 0 <= j < i ==> (#[trigger] s[j]).task_id@ != task_id,
        i < s.len() ==> s[i].task_id@ == task_id,
    ensures
        task_position(s, task_id) == (if i < s.len() {
            Some(i)
        } else {
            None
        }),
    decreases i,
{
    if i > 0 {
        assert(s[0].task_id@ != task_id);
        assert forall|j: int| 0 <= j < i - 1 implies (#[trigger] s.skip(1)[j]).task_id@
            != task_id by {
            assert(s[j + 1].task_id@ != task_id);
        }
        lemma_task_position(s.skip(1), task_id, i - 1);
    }
}

/// A found position is one of the list.
pub proof fn lemma_task_position_holds(s: Seq<Relationship>, task_id: Seq<char>)
    ensures
        task_position(s, task_id) matches Some(i) ==> 0 <= i < s.len() && s[i].task_id@ == task_id,
    decreases s.len(),
{
    if s.len() > 0 && s[0].task_id@ != task_id {
        lemma_task_position_holds(s.skip(1), task_id);
    }
}

impl Relationships {
    /// No relationships.
    pub fn empty() -> (r: Relationships)
        ensures
            r@ == Seq::<Relationship>::empty(),
            r.path_pointer == 0,
    {
        Relationships { relationships: Vec::new(), path_pointer: 0 }
    }

    /// The relationship with the party of this persona DID.
    pub fn get(&self, remote_p_did: &str) -> (r: Option<&Relationship>)
        ensures
            match r {
                Some(t) => lookup(self@, remote_p_did@) == Some(*t) && t.remote_p_did@
                    == remote_p_did@,
                None => lookup(self@, remote_p_did@) is None,
            },
    {
        find(&self.relationships, remote_p_did)
    }

    /// The first relationship in which the remote party uses this DID.
    pub fn find_by_remote_did(&self, did: &str) -> (r: Option<&Relationship>)
        ensures
            match r {
                Some(t) => by_remote_did(self@, did@) == Some(*t),
                None => by_remote_did(self@, did@) is None,
            },
    {
        let mut i: usize = 0;
        while i < self.relationships.len()
            invariant
                i <= self@.len(),
                self@ == self.relationships@,
                forall|j: int| 0 <= j < i ==> (#[trigger] self@[j]).remote_did@ != did@,
            decreases self@.len() - i,
        {
            if same(self.relationships[i].remote_did.as_str(), did) {
                proof {
                    lemma_by_remote_did(self@, did@, i as int);
                }
                return Some(&self.relationships[i]);
            }
            i = i + 1;
        }
        proof {
            lemma_by_remote_did(self@, did@, i as int);
        }
        None
    }

    /// The position of the first relationship with such a task id.
    pub fn find_key_by_task_id(&self, task_id: &str) -> (r: Option<usize>)
        ensures
            match r {
                Some(i) => task_position(self@, task_id@) == Some(i as int) && i < self@.len()
                    && self@[i as int].task_id@ == task_id@,
                None => task_position(self@, task_id@) is None,
            },
    {
        let mut i: usize = 0;
        while i < self.relationships.len()
            invariant
                i <= self@.len(),
                self@ == self.relationships@,
                forall|j: int| 0 <= j < i ==> (#[trigger] self@[j]).task_id@ != task_id@,
            decreases self@.len() - i,
        {
            if same(self.relationships[i].task_id.as_str(), task_id) {
                proof {
                    lemma_task_position(self@, task_id@, i as int);
                }
                return Some(i);
            }
            i = i + 1;
        }
        proof {
            lemma_task_position(self@, task_id@, i as int);
        }
        None
    }

    /// Stores a relationship in the place of any with its remote party.
    pub fn insert(&mut self, r: Relationship)
        ensures
            final(self)@ == with_entry(old(self)@, r),
            final(self).path_pointer == old(self).path_pointer,
    {
        put(&mut self.relationships, r);
    }

    /// Takes the relationship with a remote party out, and with it every
    /// credential filed under that party.
    pub fn remove(&mut self, remote_p_did: &str, issued: &mut Vrcs, received: &mut Vrcs)
        ensures
            final(self)@ == without(old(self)@, remote_p_did@),
            final(self).path_pointer == old(self).path_pointer,
            final(issued).entries@ == old(issued).entries@.filter(other_remote(remote_p_did@)),
            final(received).entries@ == old(received).entries@.filter(other_remote(remote_p_did@)),
    {
        let _ = remove_key(&mut self.relationships, remote_p_did);
        issued.remove_remote(remote_p_did);
        received.remove_remote(remote_p_did);
    }
}

// ---------------------------------------------------------------------------
// Contacts
// ---------------------------------------------------------------------------

/// A contact, found by its DID.
#[derive(Clone, Debug)]
pub struct Contact {
    pub did: String,
    pub alias: Option<String>,
}

impl Keyed for Contact {
    open spec fn key(self) -> Seq<char> {
        self.did@
    }

    fn key_text(&self) -> &str {
        self.did.as_str()
    }
}

/// The contact that an alias stands for.
#[derive(Clone, Debug)]
pub struct AliasEntry {
    pub alias: String,
    pub did: String,
}

impl Keyed for AliasEntry {
    open spec fn key(self) -> Seq<char> {
        self.alias@
    }

    fn key_text(&self) -> &str {
        self.alias.as_str()
    }
}

/// The address book.
#[derive(Clone, Debug)]
pub struct Contacts {
    pub contacts: Vec<Contact>,
    pub aliases: Vec<AliasEntry>,
}

/// The alias of the contact with this DID.
pub open spec fn alias_of(s: Seq<Contact>, did: Seq<char>) -> Option<Seq<char>> {
    match lookup(s, did) {
        Some(c) => opt_view(c.alias),
        None => None,
    }
}

/// `new` is `old` with a contact of this DID and alias in the place of any
/// contact that had the DID, and the alias standing for it.
pub open spec fn contact_stored(
    old: Contacts,
    new: Contacts,
    did: Seq<char>,
    alias: Option<Seq<char>>,
) -> bool {
    &&& new.contacts@.len() == without(old.contacts@, did).len() + 1
    &&& new.contacts@.drop_last() == without(old.contacts@, did)
    &&& new.contacts@.last().did@ == did
    &&& opt_view(new.contacts@.last().alias) == alias
    &&& match alias {
        None => new.aliases@ == old.aliases@,
        Some(a) => {
            &&& new.aliases@.len() == without(old.aliases@, a).len() + 1
            &&& new.aliases@.drop_last() == without(old.aliases@, a)
            &&& new.aliases@.last().alias@ == a
            &&& new.aliases@.last().did@ == did
        },
    }
}

/// `new` is `old` without the contact of this DID and without its alias.
pub open spec fn contact_dropped(old: Contacts, new: Contacts, did: Seq<char>) -> bool {
    &&& new.contacts@ == without(old.contacts@, did)
    &&& new.aliases@ == (match alias_of(old.contacts@, did) {
        Some(a) => without(old.aliases@, a),
        None => old.aliases@,
    })
}

impl Contacts {
    /// An empty address book.
    pub fn empty() -> (r: Contacts)
        ensures
            r.contacts@ == Seq::<Contact>::empty(),
            r.aliases@ == Seq::<AliasEntry>::empty(),
    {
        Contacts { contacts: Vec::new(), aliases: Vec::new() }
    }

    /// The contact with this DID.
    pub fn find_contact(&self, did: &str) -> (r: Option<&Contact>)
        ensures
            match r {
                Some(c) => lookup(self.contacts@, did@) == Some(*c),
                None => lookup(self.contacts@, did@) is None,
            },
    {
        find(&self.contacts, did)
    }

    /// The alias of the contact with this DID.
    pub fn alias(&self, did: &str) -> (r: Option<String>)
        ensures
            opt_view(r) == alias_of(self.contacts@, did@),
    {
        match find(&self.contacts, did) {
            Some(c) => copy_opt(&c.alias),
            None => None,
        }
    }

    /// Takes the contact with this DID out, and its alias with it.
    pub fn remove_contact(&mut self, did: &str)
        ensures
            contact_dropped(*old(self), *final(self), did@),
    {
        let alias = self.alias(did);
        let _ = remove_key(&mut self.contacts, did);
        match alias {
            Some(a) => {
                let _ = remove_key(&mut self.aliases, a.as_str());
            },
            None => {},
        }
    }

    /// Stores a contact in the place of any with its DID, and lets its alias
    /// stand for it.
    pub fn store_contact(&mut self, did: &str, alias: Option<String>)
        ensures
            contact_stored(*old(self), *final(self), did@, opt_view(alias)),
    {
        let _ = remove_key(&mut self.contacts, did);
        let ghost kept = self.contacts@;
        match &alias {
            Some(a) => {
                let _ = remove_key(&mut self.aliases, a.as_str());
                let ghost others = self.aliases@;
                self.aliases.push(
                    AliasEntry { alias: a.clone(), did: crate::text::owned(did) },
                );
                assert(self.aliases@.drop_last() =~= others);
            },
            None => {},
        }
        self.contacts.push(Contact { did: crate::text::owned(did), alias });
        assert(self.contacts@.drop_last() =~= kept);
    }

    /// Stores a new contact; refuses an alias that already stands for one.
    pub fn add_contact(&mut self, did: &str, alias: Option<String>) -> (r: bool)
        ensures
            r == !(alias matches Some(a) && has_key(old(self).aliases@, a@)),
            !r ==> *final(self) == *old(self),
            r ==> contact_stored(*old(self), *final(self), did@, opt_view(alias)),
    {
        match &alias {
            Some(a) => {
                if position(&self.aliases, a.as_str()).is_some() {
                    return false;
                }
            },
            None => {},
        }
        self.store_contact(did, alias);
        true
    }
}

/// What is found by the DID that a party uses is a relationship of the list, and
/// one in which the party uses that DID.
pub proof fn lemma_remote_did_found(s: Seq<Relationship>, did: Seq<char>)
    ensures
        by_remote_did(s, did) matches Some(rel) ==> rel.remote_did@ == did && s.contains(rel),
        by_remote_did(s, did) is None ==> forall|i: int|
            0 <= i < s.len() ==> (#[trigger] s[i]).remote_did@ != did,
    decreases s.len(),
{
    if s.len() > 0 {
        lemma_remote_did_found(s.skip(1), did);
        if s[0].remote_did@ != did {
            match by_remote_did(s, did) {
                Some(rel) => {
                    let i = choose|i: int| 0 <= i < s.skip(1).len() && s.skip(1)[i] == rel;
                    assert(s[i + 1] == rel);
                },
                None => {
                    assert forall|i: int| 0 <= i < s.len() implies (#[trigger] s[i]).remote_did@
                        != did by {
                        if i > 0 {
                            assert(s.skip(1)[i - 1].remote_did@ != did);
                        }
                    }
                },
            }
        } else {
            assert(s[0] == by_remote_did(s, did)->0);
        }
    }
}

/// A task is found under its id once it was filed, as it was filed and dating
/// from then, and every other task as before.
pub proof fn law_filed_task_is_found(tasks: &mut Tasks, id: &str, type_: TaskType, persona: Option<
    PersonaId,
>)
    requires
        call_ensures(Tasks::new_task_for, (tasks, id, type_, persona), ()),
    ensures
        lookup(final(tasks)@, id@) matches Some(t) && t.type_ == type_ && t.our_persona == persona
            && clock_read(t.created),
        forall|k: Seq<char>|
            k != id@ ==> #[trigger] lookup(final(tasks)@, k) == lookup(old(tasks)@, k),
        final(tasks)@.len() <= old(tasks)@.len() + 1,
{
    lemma_task_filed(old(tasks)@, final(tasks)@, id@, type_, persona);
}

/// What filing a task means for finding tasks.
pub proof fn lemma_task_filed(
    old: Seq<Task>,
    new: Seq<Task>,
    id: Seq<char>,
    type_: TaskType,
    persona: Option<PersonaId>,
)
    requires
        task_filed(old, new, id, type_, persona),
    ensures
        lookup(new, id) == Some(new.last()),
        new.last().type_ == type_,
        new.last().our_persona == persona,
        new.last().id@ == id,
        clock_read(new.last().created),
        forall|k: Seq<char>| k != id ==> #[trigger] lookup(new, k) == lookup(old, k),
        new.len() <= old.len() + 1,
{
    let kept = without(old, id);
    let x = new.last();
    assert(new =~= kept.push(x));
    crate::keyed::lemma_without(old, id);
    crate::keyed::lemma_lookup_push(kept, x, id);
    assert forall|k: Seq<char>| k != id implies #[trigger] lookup(new, k) == lookup(old, k) by {
        crate::keyed::lemma_lookup_push(kept, x, k);
    }
}

/// A line that is logged stands last, as it was given, dating from then; every
/// earlier line stays.
pub proof fn law_logged_line_stands_last(logs: &mut Logs, family: LogFamily, message: String)
    requires
        call_ensures(Logs::insert, (logs, family, message), ()),
    ensures
        final(logs).messages@.len() == old(logs).messages@.len() + 1,
        final(logs).messages@.last().family == family,
        final(logs).messages@.last().message@ == message@,
        clock_read(final(logs).messages@.last().created),
        final(logs).messages@.take(old(logs).messages@.len() as int) == old(logs).messages@,
{
    let s = final(logs)@;
    assert(s.len() == old(logs)@.len() + 1);
    assert(s.last() == (family, message@));
    assert(s[s.len() - 1] == (
        final(logs).messages@[s.len() - 1].family,
        final(logs).messages@[s.len() - 1].message@,
    ));
    assert(final(logs).messages@.take(old(logs).messages@.len() as int)
        =~= final(logs).messages@.drop_last());
}

/// A relationship that is stored is found by its party, in the place of any other
/// with that party; every other relationship is found as before.
pub proof fn law_stored_relationship_is_found(rels: &mut Relationships, r: Relationship)
    requires
        call_ensures(Relationships::insert, (rels, r), ()),
    ensures
        lookup(final(rels)@, r.remote_p_did@) == Some(r),
        forall|k: Seq<char>|
            k != r.remote_p_did@ ==> #[trigger] lookup(final(rels)@, k) == lookup(old(rels)@, k),
        final(rels).path_pointer == old(rels).path_pointer,
{
    crate::keyed::law_stored_entry_is_found(old(rels)@, r);
}

/// A contact that is stored is found by its DID with its alias, and the alias
/// stands for that DID; other contacts and aliases stay.
pub proof fn law_stored_contact_is_found(contacts: &mut Contacts, did: &str, alias: Option<String>)
    requires
        call_ensures(Contacts::store_contact, (contacts, did, alias), ()),
    ensures
        lookup(final(contacts).contacts@, did@) matches Some(c) && opt_view(c.alias) == opt_view(
            alias,
        ),
        alias matches Some(a) ==> (lookup(final(contacts).aliases@, a@) matches Some(e) && e.did@
            == did@),
        forall|k: Seq<char>|
            k != did@ ==> #[trigger] lookup(final(contacts).contacts@, k) == lookup(
                old(contacts).contacts@,
                k,
            ),
{
    let was = old(contacts).contacts@;
    let x = final(contacts).contacts@.last();
    let kept = without(was, did@);
    assert(final(contacts).contacts@ =~= kept.push(x));
    crate::keyed::lemma_without(was, did@);
    crate::keyed::lemma_lookup_push(kept, x, did@);
    assert forall|k: Seq<char>| k != did@ implies #[trigger] lookup(final(contacts).contacts@, k)
        == lookup(was, k) by {
        crate::keyed::lemma_lookup_push(kept, x, k);
    }
    if let Some(a) = alias {
        let y = final(contacts).aliases@.last();
        let others = without(old(contacts).aliases@, a@);
        assert(final(contacts).aliases@ =~= others.push(y));
        crate::keyed::lemma_without(old(contacts).aliases@, a@);
        crate::keyed::lemma_lookup_push(others, y, a@);
    }
}

/// A contact that is removed is found no more, nor does its alias stand for
/// anyone; other contacts stay.
pub proof fn law_removed_contact_is_gone(contacts: &mut Contacts, did: &str)
    requires
        call_ensures(Contacts::remove_contact, (contacts, did), ()),
    ensures
        lookup(final(contacts).contacts@, did@) is None,
        alias_of(old(contacts).contacts@, did@) matches Some(a) ==> lookup(
            final(contacts).aliases@,
            a,
        ) is None,
        forall|k: Seq<char>|
            k != did@ ==> #[trigger] lookup(final(contacts).contacts@, k) == lookup(
                old(contacts).contacts@,
                k,
            ),
{
    crate::keyed::lemma_without(old(contacts).contacts@, did@);
    if let Some(a) = alias_of(old(contacts).contacts@, did@) {
        crate::keyed::lemma_without(old(contacts).aliases@, a);
    }
}

/// A task that is removed is not found again, and every other one is.
pub proof fn law_removed_task_is_gone(tasks: &mut Tasks, id: &str, r: bool, other: Seq<char>)
    requires
        call_ensures(Tasks::remove, (tasks, id), r),
    ensures
        lookup(final(tasks)@, id@) is None,
        r <==> lookup(old(tasks)@, id@) is Some,
        other != id@ ==> lookup(final(tasks)@, other) == lookup(old(tasks)@, other),
{
    crate::keyed::lemma_without(old(tasks)@, id@);
    crate::keyed::lemma_lookup(old(tasks)@, id@);
}

/// A relationship that is removed is gone with every credential that was exchanged
/// over it; every other relationship stays, and so do the credentials of others.
pub proof fn law_removed_relationship_takes_its_credentials(
    rels: &mut Relationships,
    party: &str,
    issued: &mut Vrcs,
    received: &mut Vrcs,
    other: Seq<char>,
    e: VrcEntry,
)
    requires
        call_ensures(Relationships::remove, (rels, party, issued, received), ()),
    ensures
        lookup(final(rels)@, party@) is None,
        other != party@ ==> lookup(final(rels)@, other) == lookup(old(rels)@, other),
        final(issued).entries@.contains(e) ==> old(issued).entries@.contains(e)
            && e.remote_p_did@ != party@,
        final(received).entries@.contains(e) ==> old(received).entries@.contains(e)
            && e.remote_p_did@ != party@,
        old(issued).entries@.contains(e) && e.remote_p_did@ != party@
            ==> final(issued).entries@.contains(e),
        old(received).entries@.contains(e) && e.remote_p_did@ != party@
            ==> final(received).entries@.contains(e),
{
    crate::keyed::lemma_without(old(rels)@, party@);
    lemma_kept_filings(old(issued).entries@, party@, e);
    lemma_kept_filings(old(received).entries@, party@, e);
}

proof fn lemma_kept_filings(s: Seq<VrcEntry>, party: Seq<char>, e: VrcEntry)
    ensures
        s.filter(other_remote(party)).contains(e) <==> s.contains(e) && e.remote_p_did@ != party,
{
    let keep = other_remote(party);
    let kept = s.filter(keep);
    broadcast use vstd::seq_lib::group_filter_ensures;

    if s.contains(e) && e.remote_p_did@ != party {
        assert(keep(e));
        let at = choose|at: int| 0 <= at < s.len() && s[at] == e;
        s.lemma_filter_contains(keep, at);
    }
    if kept.contains(e) {
        let k = choose|k: int| 0 <= k < kept.len() && kept[k] == e;
        assert(keep(kept[k]));
        s.lemma_filter_contains_rev(keep, e);
    }
}

} // verus!
