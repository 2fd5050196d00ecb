//! The account: its personas and its community memberships.

use crate::keyed::{self, Filter};
use crate::ledger::{KeyPurpose, PersonaId};
use crate::text::{copy_opt, same};
use vstd::prelude::*;

verus! {

// ---------------------------------------------------------------------------
// Lists found by persona
// ---------------------------------------------------------------------------

/// An entry that belongs to a persona.
pub trait Held: Sized {
    /// The persona it belongs to.
    spec fn holder(self) -> PersonaId;

    /// The persona it belongs to.
    fn holder_id(&self) -> (r: PersonaId)
        ensures
            r == self.holder(),
    ;
}

/// The first entry that belongs to this persona.
pub open spec fn held_by<T: Held>(s: Seq<T>, id: PersonaId) -> Option<T>
    decreases s.len(),
{
    if s.len() == 0 {
        None
    } else if s[0].holder() == id {
        Some(s[0])
    } else {
        held_by(s.skip(1), id)
    }
}

/// The entries that belong to another persona.
pub open spec fn held_by_others<T: Held>(id: PersonaId) -> spec_fn(T) -> bool {
    |t: T| t.holder() != id
}

/// An entry belongs to this persona.
pub open spec fn holds_some<T: Held>(s: Seq<T>, id: PersonaId) -> bool {
    exists|i: int| 0 <= i < s.len() && (#[trigger] s[i]).holder() == id
}

proof fn lemma_held_by<T: Held>(s: Seq<T>, id: PersonaId, i: int)
    requires
        0 <= i <= s.len(),
        forall|j: int| 0 <= j < i ==> (#[trigger] s[j]).holder() != id,
        i < s.len() ==> s[i].holder() == id,
    ensures
        held_by(s, id) == (if i < s.len() {
            Some(s[i])
        } else {
            None
        }),
    decreases i,
{
    if i > 0 {
        assert(s[0].holder() != id);
        assert forall|j: int| 0 <= j < i - 1 implies (#[trigger] s.skip(1)[j]).holder() != id by {
            assert(s[j + 1].holder() != id);
        }
        lemma_held_by(s.skip(1), id, i - 1);
    }
}

/// Whoever holds no entry is not found, and appending does not hide an entry.
pub proof fn lemma_held_by_push<T: Held>(s: Seq<T>, x: T, id: PersonaId)
    ensures
        held_by(s.push(x), id) == (if held_by(s, id) is Some {
            held_by(s, id)
        } else if x.holder() == id {
            Some(x)
        } else {
            None
        }),
    decreases s.len(),
{
    if s.len() == 0 {
        assert(s.push(x).skip(1) =~= Seq::<T>::empty());
        assert(held_by(s.push(x).skip(1), id) is None);
    } else {
        assert(s.push(x)[0] == s[0]);
        assert(s.push(x).skip(1) =~= s.skip(1).push(x));
        lemma_held_by_push(s.skip(1), x, id);
    }
}

/// Passes the entries of other personas.
pub struct NotHeld {
    pub id: PersonaId,
}

impl<T: Held> Filter<T> for NotHeld {
    open spec fn keeps(&self) -> spec_fn(T) -> bool {
        held_by_others(self.id)
    }

    fn test(&self, t: &T) -> bool {
        t.holder_id() != self.id
    }
}

/// The position of the first entry that belongs to this persona.
pub fn held_position<T: Held>(v: &Vec<T>, id: PersonaId) -> (r: Option<usize>)
    ensures
        match r {
            Some(i) => i < v@.len() && held_by(v@, id) == Some(v@[i as int]) && v@[i as int].holder()
                == id && forall|j: int| 0 <= j < i ==> (#[trigger] v@[j]).holder() != id,
            None => held_by(v@, id) is None && !holds_some(v@, id),
        },
{
    let mut i: usize = 0;
    while i < v.len()
        invariant
            i <= v.len(),
            forall|j: int| 0 <= j < i ==> (#[trigger] v@[j]).holder() != id,
        decreases v.len() - i,
    {
        if v[i].holder_id() == id {
            proof {
                lemma_held_by(v@, id, i as int);
            }
            return Some(i);
        }
        i = i + 1;
    }
    proof {
        lemma_held_by(v@, id, i as int);
    }
    None
}

/// Takes every entry of this persona out.
pub fn drop_held<T: Held>(v: &mut Vec<T>, id: PersonaId)
    ensures
        final(v)@ == old(v)@.filter(held_by_others(id)),
{
    keyed::retain(v, &NotHeld { id });
}

// ---------------------------------------------------------------------------
// Memberships
// ---------------------------------------------------------------------------

/// Where a membership stands.
#[derive(Clone, Debug)]
pub enum CommunityStatus {
    /// Requested and not yet answered.
    Pending { request_id: String },
    Active,
    Left,
    Rejected,
    Removed,
    Expired,
    Withdrawn,
}

impl CommunityStatus {
    /// Human-readable label of the status.
    pub open spec fn label_view(self) -> Seq<char> {
        match self {
            CommunityStatus::Pending { .. } => "Pending"@,
            CommunityStatus::Active => "Active"@,
            CommunityStatus::Left => "Left"@,
            CommunityStatus::Rejected => "Rejected"@,
            CommunityStatus::Removed => "Removed"@,
            CommunityStatus::Expired => "Expired"@,
            CommunityStatus::Withdrawn => "Withdrawn"@,
        }
    }

    /// Whether the membership is in force.
    pub fn is_active(&self) -> (r: bool)
        ensures
            r == (*self is Active),
    {
        match self {
            CommunityStatus::Active => true,
            _ => false,
        }
    }

    /// A copy of this status.
    pub fn duplicate(&self) -> (r: CommunityStatus)
        ensures
            r == *self,
    {
        match self {
            CommunityStatus::Pending { request_id } => CommunityStatus::Pending {
                request_id: request_id.clone(),
            },
            CommunityStatus::Active => CommunityStatus::Active,
            CommunityStatus::Left => CommunityStatus::Left,
            CommunityStatus::Rejected => CommunityStatus::Rejected,
            CommunityStatus::Removed => CommunityStatus::Removed,
            CommunityStatus::Expired => CommunityStatus::Expired,
            CommunityStatus::Withdrawn => CommunityStatus::Withdrawn,
        }
    }
}

/// Human-readable label for a membership status.
pub fn community_status_label(status: &CommunityStatus) -> (r: String)
    ensures
        r@ == status.label_view(),
{
    match status {
        CommunityStatus::Pending { .. } => crate::text::owned("Pending"),
        CommunityStatus::Active => crate::text::owned("Active"),
        CommunityStatus::Left => crate::text::owned("Left"),
        CommunityStatus::Rejected => crate::text::owned("Rejected"),
        CommunityStatus::Removed => crate::text::owned("Removed"),
        CommunityStatus::Expired => crate::text::owned("Expired"),
        CommunityStatus::Withdrawn => crate::text::owned("Withdrawn"),
    }
}

/// One membership: a community and the persona presented to it.
#[derive(Clone, Debug)]
pub struct CommunityRecord {
    pub vtc_did: String,
    pub display_name: Option<String>,
    pub sub_context_id: String,
    pub persona_ref: PersonaId,
    pub status: CommunityStatus,
    pub requested_at: Option<i64>,
    pub member_since: Option<i64>,
    pub favourite: bool,
    pub archived: bool,
    /// Whether an outcome waits to be seen by the user.
    pub attention: bool,
    /// The membership credential, as JSON text.
    pub membership_credential: Option<String>,
    /// The role credential, as JSON text.
    pub role_credential: Option<String>,
}

impl Held for CommunityRecord {
    open spec fn holder(self) -> PersonaId {
        self.persona_ref
    }

    fn holder_id(&self) -> PersonaId {
        self.persona_ref
    }
}

impl CommunityRecord {
    /// In force or still awaiting its answer.
    pub open spec fn live(self) -> bool {
        self.status is Active || self.status is Pending
    }

    /// The membership of `persona` in the community `vtc`.
    pub open spec fn is_membership(self, vtc: Seq<char>, persona: PersonaId) -> bool {
        self.vtc_did@ == vtc && self.persona_ref == persona
    }

    /// A fresh membership that awaits its answer.
    pub fn new_pending(
        vtc_did: String,
        display_name: Option<String>,
        sub_context_id: String,
        persona_ref: PersonaId,
        request_id: String,
        now: i64,
    ) -> (r: CommunityRecord)
        ensures
            r == (CommunityRecord {
                vtc_did,
                display_name,
                sub_context_id,
                persona_ref,
                status: CommunityStatus::Pending { request_id },
                requested_at: Some(now),
                member_since: None,
                favourite: false,
                archived: false,
                attention: false,
                membership_credential: None,
                role_credential: None,
            }),
    {
        CommunityRecord {
            vtc_did,
            display_name,
            sub_context_id,
            persona_ref,
            status: CommunityStatus::Pending { request_id },
            requested_at: Some(now),
            member_since: None,
            favourite: false,
            archived: false,
            attention: false,
            membership_credential: None,
            role_credential: None,
        }
    }

    /// A copy of this record.
    pub fn duplicate(&self) -> (r: CommunityRecord)
        ensures
            r == *self,
    {
        CommunityRecord {
            vtc_did: self.vtc_did.clone(),
            display_name: copy_opt(&self.display_name),
            sub_context_id: self.sub_context_id.clone(),
            persona_ref: self.persona_ref,
            status: self.status.duplicate(),
            requested_at: self.requested_at,
            member_since: self.member_since,
            favourite: self.favourite,
            archived: self.archived,
            attention: self.attention,
            membership_credential: copy_opt(&self.membership_credential),
            role_credential: copy_opt(&self.role_credential),
        }
    }

    /// Whether the membership is in force or still awaits its answer.
    pub fn is_live(&self) -> (r: bool)
        ensures
            r == self.live(),
    {
        match &self.status {
            CommunityStatus::Active => true,
            CommunityStatus::Pending { .. } => true,
            _ => false,
        }
    }

    /// The community admitted us.
    pub fn activate(&mut self, now: i64)
        ensures
            *final(self) == (CommunityRecord {
                status: CommunityStatus::Active,
                member_since: Some(now),
                ..*old(self)
            }),
    {
        self.status = CommunityStatus::Active;
        self.member_since = Some(now);
    }

    /// We left the community.
    pub fn leave(&mut self)
        ensures
            *final(self) == (CommunityRecord { status: CommunityStatus::Left, ..*old(self) }),
    {
        self.status = CommunityStatus::Left;
    }

    /// We took a request back that was not answered yet; tells whether there
    /// was one.
    pub fn withdraw(&mut self) -> (r: bool)
        ensures
            r == (old(self).status is Pending),
            *final(self) == (if r {
                (CommunityRecord { status: CommunityStatus::Withdrawn, ..*old(self) })
            } else {
                *old(self)
            }),
    {
        match &self.status {
            CommunityStatus::Pending { .. } => {
                self.status = CommunityStatus::Withdrawn;
                true
            },
            _ => false,
        }
    }

    /// A request went unanswered for too long; the user is to be told.
    pub fn expire(&mut self)
        ensures
            *final(self) == (CommunityRecord {
                status: CommunityStatus::Expired,
                attention: true,
                ..*old(self)
            }),
    {
        self.status = CommunityStatus::Expired;
        self.attention = true;
    }

    /// The user has seen the outcome.
    pub fn acknowledge(&mut self)
        ensures
            *final(self) == (CommunityRecord { attention: false, ..*old(self) }),
    {
        self.attention = false;
    }

    /// Flips the star.
    pub fn toggle_favourite(&mut self)
        ensures
            *final(self) == (CommunityRecord { favourite: !old(self).favourite, ..*old(self) }),
    {
        self.favourite = !self.favourite;
    }
}

/// A key of a persona.
#[derive(Clone, Debug)]
pub struct KeyRef {
    pub key_id: String,
    pub purpose: KeyPurpose,
    pub created_at: i64,
}

/// A persona of the account.
#[derive(Clone, Debug)]
pub struct PersonaRecord {
    pub persona_id: PersonaId,
    pub did: String,
    pub did_document: Option<String>,
    pub key_refs: Vec<KeyRef>,
    pub mediator_did: Option<String>,
    pub origin_context_id: String,
    pub created_at: i64,
    pub label: Option<String>,
}

impl Held for PersonaRecord {
    open spec fn holder(self) -> PersonaId {
        self.persona_id
    }

    fn holder_id(&self) -> PersonaId {
        self.persona_id
    }
}

/// The account.
#[derive(Clone, Debug)]
pub struct Account {
    pub vta_did: String,
    pub vta_url: String,
    pub top_context_id: String,
    pub org_did: String,
    pub personas: Vec<PersonaRecord>,
    pub communities: Vec<CommunityRecord>,
}

/// Why a membership record cannot be put away.
#[derive(Clone, Copy, Debug, PartialEq, Eq, Structural)]
pub enum AccountError {
    /// There is no such membership.
    Unknown,
    /// The membership is still active or pending.
    StillLive,
}

impl AccountError {
    /// How the error is shown.
    pub open spec fn text_view(self) -> Seq<char> {
        match self {
            AccountError::Unknown => "no such community"@,
            AccountError::StillLive => "community is still active or pending"@,
        }
    }

    /// How the error is shown.
    pub fn text(&self) -> (r: &'static str)
        ensures
            r@ == self.text_view(),
    {
        match self {
            AccountError::Unknown => "no such community",
            AccountError::StillLive => "community is still active or pending",
        }
    }
}

// ---------------------------------------------------------------------------
// Finding memberships
// ---------------------------------------------------------------------------

/// The position of the membership of `persona` in `vtc`, among the first `n`.
pub open spec fn membership_at(
    s: Seq<CommunityRecord>,
    vtc: Seq<char>,
    persona: PersonaId,
) -> Option<int>
    decreases s.len(),
{
    if s.len() == 0 {
        None
    } else if s[0].is_membership(vtc, persona) {
        Some(0)
    } else {
        match membership_at(s.skip(1), vtc, persona) {
            Some(i) => Some(i + 1),
            None => None,
        }
    }
}

proof fn lemma_membership_at(s: Seq<CommunityRecord>, vtc: Seq<char>, persona: PersonaId, i: int)
    requires
        0 <= i <= s.len(),
        forall|j: int| 0 <= j < i ==> !(#[trigger] s[j]).is_membership(vtc, persona),
        i < s.len() ==> s[i].is_membership(vtc, persona),
    ensures
        membership_at(s, vtc, persona) == (if i < s.len() {
            Some(i)
        } else {
            None
        }),
    decreases i,
{
    if i > 0 {
        assert(!s[0].is_membership(vtc, persona));
        assert forall|j: int| 0 <= j < i - 1 implies !(#[trigger] s.skip(1)[j]).is_membership(
            vtc,
            persona,
        ) by {
            assert(!s[j + 1].is_membership(vtc, persona));
        }
        lemma_membership_at(s.skip(1), vtc, persona, i - 1);
    }
}

/// A found position is one of the list and holds the membership.
pub proof fn lemma_membership_found(s: Seq<CommunityRecord>, vtc: Seq<char>, persona: PersonaId)
    ensures
        membership_at(s, vtc, persona) matches Some(i) ==> 0 <= i < s.len() && s[i].is_membership(
            vtc,
            persona,
        ),
        membership_at(s, vtc, persona) is None ==> forall|i: int|
            0 <= i < s.len() ==> !(#[trigger] s[i]).is_membership(vtc, persona),
    decreases s.len(),
{
    if s.len() > 0 && !s[0].is_membership(vtc, persona) {
        lemma_membership_found(s.skip(1), vtc, persona);
        if membership_at(s, vtc, persona) is None {
            assert forall|i: int| 0 <= i < s.len() implies !(#[trigger] s[i]).is_membership(
                vtc,
                persona,
            ) by {
                if i > 0 {
                    assert(!s.skip(1)[i - 1].is_membership(vtc, persona));
                }
            }
        }
    }
}

/// A live membership in this community exists.
pub open spec fn live_in(s: Seq<CommunityRecord>, vtc: Seq<char>) -> bool {
    exists|i: int| 0 <= i < s.len() && (#[trigger] s[i]).vtc_did@ == vtc && s[i].live()
}

/// A live membership that presents this persona exists.
pub open spec fn persona_live(s: Seq<CommunityRecord>, persona: PersonaId) -> bool {
    exists|i: int| 0 <= i < s.len() && (#[trigger] s[i]).persona_ref == persona && s[i].live()
}

/// A live membership exists.
pub open spec fn any_live(s: Seq<CommunityRecord>) -> bool {
    exists|i: int| 0 <= i < s.len() && (#[trigger] s[i]).live()
}

/// A membership in force exists.
pub open spec fn any_active(s: Seq<CommunityRecord>) -> bool {
    exists|i: int| 0 <= i < s.len() && (#[trigger] s[i]).status is Active
}

/// How many of the first `n` memberships present this persona.
pub open spec fn bound_count(s: Seq<CommunityRecord>, persona: PersonaId) -> nat
    decreases s.len(),
{
    if s.len() == 0 {
        0
    } else {
        bound_count(s.drop_last(), persona) + (if s.last().persona_ref == persona {
            1nat
        } else {
            0nat
        })
    }
}

/// No persona that a membership presents is counted as unbound, and the other
/// way round.
pub proof fn lemma_bound_count(s: Seq<CommunityRecord>, persona: PersonaId)
    ensures
        bound_count(s, persona) == 0 <==> !holds_some(s, persona),
        bound_count(s, persona) <= s.len(),
    decreases s.len(),
{
    if s.len() > 0 {
        let d = s.drop_last();
        lemma_bound_count(d, persona);
        if holds_some(d, persona) {
            let i = choose|i: int| 0 <= i < d.len() && (#[trigger] d[i]).holder() == persona;
            assert(s[i].holder() == persona);
        }
        if holds_some(s, persona) && s.last().persona_ref != persona {
            let i = choose|i: int| 0 <= i < s.len() && (#[trigger] s[i]).holder() == persona;
            assert(d[i].holder() == persona);
        }
        if s.last().persona_ref == persona {
            assert(s[s.len() - 1].holder() == persona);
        }
    }
}

/// How many memberships wait for the user's attention.
pub open spec fn attention_count(s: Seq<CommunityRecord>) -> nat
    decreases s.len(),
{
    if s.len() == 0 {
        0
    } else {
        attention_count(s.drop_last()) + (if s.last().attention {
            1nat
        } else {
            0nat
        })
    }
}

proof fn lemma_attention_count(s: Seq<CommunityRecord>)
    ensures
        attention_count(s) <= s.len(),
    decreases s.len(),
{
    if s.len() > 0 {
        lemma_attention_count(s.drop_last());
    }
}

/// The first persona with this DID.
pub open spec fn persona_with_did(s: Seq<PersonaRecord>, did: Seq<char>) -> Option<PersonaRecord>
    decreases s.len(),
{
    if s.len() == 0 {
        None
    } else if s[0].did@ == did {
        Some(s[0])
    } else {
        persona_with_did(s.skip(1), did)
    }
}

proof fn lemma_persona_with_did(s: Seq<PersonaRecord>, did: Seq<char>, i: int)
    requires
        0 <= i <= s.len(),
        forall|j: int| 0 <= j < i ==> (#[trigger] s[j]).did@ != did,
        i < s.len() ==> s[i].did@ == did,
    ensures
        persona_with_did(s, did) == (if i < s.len() {
            Some(s[i])
        } else {
            None
        }),
    decreases i,
{
    if i > 0 {
        assert(s[0].did@ != did);
        assert forall|j: int| 0 <= j < i - 1 implies (#[trigger] s.skip(1)[j]).did@ != did by {
            assert(s[j + 1].did@ != did);
        }
        lemma_persona_with_did(s.skip(1), did, i - 1);
    }
}

// ---------------------------------------------------------------------------
// Display order
// ---------------------------------------------------------------------------

/// The positions, among the first `n`, of the records that are shown and
/// starred as asked, in account order.
pub open spec fn picked(s: Seq<CommunityRecord>, n: int, starred: bool, archived: bool) -> Seq<int>
    decreases n,
{
    if n <= 0 {
        Seq::empty()
    } else {
        let rest = picked(s, n - 1, starred, archived);
        if s[n - 1].favourite == starred && (archived || !s[n - 1].archived) {
            rest.push(n - 1)
        } else {
            rest
        }
    }
}

/// The positions of the shown records in display order: the starred ones first.
pub open spec fn display_order(s: Seq<CommunityRecord>, archived: bool) -> Seq<int> {
    picked(s, s.len() as int, true, archived) + picked(s, s.len() as int, false, archived)
}

/// The positions of a list of indices.
pub open spec fn positions(v: Seq<usize>) -> Seq<int> {
    v.map_values(|i: usize| i as int)
}

/// Every picked position is one of the first `n`, and the record there is
/// shown and starred as asked.
pub proof fn lemma_picked(s: Seq<CommunityRecord>, n: int, starred: bool, archived: bool)
    requires
        0 <= n <= s.len(),
    ensures
        forall|k: int|
            0 <= k < picked(s, n, starred, archived).len() ==> 0 <= (#[trigger] picked(
                s,
                n,
                starred,
                archived,
            )[k]) < n && s[picked(s, n, starred, archived)[k]].favourite == starred && (archived
                || !s[picked(s, n, starred, archived)[k]].archived),
        picked(s, n, starred, archived).len() <= n,
    decreases n,
{
    if n > 0 {
        lemma_picked(s, n - 1, starred, archived);
    }
}

/// Every displayed position is one of the list; archived records are displayed
/// only on request.
pub proof fn law_display_order(s: Seq<CommunityRecord>, archived: bool)
    ensures
        forall|k: int|
            0 <= k < display_order(s, archived).len() ==> 0 <= (#[trigger] display_order(
                s,
                archived,
            )[k]) < s.len() && (archived || !s[display_order(s, archived)[k]].archived),
        forall|j: int, k: int|
            0 <= j < k < display_order(s, archived).len() && s[#[trigger] display_order(
                s,
                archived,
            )[k]].favourite ==> s[#[trigger] display_order(s, archived)[j]].favourite,
{
    lemma_picked(s, s.len() as int, true, archived);
    lemma_picked(s, s.len() as int, false, archived);
    let a = picked(s, s.len() as int, true, archived);
    let b = picked(s, s.len() as int, false, archived);
    assert forall|k: int| 0 <= k < display_order(s, archived).len() implies 0 <= (
    #[trigger] display_order(s, archived)[k]) < s.len() && (archived || !s[display_order(
        s,
        archived,
    )[k]].archived) by {
        if k < a.len() {
            assert(display_order(s, archived)[k] == a[k]);
        } else {
            assert(display_order(s, archived)[k] == b[k - a.len()]);
        }
    }
    assert forall|j: int, k: int|
        0 <= j < k < display_order(s, archived).len() && s[#[trigger] display_order(
            s,
            archived,
        )[k]].favourite implies s[#[trigger] display_order(s, archived)[j]].favourite by {
        if k < a.len() {
            assert(display_order(s, archived)[j] == a[j]);
        } else {
            assert(display_order(s, archived)[k] == b[k - a.len()]);
        }
    }
}

impl Account {
    /// An account with nothing in it.
    pub fn empty() -> (r: Account)
        ensures
            r.vta_did@ == Seq::<char>::empty(),
            r.vta_url@ == Seq::<char>::empty(),
            r.top_context_id@ == Seq::<char>::empty(),
            r.org_did@ == Seq::<char>::empty(),
            r.personas@ == Seq::<PersonaRecord>::empty(),
            r.communities@ == Seq::<CommunityRecord>::empty(),
    {
        Account {
            vta_did: String::new(),
            vta_url: String::new(),
            top_context_id: String::new(),
            org_did: String::new(),
            personas: Vec::new(),
            communities: Vec::new(),
        }
    }

    /// The position of the membership of `persona` in `vtc`.
    pub fn membership(&self, vtc: &str, persona: PersonaId) -> (r: Option<usize>)
        ensures
            match r {
                Some(i) => membership_at(self.communities@, vtc@, persona) == Some(i as int) && i
                    < self.communities@.len() && self.communities@[i as int].is_membership(
                    vtc@,
                    persona,
                ),
                None => membership_at(self.communities@, vtc@, persona) is None,
            },
    {
        let mut i: usize = 0;
        while i < self.communities.len()
            invariant
                i <= self.communities@.len(),
                forall|j: int|
                    0 <= j < i ==> !(#[trigger] self.communities@[j]).is_membership(vtc@, persona),
            decreases self.communities@.len() - i,
        {
            if self.communities[i].persona_ref == persona && same(
                self.communities[i].vtc_did.as_str(),
                vtc,
            ) {
                proof {
                    lemma_membership_at(self.communities@, vtc@, persona, i as int);
                }
                return Some(i);
            }
            i = i + 1;
        }
        proof {
            lemma_membership_at(self.communities@, vtc@, persona, i as int);
        }
        None
    }

    /// Whether a live membership in this community exists.
    pub fn live_community(&self, vtc: &str) -> (r: bool)
        ensures
            r == live_in(self.communities@, vtc@),
    {
        let mut i: usize = 0;
        while i < self.communities.len()
            invariant
                i <= self.communities@.len(),
                forall|j: int|
                    0 <= j < i ==> !((#[trigger] self.communities@[j]).vtc_did@ == vtc@
                        && self.communities@[j].live()),
            decreases self.communities@.len() - i,
        {
            if self.communities[i].is_live() && same(self.communities[i].vtc_did.as_str(), vtc) {
                return true;
            }
            i = i + 1;
        }
        false
    }

    /// Whether a live membership presents this persona.
    pub fn persona_is_live(&self, persona: PersonaId) -> (r: bool)
        ensures
            r == persona_live(self.communities@, persona),
    {
        let mut i: usize = 0;
        while i < self.communities.len()
            invariant
                i <= self.communities@.len(),
                forall|j: int|
                    0 <= j < i ==> !((#[trigger] self.communities@[j]).persona_ref == persona
                        && self.communities@[j].live()),
            decreases self.communities@.len() - i,
        {
            if self.communities[i].persona_ref == persona && self.communities[i].is_live() {
                return true;
            }
            i = i + 1;
        }
        false
    }

    /// Whether any membership is live.
    pub fn has_live(&self) -> (r: bool)
        ensures
            r == any_live(self.communities@),
    {
        let mut i: usize = 0;
        while i < self.communities.len()
            invariant
                i <= self.communities@.len(),
                forall|j: int| 0 <= j < i ==> !(#[trigger] self.communities@[j]).live(),
            decreases self.communities@.len() - i,
        {
            if self.communities[i].is_live() {
                return true;
            }
            i = i + 1;
        }
        false
    }

    /// Whether any membership is in force.
    pub fn has_active(&self) -> (r: bool)
        ensures
            r == any_active(self.communities@),
    {
        let mut i: usize = 0;
        while i < self.communities.len()
            invariant
                i <= self.communities@.len(),
                forall|j: int| 0 <= j < i ==> !((#[trigger] self.communities@[j]).status is Active),
            decreases self.communities@.len() - i,
        {
            if self.communities[i].status.is_active() {
                return true;
            }
            i = i + 1;
        }
        false
    }

    /// How many memberships present this persona.
    pub fn bound_communities(&self, persona: PersonaId) -> (r: usize)
        ensures
            r == bound_count(self.communities@, persona),
    {
        let mut i: usize = 0;
        let mut n: usize = 0;
        assert(self.communities@.take(0).len() == 0);
        while i < self.communities.len()
            invariant
                i <= self.communities@.len(),
                n <= i,
                n == bound_count(self.communities@.take(i as int), persona),
            decreases self.communities@.len() - i,
        {
            assert(self.communities@.take(i + 1).drop_last() =~= self.communities@.take(i as int));
            if self.communities[i].persona_ref == persona {
                n = n + 1;
            }
            i = i + 1;
        }
        assert(self.communities@.take(i as int) =~= self.communities@);
        n
    }

    /// Whether a membership presents this persona.
    pub fn persona_referenced(&self, persona: PersonaId) -> (r: bool)
        ensures
            r == holds_some(self.communities@, persona),
    {
        proof {
            lemma_bound_count(self.communities@, persona);
        }
        self.bound_communities(persona) > 0
    }

    /// How many memberships wait for the user's attention.
    pub fn actions_required_count(&self) -> (r: usize)
        ensures
            r == attention_count(self.communities@),
    {
        let mut i: usize = 0;
        let mut n: usize = 0;
        assert(self.communities@.take(0).len() == 0);
        while i < self.communities.len()
            invariant
                i <= self.communities@.len(),
                n <= i,
                n == attention_count(self.communities@.take(i as int)),
            decreases self.communities@.len() - i,
        {
            assert(self.communities@.take(i + 1).drop_last() =~= self.communities@.take(i as int));
            if self.communities[i].attention {
                n = n + 1;
            }
            i = i + 1;
        }
        assert(self.communities@.take(i as int) =~= self.communities@);
        n
    }

    /// The position of the first persona with this DID.
    pub fn persona_by_did(&self, did: &str) -> (r: Option<usize>)
        ensures
            match r {
                Some(i) => i < self.personas@.len() && persona_with_did(self.personas@, did@)
                    == Some(self.personas@[i as int]) && self.personas@[i as int].did@ == did@,
                None => persona_with_did(self.personas@, did@) is None,
            },
    {
        let mut i: usize = 0;
        while i < self.personas.len()
            invariant
                i <= self.personas@.len(),
                forall|j: int| 0 <= j < i ==> (#[trigger] self.personas@[j]).did@ != did@,
            decreases self.personas@.len() - i,
        {
            if same(self.personas[i].did.as_str(), did) {
                proof {
                    lemma_persona_with_did(self.personas@, did@, i as int);
                }
                return Some(i);
            }
            i = i + 1;
        }
        proof {
            lemma_persona_with_did(self.personas@, did@, i as int);
        }
        None
    }

    /// The id of the first persona with this DID.
    pub fn persona_id_for_did(&self, did: &str) -> (r: Option<PersonaId>)
        ensures
            r == (match persona_with_did(self.personas@, did@) {
                Some(p) => Some(p.persona_id),
                None => None,
            }),
    {
        match self.persona_by_did(did) {
            Some(i) => Some(self.personas[i].persona_id),
            None => None,
        }
    }

    fn pick(&self, starred: bool, archived: bool) -> (r: Vec<usize>)
        ensures
            positions(r@) == picked(
                self.communities@,
                self.communities@.len() as int,
                starred,
                archived,
            ),
    {
        let mut out: Vec<usize> = Vec::new();
        let mut i: usize = 0;
        assert(positions(out@) =~= Seq::<int>::empty());
        while i < self.communities.len()
            invariant
                i <= self.communities@.len(),
                positions(out@) == picked(self.communities@, i as int, starred, archived),
            decreases self.communities@.len() - i,
        {
            let ghost before = out@;
            if self.communities[i].favourite == starred && (archived
                || !self.communities[i].archived) {
                out.push(i);
                assert(positions(out@) =~= positions(before).push(i as int));
            }
            i = i + 1;
        }
        out
    }

    /// The positions of the memberships in display order: the starred ones
    /// first, the archived ones only on request.
    pub fn communities_for_display(&self, archived: bool) -> (r: Vec<usize>)
        ensures
            positions(r@) == display_order(self.communities@, archived),
            forall|k: int| 0 <= k < r@.len() ==> (#[trigger] r@[k]) < self.communities@.len(),
    {
        let mut out = self.pick(true, archived);
        let mut rest = self.pick(false, archived);
        let ghost a = out@;
        let ghost b = rest@;
        out.append(&mut rest);
        assert(positions(out@) =~= positions(a) + positions(b));
        proof {
            law_display_order(self.communities@, archived);
            assert forall|k: int| 0 <= k < out@.len() implies (#[trigger] out@[k])
                < self.communities@.len() by {
                assert(positions(out@)[k] == display_order(self.communities@, archived)[k]);
            }
        }
        out
    }

    /// The position of the membership at a row of the displayed list.
    pub fn displayed(&self, archived: bool, row: usize) -> (r: Option<usize>)
        ensures
            r == row_position(self.communities@, archived, row as int),
            r matches Some(i) ==> i < self.communities@.len(),
    {
        let order = self.communities_for_display(archived);
        assert(positions(order@).len() == order@.len());
        if row < order.len() {
            assert(positions(order@)[row as int] == order@[row as int]);
            Some(order[row])
        } else {
            None
        }
    }

    /// The working membership to start from: the first one in force, in display
    /// order.
    pub fn default_working_membership(&self) -> (r: Option<(String, PersonaId)>)
        ensures
            match r {
                Some((vtc, persona)) => first_active(self.communities@) matches Some(i) && vtc@
                    == self.communities@[i].vtc_did@ && persona == self.communities@[i].persona_ref,
                None => first_active(self.communities@) is None,
            },
    {
        let order = self.communities_for_display(false);
        let ghost shown = display_order(self.communities@, false);
        assert(positions(order@).len() == order@.len());
        let mut k: usize = 0;
        assert(shown.skip(0) =~= shown);
        while k < order.len()
            invariant
                k <= order@.len(),
                order@.len() == shown.len(),
                positions(order@) == shown,
                forall|j: int|
                    0 <= j < order@.len() ==> (#[trigger] order@[j]) < self.communities@.len(),
                first_active(self.communities@) == active_among(
                    self.communities@,
                    shown.skip(k as int),
                ),
            decreases order@.len() - k,
        {
            let i: usize = order[k];
            proof {
                assert(positions(order@)[k as int] == order@[k as int]);
                assert(shown.skip(k as int)[0] == shown[k as int]);
                assert(shown.skip(k as int).skip(1) =~= shown.skip(k + 1));
            }
            if self.communities[i].status.is_active() {
                return Some((self.communities[i].vtc_did.clone(), self.communities[i].persona_ref));
            }
            k = k + 1;
        }
        None
    }

    /// Stores a membership in the place of any of its persona in its community.
    pub fn add_membership(&mut self, record: CommunityRecord)
        ensures
            final(self).communities@ == old(self).communities@.filter(
                other_membership(record.vtc_did@, record.persona_ref),
            ).push(record),
            *final(self) == (Account { communities: final(self).communities, ..*old(self) }),
    {
        keyed::retain(
            &mut self.communities,
            &NotMembership { vtc: record.vtc_did.as_str(), persona: record.persona_ref },
        );
        self.communities.push(record);
    }

    /// Deletes a membership record that is no longer live.
    pub fn delete_community(&mut self, vtc: &str, persona: PersonaId) -> (r: Result<
        (),
        AccountError,
    >)
        ensures
            r == removable(old(self).communities@, vtc@, persona),
            r is Err ==> *final(self) == *old(self),
            r is Ok ==> final(self).communities@ == old(self).communities@.remove(
                membership_at(old(self).communities@, vtc@, persona)->0,
            ),
            *final(self) == (Account { communities: final(self).communities, ..*old(self) }),
    {
        match self.membership(vtc, persona) {
            None => Err(AccountError::Unknown),
            Some(i) => {
                if self.communities[i].is_live() {
                    Err(AccountError::StillLive)
                } else {
                    let _ = self.communities.remove(i);
                    Ok(())
                }
            },
        }
    }

    /// Hides a membership record that is no longer live; the record stays.
    pub fn archive_community(&mut self, vtc: &str, persona: PersonaId) -> (r: Result<
        (),
        AccountError,
    >)
        ensures
            r == removable(old(self).communities@, vtc@, persona),
            r is Err ==> *final(self) == *old(self),
            r is Ok ==> ({
                let i = membership_at(old(self).communities@, vtc@, persona)->0;
                final(self).communities@ == old(self).communities@.update(
                    i,
                    (CommunityRecord { archived: true, ..old(self).communities@[i] }),
                )
            }),
            *final(self) == (Account { communities: final(self).communities, ..*old(self) }),
    {
        match self.membership(vtc, persona) {
            None => Err(AccountError::Unknown),
            Some(i) => {
                if self.communities[i].is_live() {
                    Err(AccountError::StillLive)
                } else {
                    let ghost before = self.communities@;
                    self.communities[i].archived = true;
                    assert(self.communities@ =~= before.update(
                        i as int,
                        (CommunityRecord { archived: true, ..before[i as int] }),
                    ));
                    Ok(())
                }
            },
        }
    }
}

/// How many seconds a request may go unanswered: seven days.
pub const PENDING_LIFETIME: i64 = 604800;

/// A request that went unanswered for too long.
pub open spec fn is_stale(c: CommunityRecord, now: i64) -> bool {
    &&& c.status is Pending
    &&& c.requested_at matches Some(t) && now - t >= PENDING_LIFETIME
}

/// The membership after a request that went unanswered for too long expired.
pub open spec fn expired(c: CommunityRecord, now: i64) -> CommunityRecord {
    if is_stale(c, now) {
        CommunityRecord { status: CommunityStatus::Expired, attention: true, ..c }
    } else {
        c
    }
}

/// The memberships whose requests went unanswered for too long, in order.
pub open spec fn stale_among(s: Seq<CommunityRecord>, now: i64) -> Seq<(Seq<char>, PersonaId)>
    decreases s.len(),
{
    if s.len() == 0 {
        Seq::empty()
    } else {
        let rest = stale_among(s.drop_last(), now);
        if is_stale(s.last(), now) {
            rest.push((s.last().vtc_did@, s.last().persona_ref))
        } else {
            rest
        }
    }
}

/// Memberships by community and persona.
pub open spec fn memberships_view(s: Seq<(String, PersonaId)>) -> Seq<(Seq<char>, PersonaId)> {
    s.map_values(|m: (String, PersonaId)| (m.0@, m.1))
}

impl Account {
    /// Lets every request expire that went unanswered for too long; tells which.
    pub fn expire_stale_pending(&mut self, now: i64) -> (r: Vec<(String, PersonaId)>)
        ensures
            *final(self) == (Account { communities: final(self).communities, ..*old(self) }),
            final(self).communities@ == old(self).communities@.map_values(
                |c: CommunityRecord| expired(c, now),
            ),
            memberships_view(r@) == stale_among(old(self).communities@, now),
    {
        let ghost all = self.communities@;
        let mut out: Vec<(String, PersonaId)> = Vec::new();
        let mut i: usize = 0;
        assert(memberships_view(out@) =~= stale_among(all.take(0), now));
        while i < self.communities.len()
            invariant
                i <= self.communities@.len(),
                self.communities@.len() == all.len(),
                *self == (Account { communities: self.communities, ..*old(self) }),
                forall|j: int| 0 <= j < i ==> #[trigger] self.communities@[j] == expired(all[j], now),
                forall|j: int| i <= j < all.len() ==> #[trigger] self.communities@[j] == all[j],
                memberships_view(out@) == stale_among(all.take(i as int), now),
            decreases self.communities@.len() - i,
        {
            proof {
                assert(all.take(i + 1).drop_last() =~= all.take(i as int));
                assert(all.take(i + 1).last() == all[i as int]);
            }
            let asked: Option<i64> = match &self.communities[i].status {
                CommunityStatus::Pending { .. } => self.communities[i].requested_at,
                _ => None,
            };
            let stale = match asked {
                Some(t) => now as i128 - t as i128 >= PENDING_LIFETIME as i128,
                None => false,
            };
            if stale {
                let ghost before = out@;
                let vtc = self.communities[i].vtc_did.clone();
                let persona: PersonaId = self.communities[i].persona_ref;
                out.push((vtc, persona));
                assert(memberships_view(out@) =~= memberships_view(before).push((vtc@, persona)));
                self.communities[i].expire();
            }
            i = i + 1;
        }
        proof {
            assert(all.take(i as int) =~= all);
            assert(self.communities@ =~= all.map_values(|c: CommunityRecord| expired(c, now)));
        }
        out
    }

    /// The position of the first membership in force in this community.
    pub fn active_in(&self, vtc: &str) -> (r: Option<usize>)
        ensures
            match r {
                Some(i) => active_at(self.communities@, vtc@) == Some(i as int) && i
                    < self.communities@.len() && self.communities@[i as int].vtc_did@ == vtc@
                    && self.communities@[i as int].status is Active,
                None => active_at(self.communities@, vtc@) is None,
            },
    {
        let mut i: usize = 0;
        assert(self.communities@.skip(0) =~= self.communities@);
        while i < self.communities.len()
            invariant
                i <= self.communities@.len(),
                active_at(self.communities@, vtc@) == (match active_at(
                    self.communities@.skip(i as int),
                    vtc@,
                ) {
                    Some(k) => Some(k + i),
                    None => None,
                }),
            decreases self.communities@.len() - i,
        {
            proof {
                assert(self.communities@.skip(i as int)[0] == self.communities@[i as int]);
                assert(self.communities@.skip(i as int).skip(1) =~= self.communities@.skip(i + 1));
            }
            if self.communities[i].status.is_active() && same(
                self.communities[i].vtc_did.as_str(),
                vtc,
            ) {
                return Some(i);
            }
            i = i + 1;
        }
        None
    }
}

/// The position of the first membership in force in this community.
pub open spec fn active_at(s: Seq<CommunityRecord>, vtc: Seq<char>) -> Option<int>
    decreases s.len(),
{
    if s.len() == 0 {
        None
    } else if s[0].vtc_did@ == vtc && s[0].status is Active {
        Some(0)
    } else {
        match active_at(s.skip(1), vtc) {
            Some(i) => Some(i + 1),
            None => None,
        }
    }
}

/// No request outlives its time: after the sweep none is stale, and no membership
/// that was answered is touched.
pub proof fn law_sweep_is_complete(s: Seq<CommunityRecord>, now: i64, i: int)
    requires
        0 <= i < s.len(),
    ensures
        !is_stale(s.map_values(|c: CommunityRecord| expired(c, now))[i], now),
        s[i].status !is Pending ==> s.map_values(|c: CommunityRecord| expired(c, now))[i] == s[i],
{
}

/// Another membership than that of `persona` in `vtc`.
pub open spec fn other_membership(vtc: Seq<char>, persona: PersonaId) -> spec_fn(
    CommunityRecord,
) -> bool {
    |c: CommunityRecord| !c.is_membership(vtc, persona)
}

/// Passes other memberships.
pub struct NotMembership<'a> {
    pub vtc: &'a str,
    pub persona: PersonaId,
}

impl<'a> Filter<CommunityRecord> for NotMembership<'a> {
    open spec fn keeps(&self) -> spec_fn(CommunityRecord) -> bool {
        other_membership(self.vtc@, self.persona)
    }

    fn test(&self, c: &CommunityRecord) -> bool {
        !(c.persona_ref == self.persona && same(c.vtc_did.as_str(), self.vtc))
    }
}

/// Whether a membership record may be put away: it exists and is not live.
pub open spec fn removable(s: Seq<CommunityRecord>, vtc: Seq<char>, persona: PersonaId) -> Result<
    (),
    AccountError,
> {
    match membership_at(s, vtc, persona) {
        None => Err(AccountError::Unknown),
        Some(i) => if s[i].live() {
            Err(AccountError::StillLive)
        } else {
            Ok(())
        },
    }
}

/// The position of the membership at a row of the displayed list.
pub open spec fn row_position(s: Seq<CommunityRecord>, archived: bool, row: int) -> Option<usize> {
    if 0 <= row < display_order(s, archived).len() {
        Some(display_order(s, archived)[row] as usize)
    } else {
        None
    }
}

/// The first of these positions that holds a membership in force.
pub open spec fn active_among(s: Seq<CommunityRecord>, order: Seq<int>) -> Option<int>
    decreases order.len(),
{
    if order.len() == 0 {
        None
    } else if s[order[0]].status is Active {
        Some(order[0])
    } else {
        active_among(s, order.skip(1))
    }
}

/// The position of the first membership in force, in display order.
pub open spec fn first_active(s: Seq<CommunityRecord>) -> Option<int> {
    active_among(s, display_order(s, false))
}

/// No persona is a member of a community twice.
pub open spec fn distinct_memberships(s: Seq<CommunityRecord>) -> bool {
    forall|i: int, j: int|
        0 <= i < j < s.len() ==> !((#[trigger] s[i]).vtc_did@ == (#[trigger] s[j]).vtc_did@
            && s[i].persona_ref == s[j].persona_ref)
}

/// With distinct memberships, each is found by its community and persona.
pub proof fn lemma_membership_unique(s: Seq<CommunityRecord>, i: int)
    requires
        distinct_memberships(s),
        0 <= i < s.len(),
    ensures
        membership_at(s, s[i].vtc_did@, s[i].persona_ref) == Some(i),
{
    assert forall|j: int| 0 <= j < i implies !(#[trigger] s[j]).is_membership(
        s[i].vtc_did@,
        s[i].persona_ref,
    ) by {}
    lemma_membership_at(s, s[i].vtc_did@, s[i].persona_ref, i);
}

/// The default membership is one in force.
pub proof fn lemma_first_active(s: Seq<CommunityRecord>)
    ensures
        first_active(s) matches Some(i) ==> 0 <= i < s.len() && s[i].status is Active,
{
    law_display_order(s, false);
    lemma_active_among(s, display_order(s, false));
}

proof fn lemma_active_among(s: Seq<CommunityRecord>, order: Seq<int>)
    requires
        forall|k: int| 0 <= k < order.len() ==> 0 <= (#[trigger] order[k]) < s.len(),
    ensures
        active_among(s, order) matches Some(i) ==> 0 <= i < s.len() && s[i].status is Active,
    decreases order.len(),
{
    if order.len() > 0 && !(s[order[0]].status is Active) {
        assert forall|k: int| 0 <= k < order.skip(1).len() implies 0 <= (#[trigger] order.skip(
            1,
        )[k]) < s.len() by {
            assert(order.skip(1)[k] == order[k + 1]);
        }
        lemma_active_among(s, order.skip(1));
    }
}

/// Storing a membership keeps memberships distinct.
pub proof fn law_memberships_stay_distinct(s: Seq<CommunityRecord>, record: CommunityRecord)
    requires
        distinct_memberships(s),
    ensures
        distinct_memberships(
            s.filter(other_membership(record.vtc_did@, record.persona_ref)).push(record),
        ),
    decreases s.len(),
{
    let keep = other_membership(record.vtc_did@, record.persona_ref);
    lemma_filter_distinct(s, keep);
    let kept = s.filter(keep);
    let all = kept.push(record);
    broadcast use vstd::seq_lib::group_filter_ensures;

    assert forall|i: int, j: int| 0 <= i < j < all.len() implies !((#[trigger] all[i]).vtc_did@ == (
    #[trigger] all[j]).vtc_did@ && all[i].persona_ref == all[j].persona_ref) by {
        if j == kept.len() {
            assert(all[i] == kept[i]);
            assert(keep(kept[i]));
        } else {
            assert(all[i] == kept[i] && all[j] == kept[j]);
        }
    }
}

proof fn lemma_filter_distinct(s: Seq<CommunityRecord>, keep: spec_fn(CommunityRecord) -> bool)
    requires
        distinct_memberships(s),
    ensures
        distinct_memberships(s.filter(keep)),
    decreases s.len(),
{
    reveal(Seq::filter);
    if s.len() > 0 {
        let t = s.drop_last();
        assert(distinct_memberships(t));
        lemma_filter_distinct(t, keep);
        if keep(s.last()) {
            let all = s.filter(keep);
            let kept = t.filter(keep);
            broadcast use vstd::seq_lib::group_filter_ensures;

            assert(all == kept.push(s.last()));
            assert forall|i: int, j: int| 0 <= i < j < all.len() implies !((
            #[trigger] all[i]).vtc_did@ == (#[trigger] all[j]).vtc_did@ && all[i].persona_ref
                == all[j].persona_ref) by {
                if j == kept.len() {
                    assert(all[i] == kept[i]);
                    t.lemma_filter_contains_rev(keep, kept[i]);
                    assert(t.contains(kept[i]));
                    let k = choose|k: int| 0 <= k < t.len() && t[k] == kept[i];
                    assert(s[k] == kept[i] && s[s.len() - 1] == all[j]);
                } else {
                    assert(all[i] == kept[i] && all[j] == kept[j]);
                }
            }
        }
    }
}

proof fn lemma_picked_complete(
    s: Seq<CommunityRecord>,
    n: int,
    starred: bool,
    archived: bool,
    i: int,
)
    requires
        0 <= i < n <= s.len(),
        s[i].favourite == starred,
        archived || !s[i].archived,
    ensures
        picked(s, n, starred, archived).contains(i),
    decreases n,
{
    if i < n - 1 {
        lemma_picked_complete(s, n - 1, starred, archived, i);
        let p = picked(s, n - 1, starred, archived);
        let k = choose|k: int| 0 <= k < p.len() && p[k] == i;
        assert(picked(s, n, starred, archived)[k] == i);
    } else {
        let p = picked(s, n, starred, archived);
        assert(p[p.len() - 1] == i);
    }
}

/// Every membership is shown, an archived one where the archived ones are: it has
/// a row.
pub proof fn law_every_membership_has_a_row(
    account: &Account,
    archived: bool,
    r: Vec<usize>,
    i: int,
)
    requires
        call_ensures(Account::communities_for_display, (account, archived), r),
        0 <= i < account.communities@.len(),
        archived || !account.communities@[i].archived,
    ensures
        exists|k: int| 0 <= k < r@.len() && #[trigger] r@[k] == i,
{
    let s = account.communities@;
    let a = picked(s, s.len() as int, true, archived);
    let b = picked(s, s.len() as int, false, archived);
    lemma_picked_complete(s, s.len() as int, s[i].favourite, archived, i);
    let k = if s[i].favourite {
        choose|k: int| 0 <= k < a.len() && a[k] == i
    } else {
        a.len() + choose|k: int| 0 <= k < b.len() && b[k] == i
    };
    assert(display_order(s, archived)[k] == i);
    assert(positions(r@).len() == r@.len());
    assert(positions(r@)[k] == i);
    assert(r@[k] == i);
}

/// A membership is deleted only where it is no longer live, and then that one is
/// gone and every other one stays.
pub proof fn law_only_ended_memberships_are_deleted(
    account: &mut Account,
    vtc: &str,
    persona: PersonaId,
    r: Result<(), AccountError>,
    i: int,
)
    requires
        call_ensures(Account::delete_community, (account, vtc, persona), r),
        membership_at(old(account).communities@, vtc@, persona) == Some(i),
    ensures
        0 <= i < old(account).communities@.len(),
        old(account).communities@[i].status is Active || old(account).communities@[i].status
            is Pending ==> r is Err && *final(account) == *old(account),
        old(account).communities@[i].status !is Active && old(account).communities@[i].status
            !is Pending ==> r is Ok && final(account).communities@.len() == old(account).communities@.len() - 1,
        forall|j: int|
            0 <= j < old(account).communities@.len() && j != i ==> final(account).communities@.contains(#[trigger] old(account).communities@[j]),
        final(account).personas == old(account).personas,
{
    lemma_membership_found(old(account).communities@, vtc@, persona);
    let s = old(account).communities@;
    assert forall|j: int| 0 <= j < s.len() && j != i implies final(account).communities@.contains(
        #[trigger] s[j],
    ) by {
        if r is Ok {
            let k = if j < i {
                j
            } else {
                j - 1
            };
            assert(final(account).communities@[k] == s[j]);
        } else {
            assert(final(account).communities@[j] == s[j]);
        }
    }
}

/// A request that went unanswered for seven days expires and asks for attention;
/// one that is younger, and a membership that was answered, stays as it is.
pub proof fn law_unanswered_requests_expire(
    account: &mut Account,
    now: i64,
    r: Vec<(String, PersonaId)>,
    i: int,
)
    requires
        call_ensures(Account::expire_stale_pending, (account, now), r),
        0 <= i < old(account).communities@.len(),
    ensures
        final(account).communities@.len() == old(account).communities@.len(),
        old(account).communities@[i].status is Pending && (old(account).communities@[i].requested_at matches Some(t) && now - t >= 604800) ==> final(account).communities@[i].status is Expired && final(account).communities@[i].attention && !final(account).communities@[i].live(),
        !(old(account).communities@[i].status is Pending && (old(account).communities@[i].requested_at matches Some(t) && now - t >= 604800)) ==> final(account).communities@[i] == old(account).communities@[i],
        final(account).communities@[i].vtc_did == old(account).communities@[i].vtc_did,
        final(account).communities@[i].persona_ref == old(account).communities@[i].persona_ref,
{
}

/// The steps of a membership: it is live while requested and while in force, and
/// no longer once it was left, withdrawn or expired. None of them touches who is
/// a member of what.
pub proof fn law_membership_steps(
    a: &mut CommunityRecord,
    now: i64,
    b: &mut CommunityRecord,
    c: &mut CommunityRecord,
    withdrawn: bool,
    d: &mut CommunityRecord,
)
    requires
        call_ensures(CommunityRecord::activate, (a, now), ()),
        call_ensures(CommunityRecord::leave, (b,), ()),
        call_ensures(CommunityRecord::withdraw, (c,), withdrawn),
        call_ensures(CommunityRecord::expire, (d,), ()),
    ensures
        final(a).status is Active && final(a).member_since == Some(now) && final(a).live(),
        final(b).status is Left && !final(b).live(),
        withdrawn <==> old(c).status is Pending,
        withdrawn ==> final(c).status is Withdrawn && !final(c).live(),
        !withdrawn ==> *final(c) == *old(c),
        final(d).status is Expired && final(d).attention && !final(d).live(),
        final(a).vtc_did == old(a).vtc_did && final(a).persona_ref == old(a).persona_ref,
        final(b).vtc_did == old(b).vtc_did && final(b).persona_ref == old(b).persona_ref,
        final(c).vtc_did == old(c).vtc_did && final(c).persona_ref == old(c).persona_ref,
        final(d).vtc_did == old(d).vtc_did && final(d).persona_ref == old(d).persona_ref,
{
}

/// The working membership to start from is one in force, and there is one
/// wherever a membership that is not archived is in force.
pub proof fn law_work_starts_in_a_membership_in_force(
    account: &Account,
    r: Option<(String, PersonaId)>,
)
    requires
        call_ensures(Account::default_working_membership, (account,), r),
    ensures
        r matches Some(m) ==> exists|i: int|
            0 <= i < account.communities@.len() && (#[trigger] account.communities@[i]).vtc_did@
                == m.0@ && account.communities@[i].persona_ref == m.1
                && account.communities@[i].status is Active,
{
    lemma_first_active(account.communities@);
    if let Some(i) = first_active(account.communities@) {
        assert(account.communities@[i].status is Active);
    }
}

/// What the account says of its memberships is what they are: one is live where it
/// is in force or asked for, and a persona is bound by every membership that
/// presents it.
pub proof fn law_account_tells_what_it_holds(
    a: Account,
    vtc: &str,
    persona: PersonaId,
    live: bool,
    any: bool,
    active: bool,
    used: bool,
    bound: usize,
    i: int,
)
    requires
        call_ensures(Account::live_community, (&a, vtc), live),
        call_ensures(Account::has_live, (&a,), any),
        call_ensures(Account::has_active, (&a,), active),
        call_ensures(Account::persona_is_live, (&a, persona), used),
        call_ensures(Account::bound_communities, (&a, persona), bound),
        0 <= i < a.communities@.len(),
    ensures
        a.communities@[i].status is Active || a.communities@[i].status is Pending ==> any,
        a.communities@[i].status is Active ==> active,
        a.communities@[i].vtc_did@ == vtc@ && (a.communities@[i].status is Active
            || a.communities@[i].status is Pending) ==> live,
        a.communities@[i].persona_ref == persona && (a.communities@[i].status is Active
            || a.communities@[i].status is Pending) ==> used,
        a.communities@[i].persona_ref == persona ==> bound > 0,
        live ==> exists|j: int|
            0 <= j < a.communities@.len() && (#[trigger] a.communities@[j]).vtc_did@ == vtc@ && (
            a.communities@[j].status is Active || a.communities@[j].status is Pending),
        used ==> bound > 0,
{
    lemma_bound_count(a.communities@, persona);
    if a.communities@[i].persona_ref == persona {
        assert(a.communities@[i].holder() == persona);
    }
    if used {
        let j = choose|j: int|
            0 <= j < a.communities@.len() && (#[trigger] a.communities@[j]).persona_ref == persona
                && a.communities@[j].live();
        assert(a.communities@[j].holder() == persona);
    }
}

/// A membership that is added is the last one and takes the place of any that its
/// persona had in that community; every other membership is kept.
pub proof fn law_added_membership_replaces_its_own(
    a: &mut Account,
    record: CommunityRecord,
    other: CommunityRecord,
)
    requires
        call_ensures(Account::add_membership, (a, record), ()),
    ensures
        final(a).communities@.len() > 0,
        final(a).communities@.last() == record,
        final(a).personas == old(a).personas,
        old(a).communities@.contains(other) && (other.vtc_did@ != record.vtc_did@
            || other.persona_ref != record.persona_ref) ==> final(a).communities@.contains(other),
        final(a).communities@.contains(other) && other.vtc_did@ == record.vtc_did@
            && other.persona_ref == record.persona_ref ==> other == record,
{
    let keep = other_membership(record.vtc_did@, record.persona_ref);
    let was = old(a).communities@;
    let kept = was.filter(keep);
    let is = final(a).communities@;
    broadcast use vstd::seq_lib::group_filter_ensures;

    if was.contains(other) && (other.vtc_did@ != record.vtc_did@ || other.persona_ref
        != record.persona_ref) {
        assert(keep(other));
        let at = choose|at: int| 0 <= at < was.len() && was[at] == other;
        was.lemma_filter_contains(keep, at);
        let k = choose|k: int| 0 <= k < kept.len() && kept[k] == other;
        assert(is[k] == other);
    }
    if is.contains(other) && other != record {
        let k = choose|k: int| 0 <= k < is.len() && is[k] == other;
        assert(kept[k] == other);
        assert(keep(kept[k]));
    }
}

/// A membership that is asked for waits for its answer, under the id of the
/// request and from this moment on; it has no credential and no beginning yet.
pub proof fn law_asked_membership_is_pending(
    vtc_did: String,
    display_name: Option<String>,
    sub_context_id: String,
    persona: PersonaId,
    request_id: String,
    now: i64,
    r: CommunityRecord,
)
    requires
        call_ensures(
            CommunityRecord::new_pending,
            (vtc_did, display_name, sub_context_id, persona, request_id, now),
            r,
        ),
    ensures
        r.status == (CommunityStatus::Pending { request_id }),
        r.vtc_did == vtc_did,
        r.display_name == display_name,
        r.sub_context_id == sub_context_id,
        r.persona_ref == persona,
        r.requested_at == Some(now),
        r.member_since is None,
        r.membership_credential is None && r.role_credential is None,
        !r.favourite && !r.archived && !r.attention,
{
}

/// A persona is found by its DID, and by no other.
pub proof fn law_persona_is_found_by_its_did(a: Account, did: &str, r: Option<PersonaId>, i: int)
    requires
        call_ensures(Account::persona_id_for_did, (&a, did), r),
        0 <= i < a.personas@.len(),
        a.personas@[i].did@ == did@,
        forall|j: int| 0 <= j < i ==> (#[trigger] a.personas@[j]).did@ != did@,
    ensures
        r == Some(a.personas@[i].persona_id),
{
    lemma_first_with_did(a.personas@, did@, i);
}

proof fn lemma_first_with_did(s: Seq<PersonaRecord>, did: Seq<char>, i: int)
    requires
        0 <= i < s.len(),
        s[i].did@ == did,
        forall|j: int| 0 <= j < i ==> (#[trigger] s[j]).did@ != did,
    ensures
        persona_with_did(s, did) == Some(s[i]),
    decreases i,
{
    if i > 0 {
        assert(s[0].did@ != did);
        let t = s.skip(1);
        assert(t[i - 1] == s[i]);
        assert forall|j: int| 0 <= j < i - 1 implies (#[trigger] t[j]).did@ != did by {
            assert(t[j] == s[j + 1]);
        }
        lemma_first_with_did(t, did, i - 1);
    }
}

/// Marking a membership as a favourite and unmarking it comes back to what it was;
/// acknowledging one leaves nothing to see to, and both change nothing else.
pub proof fn law_marks_are_marks_only(
    once: &mut CommunityRecord,
    twice: &mut CommunityRecord,
    seen: &mut CommunityRecord,
)
    requires
        call_ensures(CommunityRecord::toggle_favourite, (once,), ()),
        *old(twice) == *final(once),
        call_ensures(CommunityRecord::toggle_favourite, (twice,), ()),
        call_ensures(CommunityRecord::acknowledge, (seen,), ()),
    ensures
        final(once).favourite != old(once).favourite,
        *final(twice) == *old(once),
        !final(seen).attention,
        final(seen).status == old(seen).status && final(seen).vtc_did == old(seen).vtc_did
            && final(seen).persona_ref == old(seen).persona_ref,
{
}

} // verus!
