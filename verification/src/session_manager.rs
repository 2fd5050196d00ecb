//! Registry of the live sessions: one for each persona, shared by the
//! communities that it is presented to.

use crate::ledger::PersonaId;
use crate::text::{owned, same, texts_view};
use vstd::prelude::*;

verus! {

/// How many sessions may be live at once, unless told otherwise.
pub const DEFAULT_MAX_SESSIONS: usize = 32;

/// State of a session's connection.
#[derive(Clone, Debug)]
pub enum SessionStatus {
    Connecting,
    Connected,
    Failed(String),
    Disconnected,
}

/// What a status says.
pub enum SessionStatusView {
    Connecting,
    Connected,
    Failed(Seq<char>),
    Disconnected,
}

impl View for SessionStatus {
    type V = SessionStatusView;

    open spec fn view(&self) -> SessionStatusView {
        match *self {
            SessionStatus::Connecting => SessionStatusView::Connecting,
            SessionStatus::Connected => SessionStatusView::Connected,
            SessionStatus::Failed(s) => SessionStatusView::Failed(s@),
            SessionStatus::Disconnected => SessionStatusView::Disconnected,
        }
    }
}

impl Default for SessionStatus {
    fn default() -> (r: Self)
        ensures
            r is Connecting,
    {
        SessionStatus::Connecting
    }
}

impl SessionStatus {
    /// Whether the session is live.
    pub fn is_connected(&self) -> (r: bool)
        ensures
            r == (self is Connected),
    {
        match self {
            SessionStatus::Connected => true,
            _ => false,
        }
    }

    fn matches(&self, other: &SessionStatus) -> (r: bool)
        ensures
            r == (self@ == other@),
    {
        match (self, other) {
            (SessionStatus::Connecting, SessionStatus::Connecting) => true,
            (SessionStatus::Connected, SessionStatus::Connected) => true,
            (SessionStatus::Failed(a), SessionStatus::Failed(b)) => same(a.as_str(), b.as_str()),
            (SessionStatus::Disconnected, SessionStatus::Disconnected) => true,
            _ => false,
        }
    }
}

/// A session.
#[derive(Clone, Debug)]
pub struct Session {
    /// The listener that it runs on.
    pub listener_id: String,
    /// The communities that it serves, each once.
    pub communities: Vec<String>,
    pub status: SessionStatus,
}

/// What is known of a session.
pub struct SessionView {
    pub listener_id: Seq<char>,
    pub communities: Set<Seq<char>>,
    pub status: SessionStatusView,
}

impl View for Session {
    type V = SessionView;

    open spec fn view(&self) -> SessionView {
        SessionView {
            listener_id: self.listener_id@,
            communities: texts_view(self.communities@).to_set(),
            status: self.status@,
        }
    }
}

impl Session {
    /// It serves some community, and none is listed twice.
    pub open spec fn wf(self) -> bool {
        &&& self.communities@.len() > 0
        &&& texts_view(self.communities@).no_duplicates()
    }
}

/// A session under its persona.
#[derive(Clone, Debug)]
pub struct SessionEntry {
    pub persona: PersonaId,
    pub session: Session,
}

/// What became of a registration.
#[derive(Clone, Copy, Debug, PartialEq, Eq, Structural)]
pub enum RegisterOutcome {
    /// There is a new session, which needs a listener.
    Created,
    /// The persona's session serves the community too.
    JoinedExisting,
    /// There is no room for another session.
    AtCapacity,
}

/// The registry.
#[derive(Clone, Debug)]
pub struct SessionManager {
    pub sessions: Vec<SessionEntry>,
    pub max_sessions: usize,
}

/// This persona has a session.
pub open spec fn served(s: Seq<SessionEntry>, persona: PersonaId) -> bool {
    exists|i: int| 0 <= i < s.len() && (#[trigger] s[i]).persona == persona
}

/// The session of this persona.
pub open spec fn session_of(s: Seq<SessionEntry>, persona: PersonaId) -> SessionView {
    s[choose|i: int| 0 <= i < s.len() && (#[trigger] s[i]).persona == persona].session@
}

impl View for SessionManager {
    type V = Map<PersonaId, SessionView>;

    open spec fn view(&self) -> Map<PersonaId, SessionView> {
        Map::new(
            |p: PersonaId| served(self.sessions@, p),
            |p: PersonaId| session_of(self.sessions@, p),
        )
    }
}

/// No persona has two sessions.
pub open spec fn distinct_personas(s: Seq<SessionEntry>) -> bool {
    forall|i: int, j: int|
        0 <= i < j < s.len() ==> (#[trigger] s[i]).persona != (#[trigger] s[j]).persona
}

proof fn lemma_session_at(s: Seq<SessionEntry>, i: int)
    requires
        distinct_personas(s),
        0 <= i < s.len(),
    ensures
        served(s, s[i].persona),
        session_of(s, s[i].persona) == s[i].session@,
{
    let p = s[i].persona;
    let k = choose|k: int| 0 <= k < s.len() && (#[trigger] s[k]).persona == p;
    assert(0 <= k < s.len() && s[k].persona == p);
    if k != i {
        if k < i {
            assert(s[k].persona != s[i].persona);
        } else {
            assert(s[i].persona != s[k].persona);
        }
    }
}

/// What registering a community comes to: a persona that has a session shares
/// it; otherwise there is a new one, while there is room.
pub open spec fn registered(
    old: SessionManager,
    new: SessionManager,
    persona: PersonaId,
    listener_id: Seq<char>,
    vtc: Seq<char>,
    r: RegisterOutcome,
) -> bool {
    &&& new.max_sessions == old.max_sessions
    &&& r == (if old@.contains_key(persona) {
        RegisterOutcome::JoinedExisting
    } else if old.sessions@.len() >= old.max_sessions {
        RegisterOutcome::AtCapacity
    } else {
        RegisterOutcome::Created
    })
    &&& match r {
        RegisterOutcome::JoinedExisting => {
            &&& new@ == old@.insert(
                persona,
                SessionView {
                    communities: old@[persona].communities.insert(vtc),
                    ..old@[persona]
                },
            )
            &&& new.sessions@.len() == old.sessions@.len()
        },
        RegisterOutcome::AtCapacity => new == old,
        RegisterOutcome::Created => {
            &&& new@ == old@.insert(
                persona,
                SessionView {
                    listener_id,
                    communities: set![vtc],
                    status: SessionStatusView::Connecting,
                },
            )
            &&& new.sessions@.len() == old.sessions@.len() + 1
        },
    }
}

/// What taking a community off a session comes to: a session that serves no
/// other community ends, and is returned.
pub open spec fn deregistered(
    old: SessionManager,
    new: SessionManager,
    persona: PersonaId,
    vtc: Seq<char>,
    r: Option<Session>,
) -> bool {
    &&& new.max_sessions == old.max_sessions
    &&& if !old@.contains_key(persona) {
        r is None && new == old
    } else {
        let session = old@[persona];
        let left = session.communities.remove(vtc);
        if left == Set::<Seq<char>>::empty() {
            &&& r is Some
            &&& r->0@ == (SessionView { communities: left, ..session })
            &&& new@ == old@.remove(persona)
            &&& new.sessions@.len() == old.sessions@.len() - 1
        } else {
            &&& r is None
            &&& new@ == old@.insert(persona, SessionView { communities: left, ..session })
            &&& new.sessions@.len() == old.sessions@.len()
        }
    }
}

impl SessionManager {
    /// One session for a persona at most, each serving some community, and no
    /// more than the bound.
    pub open spec fn wf(self) -> bool {
        &&& distinct_personas(self.sessions@)
        &&& forall|i: int| 0 <= i < self.sessions@.len() ==> (#[trigger] self.sessions@[i]).session.wf()
        &&& self.sessions@.len() <= self.max_sessions
        &&& self.max_sessions >= 1
    }

    /// Some session is live.
    pub open spec fn some_connected(self) -> bool {
        exists|p: PersonaId| #[trigger]
            self@.contains_key(p) && self@[p].status == SessionStatusView::Connected
    }

    /// A registry for at most so many sessions, and for one in any case.
    pub fn new(max_sessions: usize) -> (r: SessionManager)
        ensures
            r.wf(),
            r@ == Map::<PersonaId, SessionView>::empty(),
            r.sessions@.len() == 0,
            r.max_sessions == (if max_sessions == 0 {
                1
            } else {
                max_sessions
            }),
    {
        let bound: usize = if max_sessions == 0 {
            1
        } else {
            max_sessions
        };
        let r = SessionManager { sessions: Vec::new(), max_sessions: bound };
        assert(r@ =~= Map::<PersonaId, SessionView>::empty());
        r
    }

    fn position(&self, persona: PersonaId) -> (r: Option<usize>)
        requires
            self.wf(),
        ensures
            match r {
                Some(i) => i < self.sessions@.len() && self.sessions@[i as int].persona == persona
                    && self@.contains_key(persona) && self@[persona]
                    == self.sessions@[i as int].session@,
                None => !self@.contains_key(persona),
            },
    {
        let mut i: usize = 0;
        while i < self.sessions.len()
            invariant
                self.wf(),
                i <= self.sessions@.len(),
                forall|j: int| 0 <= j < i ==> (#[trigger] self.sessions@[j]).persona != persona,
            decreases self.sessions@.len() - i,
        {
            if self.sessions[i].persona == persona {
                proof {
                    lemma_session_at(self.sessions@, i as int);
                }
                return Some(i);
            }
            i = i + 1;
        }
        None
    }

    /// Registers that a community needs the session of a persona. A persona
    /// that has a session shares it; otherwise there is a new one, while there
    /// is room.
    pub fn register(&mut self, persona: PersonaId, listener_id: &str, vtc: String) -> (r:
        RegisterOutcome)
        requires
            old(self).wf(),
        ensures
            final(self).wf(),
            registered(*old(self), *final(self), persona, listener_id@, vtc@, r),
    {
        let ghost before = self.sessions@;
        if let Some(i) = self.position(persona) {
            attach(&mut self.sessions[i].session.communities, vtc);
            proof {
                let s = self.sessions@;
                assert forall|j: int, k: int| 0 <= j < k < s.len() implies (#[trigger] s[j]).persona
                    != (#[trigger] s[k]).persona by {
                    assert(before[j].persona != before[k].persona);
                }
                assert forall|j: int| 0 <= j < s.len() implies (#[trigger] s[j]).session.wf() by {
                    assert(before[j].session.wf());
                }
                lemma_updated(before, s, i as int);
                assert(before[i as int].session.wf());
            }
            return RegisterOutcome::JoinedExisting;
        }
        if self.sessions.len() >= self.max_sessions {
            return RegisterOutcome::AtCapacity;
        }
        let mut communities: Vec<String> = Vec::new();
        communities.push(vtc);
        let session = Session {
            listener_id: owned(listener_id),
            communities,
            status: SessionStatus::Connecting,
        };
        proof {
            assert(texts_view(session.communities@) =~= seq![vtc@]);
            assert(seq![vtc@].to_set() =~= set![vtc@]) by {
                assert(seq![vtc@][0] == vtc@);
            }
        }
        self.sessions.push(SessionEntry { persona, session });
        proof {
            let s = self.sessions@;
            assert forall|j: int, k: int| 0 <= j < k < s.len() implies (#[trigger] s[j]).persona
                != (#[trigger] s[k]).persona by {
                assert(s[j] == before[j]);
                if k < before.len() {
                    assert(s[k] == before[k]);
                } else {
                    assert(served(before, s[j].persona));
                    assert(!old(self)@.contains_key(persona));
                }
            }
            assert forall|j: int| 0 <= j < s.len() implies (#[trigger] s[j]).session.wf() by {
                if j < before.len() {
                    assert(before[j].session.wf());
                }
            }
            lemma_pushed(before, s);
        }
        RegisterOutcome::Created
    }

    /// Takes a community off the session of a persona. A session that serves no
    /// other community ends, and is returned.
    pub fn deregister(&mut self, persona: PersonaId, vtc: &str) -> (r: Option<Session>)
        requires
            old(self).wf(),
        ensures
            final(self).wf(),
            deregistered(*old(self), *final(self), persona, vtc@, r),
    {
        let ghost before = self.sessions@;
        match self.position(persona) {
            None => None,
            Some(i) => {
                assert(before[i as int].session.wf());
                detach(&mut self.sessions[i].session.communities, vtc);
                let ghost mid = self.sessions@;
                proof {
                    assert forall|j: int, k: int| 0 <= j < k < mid.len() implies (
                    #[trigger] mid[j]).persona != (#[trigger] mid[k]).persona by {
                        assert(before[j].persona != before[k].persona);
                    }
                    lemma_updated(before, mid, i as int);
                }
                if self.sessions[i].session.communities.len() == 0 {
                    let entry = self.sessions.remove(i);
                    proof {
                        let s = self.sessions@;
                        assert(texts_view(mid[i as int].session.communities@).to_set()
                            =~= Set::<Seq<char>>::empty());
                        assert forall|j: int, k: int| 0 <= j < k < s.len() implies (
                        #[trigger] s[j]).persona != (#[trigger] s[k]).persona by {
                            let a = if j < i { j } else { j + 1 };
                            let b = if k < i { k } else { k + 1 };
                            assert(mid[a].persona != mid[b].persona);
                        }
                        assert forall|j: int| 0 <= j < s.len() implies (
                        #[trigger] s[j]).session.wf() by {
                            let a = if j < i { j } else { j + 1 };
                            assert(s[j] == mid[a] && mid[a] == before[a]);
                            assert(before[a].session.wf());
                        }
                        lemma_removed(mid, i as int);
                        assert(old(self)@.remove(persona) =~= self@);
                    }
                    Some(entry.session)
                } else {
                    proof {
                        let left = texts_view(mid[i as int].session.communities@);
                        assert(left.to_set().contains(left[0]));
                        assert forall|j: int| 0 <= j < mid.len() implies (
                        #[trigger] mid[j]).session.wf() by {
                            assert(before[j].session.wf());
                        }
                    }
                    None
                }
            },
        }
    }

    /// Notes that the session on this listener is live. Returns whether that is
    /// news.
    pub fn mark_connected(&mut self, listener_id: &str) -> (r: bool)
        requires
            old(self).wf(),
        ensures
            final(self).wf(),
            old(self).restated(*final(self), listener_id@, SessionStatusView::Connected, r),
    {
        self.set_status(listener_id, SessionStatus::Connected)
    }

    /// Notes that the session on this listener has ended.
    pub fn mark_disconnected(&mut self, listener_id: &str) -> (r: bool)
        requires
            old(self).wf(),
        ensures
            final(self).wf(),
            old(self).restated(*final(self), listener_id@, SessionStatusView::Disconnected, r),
    {
        self.set_status(listener_id, SessionStatus::Disconnected)
    }

    /// Notes that the session on this listener has failed.
    pub fn mark_failed(&mut self, listener_id: &str, reason: String) -> (r: bool)
        requires
            old(self).wf(),
        ensures
            final(self).wf(),
            old(self).restated(*final(self), listener_id@, SessionStatusView::Failed(reason@), r),
    {
        self.set_status(listener_id, SessionStatus::Failed(reason))
    }

    /// This persona has a session, and it runs on this listener.
    pub open spec fn runs_on(self, persona: PersonaId, listener_id: Seq<char>) -> bool {
        self@.contains_key(persona) && self@[persona].listener_id == listener_id
    }

    /// `new` is this registry after the session of a persona took on a status;
    /// `changed` says whether that is another one. Nothing else changes.
    pub open spec fn took_on(
        self,
        new: SessionManager,
        persona: PersonaId,
        status: SessionStatusView,
        changed: bool,
    ) -> bool {
        &&& changed == (self@[persona].status != status)
        &&& if changed {
            &&& new@ == self@.insert(persona, SessionView { status, ..self@[persona] })
            &&& new.sessions@.len() == self.sessions@.len()
            &&& new.max_sessions == self.max_sessions
        } else {
            new == self
        }
    }

    /// `new` is this registry after the session on this listener, if there is
    /// one, took on a status.
    pub open spec fn restated(
        self,
        new: SessionManager,
        listener_id: Seq<char>,
        status: SessionStatusView,
        changed: bool,
    ) -> bool {
        if exists|p: PersonaId| #[trigger] self.runs_on(p, listener_id) {
            exists|p: PersonaId| #[trigger]
                self.runs_on(p, listener_id) && self.took_on(new, p, status, changed)
        } else {
            !changed && new == self
        }
    }

    fn set_status(&mut self, listener_id: &str, status: SessionStatus) -> (r: bool)
        requires
            old(self).wf(),
        ensures
            final(self).wf(),
            old(self).restated(*final(self), listener_id@, status@, r),
    {
        let mut i: usize = 0;
        while i < self.sessions.len()
            invariant
                *self == *old(self),
                self.wf(),
                i <= self.sessions@.len(),
                forall|j: int|
                    0 <= j < i ==> (#[trigger] self.sessions@[j]).session.listener_id@
                        != listener_id@,
            decreases self.sessions@.len() - i,
        {
            if same(self.sessions[i].session.listener_id.as_str(), listener_id) {
                let ghost persona = self.sessions@[i as int].persona;
                proof {
                    lemma_session_at(self.sessions@, i as int);
                    assert(old(self).runs_on(persona, listener_id@));
                }
                if self.sessions[i].session.status.matches(&status) {
                    assert(old(self).took_on(*self, persona, status@, false));
                    return false;
                }
                let ghost before = self.sessions@;
                self.sessions[i].session.status = status;
                proof {
                    let s = self.sessions@;
                    assert forall|j: int, k: int| 0 <= j < k < s.len() implies (
                    #[trigger] s[j]).persona != (#[trigger] s[k]).persona by {
                        assert(before[j].persona != before[k].persona);
                    }
                    assert forall|j: int| 0 <= j < s.len() implies (#[trigger] s[j]).session.wf() by {
                        assert(before[j].session.wf());
                    }
                    lemma_updated(before, s, i as int);
                    assert(old(self).took_on(*self, persona, status@, true));
                }
                return true;
            }
            i = i + 1;
        }
        assert(!exists|p: PersonaId| #[trigger] self.runs_on(p, listener_id@)) by {
            if exists|p: PersonaId| #[trigger] self.runs_on(p, listener_id@) {
                let p = choose|p: PersonaId| #[trigger] self.runs_on(p, listener_id@);
                let k = choose|k: int|
                    0 <= k < self.sessions@.len() && (#[trigger] self.sessions@[k]).persona == p;
                lemma_session_at(self.sessions@, k);
            }
        }
        false
    }

    /// Whether some session is live.
    pub fn any_connected(&self) -> (r: bool)
        requires
            self.wf(),
        ensures
            r == self.some_connected(),
    {
        let mut i: usize = 0;
        while i < self.sessions.len()
            invariant
                self.wf(),
                i <= self.sessions@.len(),
                forall|j: int|
                    0 <= j < i ==> !((#[trigger] self.sessions@[j]).session.status is Connected),
            decreases self.sessions@.len() - i,
        {
            if self.sessions[i].session.status.is_connected() {
                proof {
                    lemma_session_at(self.sessions@, i as int);
                    assert(self@.contains_key(self.sessions@[i as int].persona));
                }
                return true;
            }
            i = i + 1;
        }
        proof {
            if self.some_connected() {
                let p = choose|p: PersonaId| #[trigger]
                    self@.contains_key(p) && self@[p].status == SessionStatusView::Connected;
                let k = choose|k: int|
                    0 <= k < self.sessions@.len() && (#[trigger] self.sessions@[k]).persona == p;
                lemma_session_at(self.sessions@, k);
            }
        }
        false
    }

    /// How many sessions there are.
    pub fn session_count(&self) -> (r: usize)
        requires
            self.wf(),
        ensures
            r == self.sessions@.len(),
            r == self@.dom().len(),
    {
        proof {
            lemma_counted(*self);
        }
        self.sessions.len()
    }

    /// How many sessions there may be.
    pub fn max_sessions(&self) -> (r: usize)
        ensures
            r == self.max_sessions,
    {
        self.max_sessions
    }

    /// The session of a persona.
    pub fn session(&self, persona: PersonaId) -> (r: Option<&Session>)
        requires
            self.wf(),
        ensures
            match r {
                Some(s) => self@.contains_key(persona) && s@ == self@[persona] && s.wf(),
                None => !self@.contains_key(persona),
            },
    {
        match self.position(persona) {
            Some(i) => Some(&self.sessions[i].session),
            None => None,
        }
    }
}

impl Default for SessionManager {
    fn default() -> (r: Self)
        ensures
            r.wf(),
            r@ == Map::<PersonaId, SessionView>::empty(),
            r.sessions@.len() == 0,
            r.max_sessions == DEFAULT_MAX_SESSIONS,
    {
        SessionManager::new(DEFAULT_MAX_SESSIONS)
    }
}

proof fn lemma_updated(a: Seq<SessionEntry>, b: Seq<SessionEntry>, i: int)
    requires
        distinct_personas(a),
        distinct_personas(b),
        0 <= i < a.len(),
        b.len() == a.len(),
        b[i].persona == a[i].persona,
        forall|j: int| 0 <= j < a.len() && j != i ==> a[j] == #[trigger] b[j],
    ensures
        Map::new(|p: PersonaId| served(b, p), |p: PersonaId| session_of(b, p)) == Map::new(
            |p: PersonaId| served(a, p),
            |p: PersonaId| session_of(a, p),
        ).insert(a[i].persona, b[i].session@),
{
    let ma = Map::new(|p: PersonaId| served(a, p), |p: PersonaId| session_of(a, p));
    let mb = Map::new(|p: PersonaId| served(b, p), |p: PersonaId| session_of(b, p));
    let mc = ma.insert(a[i].persona, b[i].session@);
    lemma_session_at(a, i);
    lemma_session_at(b, i);
    assert forall|p: PersonaId| mb.contains_key(p) == mc.contains_key(p) by {
        if served(b, p) {
            let k = choose|k: int| 0 <= k < b.len() && (#[trigger] b[k]).persona == p;
            if k != i {
                assert(a[k] == b[k]);
                assert(a[k].persona == p);
            }
        }
        if served(a, p) {
            let k = choose|k: int| 0 <= k < a.len() && (#[trigger] a[k]).persona == p;
            if k != i {
                assert(a[k] == b[k]);
            }
            assert(b[k].persona == p);
        }
    }
    assert forall|p: PersonaId| mb.contains_key(p) implies mb[p] == mc[p] by {
        if p != a[i].persona {
            let k = choose|k: int| 0 <= k < b.len() && (#[trigger] b[k]).persona == p;
            assert(a[k] == b[k]);
            lemma_session_at(a, k);
            lemma_session_at(b, k);
        }
    }
    assert(mb =~= mc);
}

proof fn lemma_pushed(a: Seq<SessionEntry>, b: Seq<SessionEntry>)
    requires
        distinct_personas(b),
        b.len() == a.len() + 1,
        forall|j: int| 0 <= j < a.len() ==> a[j] == #[trigger] b[j],
    ensures
        Map::new(|p: PersonaId| served(b, p), |p: PersonaId| session_of(b, p)) == Map::new(
            |p: PersonaId| served(a, p),
            |p: PersonaId| session_of(a, p),
        ).insert(b.last().persona, b.last().session@),
{
    let ma = Map::new(|p: PersonaId| served(a, p), |p: PersonaId| session_of(a, p));
    let mb = Map::new(|p: PersonaId| served(b, p), |p: PersonaId| session_of(b, p));
    let n = a.len() as int;
    let mc = ma.insert(b[n].persona, b[n].session@);
    assert(distinct_personas(a)) by {
        assert forall|j: int, k: int| 0 <= j < k < a.len() implies (#[trigger] a[j]).persona != (
        #[trigger] a[k]).persona by {
            assert(b[j].persona != b[k].persona);
        }
    }
    lemma_session_at(b, n);
    assert forall|p: PersonaId| mb.contains_key(p) == mc.contains_key(p) by {
        if served(b, p) {
            let k = choose|k: int| 0 <= k < b.len() && (#[trigger] b[k]).persona == p;
            if k != n {
                assert(a[k].persona == p);
            }
        }
        if served(a, p) {
            let k = choose|k: int| 0 <= k < a.len() && (#[trigger] a[k]).persona == p;
            assert(b[k].persona == p);
        }
    }
    assert forall|p: PersonaId| mb.contains_key(p) implies mb[p] == mc[p] by {
        if p != b[n].persona {
            let k = choose|k: int| 0 <= k < b.len() && (#[trigger] b[k]).persona == p;
            assert(a[k] == b[k]);
            lemma_session_at(a, k);
            lemma_session_at(b, k);
        }
    }
    assert(mb =~= mc);
}

proof fn lemma_removed(a: Seq<SessionEntry>, i: int)
    requires
        distinct_personas(a),
        distinct_personas(a.remove(i)),
        0 <= i < a.len(),
    ensures
        Map::new(
            |p: PersonaId| served(a.remove(i), p),
            |p: PersonaId| session_of(a.remove(i), p),
        ) == Map::new(|p: PersonaId| served(a, p), |p: PersonaId| session_of(a, p)).remove(
            a[i].persona,
        ),
{
    let b = a.remove(i);
    let ma = Map::new(|p: PersonaId| served(a, p), |p: PersonaId| session_of(a, p));
    let mb = Map::new(|p: PersonaId| served(b, p), |p: PersonaId| session_of(b, p));
    let mc = ma.remove(a[i].persona);
    assert forall|p: PersonaId| mb.contains_key(p) == mc.contains_key(p) by {
        if served(b, p) {
            let k = choose|k: int| 0 <= k < b.len() && (#[trigger] b[k]).persona == p;
            let m = if k < i { k } else { k + 1 };
            assert(a[m] == b[k]);
            if m < i {
                assert(a[m].persona != a[i].persona);
            } else {
                assert(a[i].persona != a[m].persona);
            }
        }
        if served(a, p) && p != a[i].persona {
            let k = choose|k: int| 0 <= k < a.len() && (#[trigger] a[k]).persona == p;
            let m = if k < i { k } else { k - 1 };
            assert(b[m] == a[k]);
        }
    }
    assert forall|p: PersonaId| mb.contains_key(p) implies mb[p] == mc[p] by {
        let k = choose|k: int| 0 <= k < b.len() && (#[trigger] b[k]).persona == p;
        let m = if k < i { k } else { k + 1 };
        assert(a[m] == b[k]);
        lemma_session_at(a, m);
        lemma_session_at(b, k);
    }
    assert(mb =~= mc);
}

proof fn lemma_counted(m: SessionManager)
    requires
        m.wf(),
    ensures
        m@.dom().len() == m.sessions@.len(),
{
    let ids = m.sessions@.map_values(|e: SessionEntry| e.persona);
    assert(ids.no_duplicates()) by {
        assert forall|i: int, j: int| 0 <= i < ids.len() && 0 <= j < ids.len() && i != j implies ids[i]
            != ids[j] by {
            if i < j {
                assert(m.sessions@[i].persona != m.sessions@[j].persona);
            } else {
                assert(m.sessions@[j].persona != m.sessions@[i].persona);
            }
        }
    }
    ids.unique_seq_to_set();
    assert(m@.dom() =~= ids.to_set()) by {
        assert forall|p: PersonaId| m@.dom().contains(p) == ids.to_set().contains(p) by {
            if served(m.sessions@, p) {
                let k = choose|k: int|
                    0 <= k < m.sessions@.len() && (#[trigger] m.sessions@[k]).persona == p;
                assert(ids[k] == p);
            }
            if ids.contains(p) {
                let k = choose|k: int| 0 <= k < ids.len() && ids[k] == p;
                assert(m.sessions@[k].persona == p);
            }
        }
    }
}

fn text_position(v: &Vec<String>, t: &str) -> (r: Option<usize>)
    ensures
        match r {
            Some(i) => i < v@.len() && texts_view(v@)[i as int] == t@,
            None => !texts_view(v@).contains(t@),
        },
{
    let mut i: usize = 0;
    while i < v.len()
        invariant
            i <= v@.len(),
            forall|j: int| 0 <= j < i ==> texts_view(v@)[j] != t@,
        decreases v@.len() - i,
    {
        if same(v[i].as_str(), t) {
            return Some(i);
        }
        i = i + 1;
    }
    None
}

fn attach(v: &mut Vec<String>, t: String)
    requires
        texts_view(old(v)@).no_duplicates(),
    ensures
        final(v)@.len() > 0,
        texts_view(final(v)@).no_duplicates(),
        texts_view(final(v)@).to_set() == texts_view(old(v)@).to_set().insert(t@),
{
    let ghost before = texts_view(v@);
    match text_position(v, t.as_str()) {
        Some(i) => {
            assert(before.to_set().contains(before[i as int]));
            assert(before.to_set().insert(t@) =~= before.to_set());
        },
        None => {
            v.push(t);
            proof {
                let after = texts_view(v@);
                assert(after =~= before.push(t@));
                assert(after.to_set() =~= before.to_set().insert(t@)) by {
                    assert forall|x: Seq<char>| after.contains(x) == (before.contains(x) || x == t@) by {
                        if before.contains(x) {
                            let k = choose|k: int| 0 <= k < before.len() && before[k] == x;
                            assert(after[k] == x);
                        }
                        if x == t@ {
                            assert(after[before.len() as int] == x);
                        }
                        if after.contains(x) && x != t@ {
                            let k = choose|k: int| 0 <= k < after.len() && after[k] == x;
                            assert(before[k] == x);
                        }
                    }
                }
            }
        },
    }
}

fn detach(v: &mut Vec<String>, t: &str)
    requires
        texts_view(old(v)@).no_duplicates(),
    ensures
        texts_view(final(v)@).no_duplicates(),
        texts_view(final(v)@).to_set() == texts_view(old(v)@).to_set().remove(t@),
{
    let ghost before = texts_view(v@);
    match text_position(v, t) {
        None => {
            assert(before.to_set().remove(t@) =~= before.to_set());
        },
        Some(i) => {
            let _ = v.remove(i);
            proof {
                let after = texts_view(v@);
                assert(after =~= before.remove(i as int));
                assert forall|a: int, b: int|
                    0 <= a < after.len() && 0 <= b < after.len() && a != b implies after[a]
                    != after[b] by {
                    let x = if a < i { a } else { a + 1 };
                    let y = if b < i { b } else { b + 1 };
                    assert(before[x] != before[y]);
                }
                assert(after.to_set() =~= before.to_set().remove(t@)) by {
                    assert forall|x: Seq<char>| after.contains(x) == (before.contains(x) && x != t@) by {
                        if after.contains(x) {
                            let k = choose|k: int| 0 <= k < after.len() && after[k] == x;
                            let m = if k < i { k } else { k + 1 };
                            assert(before[m] == x);
                            assert(before[m] != before[i as int]);
                        }
                        if before.contains(x) && x != t@ {
                            let k = choose|k: int| 0 <= k < before.len() && before[k] == x;
                            let m = if k < i { k } else { k - 1 };
                            assert(after[m] == x);
                        }
                    }
                }
            }
        },
    }
}

/// What happens to one session leaves every other one as it was.
pub proof fn law_sessions_are_isolated(
    old: SessionManager,
    new: SessionManager,
    listener_id: Seq<char>,
    status: SessionStatusView,
    changed: bool,
    other: PersonaId,
)
    requires
        old.wf(),
        new.wf(),
        old.restated(new, listener_id, status, changed),
        old@.contains_key(other),
        old@[other].listener_id != listener_id,
    ensures
        new@.contains_key(other),
        new@[other] == old@[other],
{
}

/// There are never more sessions than the bound allows.
pub proof fn law_sessions_are_bounded(m: SessionManager)
    requires
        m.wf(),
    ensures
        m@.dom().len() <= m.max_sessions,
{
    lemma_counted(m);
}

/// A community that is registered is served: by the session of its persona, which
/// is shared where there is one and new, on the listener given, where there is
/// not; unless there is no room, and then nothing changes. No other session is
/// touched.
pub proof fn law_registered_community_is_served(
    m: &mut SessionManager,
    persona: PersonaId,
    listener_id: &str,
    vtc: String,
    r: RegisterOutcome,
)
    requires
        old(m).wf(),
        call_ensures(SessionManager::register, (m, persona, listener_id, vtc), r),
    ensures
        r !is AtCapacity ==> final(m)@.contains_key(persona)
            && final(m)@[persona].communities.contains(vtc@),
        r is AtCapacity ==> final(m)@ == old(m)@ && !old(m)@.contains_key(persona),
        r is JoinedExisting <==> old(m)@.contains_key(persona),
        r is Created ==> final(m)@[persona].listener_id == listener_id@ && final(m)@[persona].status
            is Connecting && old(m)@.dom().len() < old(m).max_sessions,
        r is JoinedExisting ==> final(m)@[persona].listener_id == old(m)@[persona].listener_id
            && final(m)@[persona].status == old(m)@[persona].status && forall|c: Seq<char>|
            old(m)@[persona].communities.contains(c)
                ==> #[trigger] final(m)@[persona].communities.contains(c),
        forall|p: PersonaId|
            p != persona ==> (#[trigger] final(m)@.contains_key(p) <==> old(m)@.contains_key(p)),
        forall|p: PersonaId|
            p != persona && old(m)@.contains_key(p) ==> #[trigger] final(m)@[p] == old(m)@[p],
        final(m)@.dom().len() <= old(m).max_sessions,
{
    lemma_counted(*old(m));
    lemma_counted(*final(m));
}

/// A community that is taken off its persona's session is served no more; the
/// session ends exactly when it serves no other, and what is handed out then is
/// that session. No other session is touched.
pub proof fn law_session_ends_with_its_last_community(
    m: &mut SessionManager,
    persona: PersonaId,
    vtc: &str,
    r: Option<Session>,
)
    requires
        old(m).wf(),
        call_ensures(SessionManager::deregister, (m, persona, vtc), r),
    ensures
        final(m)@.contains_key(persona) ==> !final(m)@[persona].communities.contains(vtc@),
        r is Some ==> !final(m)@.contains_key(persona) && r->0.listener_id@
            == old(m)@[persona].listener_id,
        old(m)@.contains_key(persona) && (exists|c: Seq<char>|
            c != vtc@ && #[trigger] old(m)@[persona].communities.contains(c)) ==> r is None
            && final(m)@.contains_key(persona) && final(m)@[persona].listener_id
            == old(m)@[persona].listener_id,
        old(m)@.contains_key(persona) && (forall|c: Seq<char>| #[trigger]
            old(m)@[persona].communities.contains(c) ==> c == vtc@) ==> r is Some,
        forall|p: PersonaId|
            p != persona ==> (#[trigger] final(m)@.contains_key(p) <==> old(m)@.contains_key(p)),
        forall|p: PersonaId|
            p != persona && old(m)@.contains_key(p) ==> #[trigger] final(m)@[p] == old(m)@[p],
{
    if old(m)@.contains_key(persona) {
        let left = old(m)@[persona].communities.remove(vtc@);
        if exists|c: Seq<char>| c != vtc@ && #[trigger] old(m)@[persona].communities.contains(c) {
            let c = choose|c: Seq<char>|
                c != vtc@ && #[trigger] old(m)@[persona].communities.contains(c);
            assert(left.contains(c));
        }
        if forall|c: Seq<char>| #[trigger] old(m)@[persona].communities.contains(c) ==> c == vtc@ {
            assert(left =~= Set::<Seq<char>>::empty());
        }
    }
}

/// What a listener reports is noted of the session that runs on it, where one
/// persona's does, and of no other: it is live once its listener connected, and
/// no longer once that ended or failed, with the reason given.
pub proof fn law_reports_reach_their_session(
    up: &mut SessionManager,
    down: &mut SessionManager,
    broken: &mut SessionManager,
    listener_id: &str,
    reason: String,
    a: bool,
    b: bool,
    c: bool,
    persona: PersonaId,
)
    requires
        old(up).wf() && old(down).wf() && old(broken).wf(),
        call_ensures(SessionManager::mark_connected, (up, listener_id), a),
        call_ensures(SessionManager::mark_disconnected, (down, listener_id), b),
        call_ensures(SessionManager::mark_failed, (broken, listener_id, reason), c),
    ensures
        old(up)@.contains_key(persona) && old(up)@[persona].listener_id == listener_id@ && (forall|
            p: PersonaId,
        |
            #[trigger] old(up).runs_on(p, listener_id@) ==> p == persona) ==> final(up)@[persona].status is Connected,
        old(down)@.contains_key(persona) && old(down)@[persona].listener_id == listener_id@ && (
        forall|p: PersonaId| #[trigger] old(down).runs_on(p, listener_id@) ==> p == persona)
            ==> final(down)@[persona].status is Disconnected,
        old(broken)@.contains_key(persona) && old(broken)@[persona].listener_id == listener_id@ && (
        forall|p: PersonaId| #[trigger] old(broken).runs_on(p, listener_id@) ==> p == persona)
            ==> final(broken)@[persona].status == SessionStatusView::Failed(reason@),
        final(up)@.dom() == old(up)@.dom(),
        old(up)@.contains_key(persona) && old(up)@[persona].listener_id != listener_id@ ==> final(up)@[persona] == old(up)@[persona],
{
    assert(final(up)@.dom() =~= old(up)@.dom());
    if old(up)@.contains_key(persona) && old(up)@[persona].listener_id == listener_id@ {
        assert(old(up).runs_on(persona, listener_id@));
    }
    if old(down)@.contains_key(persona) && old(down)@[persona].listener_id == listener_id@ {
        assert(old(down).runs_on(persona, listener_id@));
    }
    if old(broken)@.contains_key(persona) && old(broken)@[persona].listener_id == listener_id@ {
        assert(old(broken).runs_on(persona, listener_id@));
    }
}

} // verus!
