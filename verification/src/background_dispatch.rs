//! Outside work that runs beside the user interface, one piece at a time in each
//! domain.

use crate::config::Config;
use crate::did_manager::DidDeleteOutcome;
use crate::didcomm::ReconnectOutcome;
use crate::inbox_actions::InboxOutcome;
use crate::main_page::{plain_line, push_line, MainPageState};
use crate::relationship_actions::RelationshipOutcome;
use crate::save_coalesce::SaveScheduler;
use crate::state::{ConnectionState, MediatorStatus, State};
use crate::sync::Host;
use crate::text::{cat2, owned};
use vstd::prelude::*;

verus! {

/// A kind of outside work of which one piece runs at a time.
#[derive(Clone, Copy, Debug, PartialEq, Eq, Structural)]
pub enum DispatchDomain {
    /// Connecting to the mediator anew.
    Mediator,
    /// Answering a task of the inbox.
    Inbox,
    /// A message over a relationship.
    Relationship,
    /// Deleting an identity.
    Did,
}

impl DispatchDomain {
    /// How the domain is named.
    pub open spec fn label_view(self) -> Seq<char> {
        match self {
            DispatchDomain::Mediator => "Mediator reconnect"@,
            DispatchDomain::Inbox => "Inbox action"@,
            DispatchDomain::Relationship => "Relationship action"@,
            DispatchDomain::Did => "Identity removal"@,
        }
    }

    /// How the domain is named.
    pub fn label(self) -> (r: &'static str)
        ensures
            r@ == self.label_view(),
    {
        match self {
            DispatchDomain::Mediator => "Mediator reconnect",
            DispatchDomain::Inbox => "Inbox action",
            DispatchDomain::Relationship => "Relationship action",
            DispatchDomain::Did => "Identity removal",
        }
    }
}

/// The domains in which work is running.
#[derive(Clone, Copy, Debug)]
pub struct InFlight {
    mediator: bool,
    inbox: bool,
    relationship: bool,
    did: bool,
}

impl View for InFlight {
    type V = Set<DispatchDomain>;

    closed spec fn view(&self) -> Set<DispatchDomain> {
        Set::new(
            |d: DispatchDomain|
                match d {
                    DispatchDomain::Mediator => self.mediator,
                    DispatchDomain::Inbox => self.inbox,
                    DispatchDomain::Relationship => self.relationship,
                    DispatchDomain::Did => self.did,
                },
        )
    }
}

impl Default for InFlight {
    fn default() -> (r: Self)
        ensures
            r@ == Set::<DispatchDomain>::empty(),
    {
        let r = InFlight { mediator: false, inbox: false, relationship: false, did: false };
        assert(r@ =~= Set::<DispatchDomain>::empty());
        r
    }
}

/// What is shown where a domain is busy.
pub open spec fn busy_view(domain: DispatchDomain) -> Seq<char> {
    domain.label_view() + " already in progress — please wait."@
}

impl InFlight {
    fn set(&mut self, domain: DispatchDomain, busy: bool)
        ensures
            final(self)@ == (if busy {
                old(self)@.insert(domain)
            } else {
                old(self)@.remove(domain)
            }),
    {
        match domain {
            DispatchDomain::Mediator => {
                self.mediator = busy;
            },
            DispatchDomain::Inbox => {
                self.inbox = busy;
            },
            DispatchDomain::Relationship => {
                self.relationship = busy;
            },
            DispatchDomain::Did => {
                self.did = busy;
            },
        }
        assert(self@ =~= (if busy {
            old(self)@.insert(domain)
        } else {
            old(self)@.remove(domain)
        }));
    }

    /// Claims a domain; tells whether it was free.
    pub fn try_begin(&mut self, domain: DispatchDomain) -> (r: bool)
        ensures
            r == !old(self)@.contains(domain),
            final(self)@ == old(self)@.insert(domain),
    {
        let free = !self.is_busy(domain);
        self.set(domain, true);
        free
    }

    /// Releases a domain.
    pub fn finish(&mut self, domain: DispatchDomain)
        ensures
            final(self)@ == old(self)@.remove(domain),
    {
        self.set(domain, false);
    }

    /// Whether work is running in a domain.
    pub fn is_busy(&self, domain: DispatchDomain) -> (r: bool)
        ensures
            r == self@.contains(domain),
    {
        match domain {
            DispatchDomain::Mediator => self.mediator,
            DispatchDomain::Inbox => self.inbox,
            DispatchDomain::Relationship => self.relationship,
            DispatchDomain::Did => self.did,
        }
    }

    /// What is shown where a domain is busy.
    pub fn busy_message(domain: DispatchDomain) -> (r: String)
        ensures
            r@ == busy_view(domain),
    {
        cat2(domain.label(), " already in progress — please wait.")
    }
}

/// Work in one domain neither blocks nor frees another, and a domain that was
/// claimed is refused until it is released.
pub proof fn law_domains_are_independent(
    busy: Set<DispatchDomain>,
    domain: DispatchDomain,
    other: DispatchDomain,
)
    requires
        other != domain,
    ensures
        busy.insert(domain).contains(domain),
        !busy.insert(domain).remove(domain).contains(domain),
        busy.insert(domain).contains(other) == busy.contains(other),
        busy.remove(domain).contains(other) == busy.contains(other),
{
}

/// What became of a piece of outside work.
#[derive(Debug)]
pub enum DispatchOutcome {
    MediatorReconnect(ReconnectOutcome),
    Inbox(InboxOutcome),
    Relationship(RelationshipOutcome),
    Did(DidDeleteOutcome),
}

/// `new` is `old` after it was known what became of connecting to the mediator
/// anew.
pub open spec fn reconnected(old: State, new: State, outcome: ReconnectOutcome) -> bool {
    &&& new == (State {
        main_page: MainPageState {
            activity_log: new.main_page.activity_log,
            ..old.main_page
        },
        connection: match outcome {
            ReconnectOutcome::Connected => ConnectionState {
                status: MediatorStatus::Connected,
                messaging_active: true,
            },
            ReconnectOutcome::Failed(reason) => ConnectionState {
                status: MediatorStatus::Failed(reason),
                ..old.connection
            },
        },
        ..old
    })
    &&& new.main_page.log_lines() == push_line(
        old.main_page.log_lines(),
        plain_line(
            match outcome {
                ReconnectOutcome::Connected => "Reconnected to mediator"@,
                ReconnectOutcome::Failed(reason) => "Reconnect failed: "@ + reason@,
            },
        ),
    )
}

impl DispatchOutcome {
    /// The domain that it releases.
    pub open spec fn domain_view(self) -> DispatchDomain {
        match self {
            DispatchOutcome::MediatorReconnect(_) => DispatchDomain::Mediator,
            DispatchOutcome::Inbox(_) => DispatchDomain::Inbox,
            DispatchOutcome::Relationship(_) => DispatchDomain::Relationship,
            DispatchOutcome::Did(_) => DispatchDomain::Did,
        }
    }

    /// The domain that it releases.
    pub fn domain(&self) -> (r: DispatchDomain)
        ensures
            r == self.domain_view(),
    {
        match self {
            DispatchOutcome::MediatorReconnect(_) => DispatchDomain::Mediator,
            DispatchOutcome::Inbox(_) => DispatchDomain::Inbox,
            DispatchOutcome::Relationship(_) => DispatchDomain::Relationship,
            DispatchOutcome::Did(_) => DispatchDomain::Did,
        }
    }

    /// It changes the configuration for good.
    pub open spec fn saves(self) -> bool {
        match self {
            DispatchOutcome::MediatorReconnect(_) => false,
            DispatchOutcome::Inbox(o) => o.succeeded(),
            DispatchOutcome::Relationship(o) => o.succeeded(),
            DispatchOutcome::Did(o) => o.result is Ok,
        }
    }

    /// `new` is `old` after this became known.
    pub open spec fn applied(
        self,
        old: State,
        new: State,
        was: Config,
        is: Config,
        host: Host,
    ) -> bool {
        match self {
            DispatchOutcome::MediatorReconnect(o) => is == was && reconnected(old, new, o),
            DispatchOutcome::Inbox(o) => o.applied(old, new, was, is, host),
            DispatchOutcome::Relationship(o) => o.applied(old, new, was, is, host),
            DispatchOutcome::Did(o) => o.applied(old, new, was, is, host),
        }
    }
}

/// Takes note of what became of a piece of outside work, and releases its
/// domain.
pub fn apply_outcome(
    state: &mut State,
    config: &mut Config,
    save: &mut SaveScheduler,
    in_flight: &mut InFlight,
    outcome: DispatchOutcome,
    host: &Host,
)
    ensures
        outcome.applied(*old(state), *final(state), *old(config), *final(config), *host),
        final(in_flight)@ == old(in_flight)@.remove(outcome.domain_view()),
        *final(save) == (if outcome.saves() {
            old(save).marked(host.now)
        } else {
            *old(save)
        }),
{
    let domain: DispatchDomain = outcome.domain();
    match outcome {
        DispatchOutcome::MediatorReconnect(result) => match result {
            ReconnectOutcome::Connected => {
                state.connection.status = MediatorStatus::Connected;
                state.connection.messaging_active = true;
                state.main_page.log(owned("Reconnected to mediator"));
            },
            ReconnectOutcome::Failed(reason) => {
                let line = cat2("Reconnect failed: ", reason.as_str());
                state.connection.status = MediatorStatus::Failed(reason);
                state.main_page.log(line);
            },
        },
        DispatchOutcome::Inbox(result) => result.apply(state, config, save, host),
        DispatchOutcome::Relationship(result) => result.apply(state, config, save, host),
        DispatchOutcome::Did(result) => result.apply(state, config, save, host),
    }
    in_flight.finish(domain);
}

/// A domain that was claimed is busy until its work ends, and is free again then,
/// whatever came of the work; no other domain is released.
pub proof fn law_outcome_releases_its_domain(
    state: &mut State,
    config: &mut Config,
    save: &mut SaveScheduler,
    in_flight: &mut InFlight,
    outcome: DispatchOutcome,
    host: Host,
    domain: DispatchDomain,
)
    requires
        call_ensures(apply_outcome, (state, config, save, in_flight, outcome, &host), ()),
    ensures
        outcome is MediatorReconnect ==> !final(in_flight)@.contains(DispatchDomain::Mediator),
        outcome is Inbox ==> !final(in_flight)@.contains(DispatchDomain::Inbox),
        outcome is Relationship ==> !final(in_flight)@.contains(DispatchDomain::Relationship),
        outcome is Did ==> !final(in_flight)@.contains(DispatchDomain::Did),
        old(in_flight)@.contains(domain) && !final(in_flight)@.contains(domain) ==> {
            ||| domain is Mediator && outcome is MediatorReconnect
            ||| domain is Inbox && outcome is Inbox
            ||| domain is Relationship && outcome is Relationship
            ||| domain is Did && outcome is Did
        },
        outcome is MediatorReconnect ==> *final(config) == *old(config) && *final(save) == *old(save),
        outcome matches DispatchOutcome::MediatorReconnect(o) ==> (o is Connected <==> final(state).connection.status is Connected),
        outcome matches DispatchOutcome::MediatorReconnect(o) ==> (o is Connected ==> final(state).connection.messaging_active),
{
}

/// A domain is claimed by the first who asks and by nobody after, until it is
/// released.
pub proof fn law_domain_is_claimed_once(
    first: &mut InFlight,
    second: &mut InFlight,
    released: &mut InFlight,
    domain: DispatchDomain,
    a: bool,
    b: bool,
    busy: bool,
)
    requires
        call_ensures(InFlight::try_begin, (first, domain), a),
        *old(second) == *final(first),
        call_ensures(InFlight::try_begin, (second, domain), b),
        *old(released) == *final(second),
        call_ensures(InFlight::finish, (released, domain), ()),
        call_ensures(InFlight::is_busy, (&*final(released), domain), busy),
    ensures
        !b,
        !busy,
        a <==> !old(first)@.contains(domain),
{
}

} // verus!
