//! Deleting the identities of the account that no community is bound to.

use crate::account::{bound_count, lemma_bound_count, persona_with_did, KeyRef};
use crate::config::{persona_forgotten, Config};
use crate::content::VtaState;
use crate::didcomm::{persona_listener_id, persona_listener_view};
use crate::ledger::PersonaId;
use crate::main_page::{plain_line, push_line, MainPageState};
use crate::save_coalesce::SaveScheduler;
use crate::state::State;
use crate::sync::{synced, Host};
use crate::text::{cat2, cat3, cat5, decimal_usize, decimal_view, owned, texts_view};
use vstd::prelude::*;

verus! {

/// An identity to be deleted at its host.
#[derive(Clone, Debug)]
pub struct DidDeleteJob {
    pub did: String,
    pub persona_id: PersonaId,
    pub key_ids: Vec<String>,
    /// The listener that goes with it.
    pub listener_id: String,
}

/// The ids of these keys.
pub open spec fn key_ids_of(s: Seq<KeyRef>) -> Seq<Seq<char>> {
    s.map_values(|k: KeyRef| k.key_id@)
}

/// The ids of these keys.
pub fn key_ids(refs: &Vec<KeyRef>) -> (r: Vec<String>)
    ensures
        texts_view(r@) == key_ids_of(refs@),
{
    let mut out: Vec<String> = Vec::new();
    let ghost all = key_ids_of(refs@);
    let mut i: usize = 0;
    assert(texts_view(out@) =~= all.take(0));
    while i < refs.len()
        invariant
            i <= refs@.len(),
            all == key_ids_of(refs@),
            texts_view(out@) == all.take(i as int),
        decreases refs@.len() - i,
    {
        let ghost before = texts_view(out@);
        out.push(refs[i].key_id.clone());
        assert(texts_view(out@) =~= before.push(refs@[i as int].key_id@));
        assert(all.take(i + 1) =~= all.take(i as int).push(all[i as int]));
        i = i + 1;
    }
    assert(all.take(i as int) =~= all);
    out
}

/// The state after the confirmation of a deletion was settled.
pub open spec fn confirmation_settled(state: State) -> State {
    state.with_vta(VtaState { confirm_delete_did: None, ..state.vta() })
}

/// `new` is `old` after the confirmation was settled and a line was logged.
pub open spec fn deletion_logged(old: State, new: State, line: Seq<char>) -> bool {
    &&& new == confirmation_settled(old).with_main(
        MainPageState {
            activity_log: new.main_page.activity_log,
            ..confirmation_settled(old).main_page
        },
    )
    &&& new.main_page.log_lines() == push_line(old.main_page.log_lines(), plain_line(line))
}

/// What is logged where communities are still bound to an identity.
pub open spec fn still_bound(n: nat) -> Seq<char> {
    "Can't delete — "@ + decimal_view(n) + " communit"@ + (if n == 1 {
        "y"@
    } else {
        "ies"@
    }) + " still use this identity; leave them first."@
}

/// What asking to delete the identity in a row comes to: one that a community is
/// bound to, or that is not there, is left alone.
pub open spec fn deletion_prepared(
    old: State,
    new: State,
    config: Config,
    index: usize,
    r: Option<DidDeleteJob>,
) -> bool {
    let shown = old.vta().context_dids@;
    if index >= shown.len() {
        new == confirmation_settled(old) && r is None
    } else {
        let did = shown[index as int].did@;
        match persona_with_did(config.account.personas@, did) {
            None => r is None && deletion_logged(old, new, "DID not found — nothing removed."@),
            Some(p) => {
                let bound = bound_count(config.account.communities@, p.persona_id);
                if bound > 0 {
                    r is None && deletion_logged(old, new, still_bound(bound))
                } else {
                    &&& deletion_logged(old, new, "Removing identity "@ + did + "…"@)
                    &&& r matches Some(job)
                    &&& job.did@ == did
                    &&& job.persona_id == p.persona_id
                    &&& texts_view(job.key_ids@) == key_ids_of(p.key_refs@)
                    &&& job.listener_id@ == persona_listener_view(did)
                }
            },
        }
    }
}

/// Prepares to delete the identity in a row of the DID manager.
pub fn prepare_delete_context_did(state: &mut State, config: &Config, index: usize) -> (r: Option<
    DidDeleteJob,
>)
    ensures
        deletion_prepared(*old(state), *final(state), *config, index, r),
{
    state.main_page.content_panel.vta.confirm_delete_did = None;
    if index >= state.main_page.content_panel.vta.context_dids.len() {
        return None;
    }
    let did = state.main_page.content_panel.vta.context_dids[index].did.clone();
    match config.account.persona_by_did(did.as_str()) {
        None => {
            state.main_page.log(owned("DID not found — nothing removed."));
            None
        },
        Some(i) => {
            let persona_id: PersonaId = config.account.personas[i].persona_id;
            let bound: usize = config.account.bound_communities(persona_id);
            if bound > 0 {
                let digits = decimal_usize(bound);
                state.main_page.log(
                    cat5(
                        "Can't delete — ",
                        digits.as_str(),
                        " communit",
                        if bound == 1 {
                            "y"
                        } else {
                            "ies"
                        },
                        " still use this identity; leave them first.",
                    ),
                );
                return None;
            }
            state.main_page.log(cat3("Removing identity ", did.as_str(), "…"));
            let ids = key_ids(&config.account.personas[i].key_refs);
            let listener_id = persona_listener_id(did.as_str());
            Some(DidDeleteJob { did, persona_id, key_ids: ids, listener_id })
        },
    }
}

/// What became of deleting an identity at its host.
#[derive(Debug)]
pub struct DidDeleteOutcome {
    pub did: String,
    pub persona_id: PersonaId,
    pub key_ids: Vec<String>,
    pub result: Result<(), String>,
}

impl DidDeleteOutcome {
    /// `new` is `old` after this became known: what was deleted at its host is
    /// forgotten here, and else everything stays.
    pub open spec fn applied(
        self,
        old: State,
        new: State,
        was: Config,
        is: Config,
        host: Host,
    ) -> bool {
        let after = MainPageState { activity_log: old.main_page.activity_log, ..new.main_page };
        &&& new == old.with_main(new.main_page)
        &&& match self.result {
            Ok(_) => {
                &&& persona_forgotten(was, is, self.persona_id, texts_view(self.key_ids@))
                &&& synced(old.main_page, after, is, host)
                &&& new.main_page.log_lines() == push_line(
                    old.main_page.log_lines(),
                    plain_line("Identity removed: "@ + self.did@),
                )
            },
            Err(why) => {
                &&& is == was
                &&& after == old.main_page
                &&& new.main_page.log_lines() == push_line(
                    old.main_page.log_lines(),
                    plain_line("Could not remove identity: "@ + why@),
                )
            },
        }
    }

    /// Takes note of it.
    pub fn apply(
        self,
        state: &mut State,
        config: &mut Config,
        save: &mut SaveScheduler,
        host: &Host,
    )
        ensures
            self.applied(*old(state), *final(state), *old(config), *final(config), *host),
            *final(save) == (if self.result is Ok {
                old(save).marked(host.now)
            } else {
                *old(save)
            }),
    {
        match self.result {
            Ok(_) => {
                config.forget_persona(self.persona_id, &self.key_ids);
                save.mark_dirty(host.now);
                state.main_page.sync_from_config(config, host);
                state.main_page.log(cat2("Identity removed: ", self.did.as_str()));
            },
            Err(why) => {
                state.main_page.log(cat2("Could not remove identity: ", why.as_str()));
            },
        }
    }
}

/// An identity that a community is bound to is never handed out for deletion.
pub proof fn law_bound_identities_stay(
    old: State,
    new: State,
    config: Config,
    index: usize,
    job: DidDeleteJob,
    i: int,
)
    requires
        deletion_prepared(old, new, config, index, Some(job)),
        0 <= i < config.account.communities@.len(),
    ensures
        config.account.communities@[i].persona_ref != job.persona_id,
{
    lemma_bound_count(config.account.communities@, job.persona_id);
    if config.account.communities@[i].persona_ref == job.persona_id {
        let s = config.account.communities@;
        assert(crate::account::Held::holder(s[i]) == job.persona_id);
    }
}

/// What is deleted is the identity of the row that was asked for, with all of its
/// keys and over its own listener, and only where no membership is bound to it;
/// the configuration is kept until the host has deleted it.
pub proof fn law_deletion_is_of_the_row(
    state: &mut State,
    config: Config,
    index: usize,
    r: Option<DidDeleteJob>,
)
    requires
        call_ensures(prepare_delete_context_did, (state, &config, index), r),
    ensures
        final(state).vta().confirm_delete_did is None,
        final(state).vta().context_dids == old(state).vta().context_dids,
        r matches Some(job) ==> {
            &&& index < old(state).vta().context_dids@.len()
            &&& job.did@ == old(state).vta().context_dids@[index as int].did@
            &&& job.listener_id@ == persona_listener_view(job.did@)
            &&& persona_with_did(config.account.personas@, job.did@) matches Some(p)
            &&& p.persona_id == job.persona_id
            &&& texts_view(job.key_ids@) == key_ids_of(p.key_refs@)
            &&& forall|i: int|
                0 <= i < config.account.communities@.len() ==> (
                #[trigger] config.account.communities@[i]).persona_ref != job.persona_id
        },
        r is None && index < old(state).vta().context_dids@.len() ==> {
            let did = old(state).vta().context_dids@[index as int].did@;
            &&& persona_with_did(config.account.personas@, did) matches Some(p)
            ==> bound_count(config.account.communities@, p.persona_id) > 0
        },
{
    if let Some(job) = r {
        assert forall|i: int| 0 <= i < config.account.communities@.len() implies (
        #[trigger] config.account.communities@[i]).persona_ref != job.persona_id by {
            law_bound_identities_stay(*old(state), *final(state), config, index, job, i);
        }
    }
}

/// An identity that its host deleted is gone, its record with it; the change
/// awaits saving and no membership is touched. Where the host did not delete it,
/// it stays.
pub proof fn law_deleted_identity_is_gone(
    outcome: DidDeleteOutcome,
    state: &mut State,
    config: &mut Config,
    save: &mut SaveScheduler,
    host: Host,
    i: int,
)
    requires
        call_ensures(DidDeleteOutcome::apply, (outcome, state, config, save, &host), ()),
    ensures
        outcome.result is Err ==> *final(config) == *old(config) && *final(save) == *old(save),
        outcome.result is Ok ==> final(save).dirty,
        outcome.result is Ok && 0 <= i < final(config).account.personas@.len() ==> final(config).account.personas@[i].persona_id != outcome.persona_id,
        outcome.result is Ok && 0 <= i < final(config).identities@.len() ==> final(config).identities@[i].persona_id != outcome.persona_id,
        outcome.result is Ok ==> final(config).active_persona != Some(outcome.persona_id),
        final(config).account.communities == old(config).account.communities,
        final(config).private == old(config).private,
        final(state).main_page.log_lines().len() > 0,
{
    if outcome.result is Ok {
        let id = outcome.persona_id;
        let people = old(config).account.personas@;
        let who = old(config).identities@;
        broadcast use vstd::seq_lib::group_filter_ensures;
        let a = people.filter(crate::account::held_by_others(id));
        let b = who.filter(crate::account::held_by_others(id));
        if 0 <= i < a.len() {
            assert(crate::account::held_by_others::<crate::account::PersonaRecord>(id)(a[i]));
        }
        if 0 <= i < b.len() {
            assert(crate::account::held_by_others::<crate::config::Identity>(id)(b[i]));
        }
    }
}

} // verus!
