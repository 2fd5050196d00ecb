use openvtc::account::{Account, CommunityRecord};
use openvtc::ledger::PersonaId;
use openvtc::state::State;

#[test]
fn reconcile_defaults_to_active_then_clears_when_it_leaves() {
    let pid = PersonaId(11);
    let now = 1_700_000_000;
    let mut account = Account::empty();
    let mut active = CommunityRecord::new_pending(
        "did:web:vtc-a".into(),
        None,
        "openvtc/a".into(),
        pid,
        "request".into(),
        now,
    );
    active.activate(now);
    account.add_membership(active);

    let mut state = State::default();
    assert_eq!(state.selected_community, None);

    state.reconcile_selected_community(&account);
    assert_eq!(state.selected_community, Some(("did:web:vtc-a".to_string(), pid)));

    let at = account.membership("did:web:vtc-a", pid).unwrap();
    account.communities[at].leave();
    state.reconcile_selected_community(&account);
    assert_eq!(state.selected_community, None);
}
