use openvtc::content::{CredentialTab, CredentialsMode};
use openvtc::credential_actions::{
    handle_back, handle_open_detail, handle_reason_update, handle_start_new_request,
    handle_switch_tab,
};
use openvtc::state::State;

#[test]
fn switch_tab_cycles_and_resets_index() {
    let cases: &[(CredentialTab, CredentialTab)] = &[
        (CredentialTab::Received, CredentialTab::Issued),
        (CredentialTab::Issued, CredentialTab::Membership),
        (CredentialTab::Membership, CredentialTab::Received),
    ];
    for (start, expected) in cases {
        let mut state = State::default();
        state.main_page.content_panel.credentials.selected_tab = *start;
        state.main_page.content_panel.credentials.selected_index = 5;
        handle_switch_tab(&mut state);
        assert_eq!(
            state.main_page.content_panel.credentials.selected_tab, *expected,
            "from {start:?}"
        );
        assert_eq!(
            state.main_page.content_panel.credentials.selected_index, 0,
            "index reset on tab switch from {start:?}"
        );
    }
}

#[test]
fn open_detail_and_back_transitions() {
    for index in [0usize, 3, 42] {
        let mut state = State::default();
        handle_open_detail(&mut state, index);
        assert!(
            matches!(
                state.main_page.content_panel.credentials.mode,
                CredentialsMode::Detail { index: i } if i == index
            ),
            "open_detail({index}) enters Detail"
        );
        assert_eq!(state.main_page.content_panel.credentials.selected_index, index);

        handle_back(&mut state);
        assert!(
            matches!(state.main_page.content_panel.credentials.mode, CredentialsMode::List),
            "back returns to List"
        );
        assert_eq!(state.main_page.content_panel.credentials.selected_index, 0);
    }
}

#[test]
fn start_new_request_enters_form() {
    let mut state = State::default();
    handle_start_new_request(&mut state);
    match &state.main_page.content_panel.credentials.mode {
        CredentialsMode::NewRequest { relationship_index, reason_input } => {
            assert_eq!(*relationship_index, 0);
            assert!(reason_input.is_empty());
        }
        other => panic!("expected NewRequest, got {other:?}"),
    }
}

#[test]
fn reason_update_only_in_new_request() {
    let mut state = State::default();
    handle_start_new_request(&mut state);
    handle_reason_update(&mut state, "because".to_string());
    assert!(matches!(
        &state.main_page.content_panel.credentials.mode,
        CredentialsMode::NewRequest { reason_input, .. } if reason_input == "because"
    ));

    for mode in [CredentialsMode::List, CredentialsMode::Detail { index: 1 }] {
        let mut state = State::default();
        state.main_page.content_panel.credentials.mode = mode.clone();
        handle_reason_update(&mut state, "ignored".to_string());
        assert_eq!(
            std::mem::discriminant(&state.main_page.content_panel.credentials.mode),
            std::mem::discriminant(&mode),
            "reason_update is a no-op outside NewRequest"
        );
    }
}
