use openvtc::actions::Action;
use openvtc::content::{CommunitySwitcherState, SwitcherItem};
use openvtc::main_page::MainPanel;
use openvtc::menu::MainMenu;
use openvtc::nav::handle_nav_action;
use openvtc::state::{ActivePage, State};

struct Case {
    name: &'static str,
    action: Action,
    assert_fn: fn(&State),
}

#[test]
fn nav_reducer_handles_shared_arms_identically() {
    let cases = [
        Case {
            name: "DismissLoading reveals the main page",
            action: Action::DismissLoading,
            assert_fn: |s| {
                assert!(
                    matches!(s.active_page, ActivePage::Main),
                    "expected ActivePage::Main"
                )
            },
        },
        Case {
            name: "MainMenuSelected updates the menu selection",
            action: Action::MainMenuSelected(MainMenu::Settings),
            assert_fn: |s| assert_eq!(s.main_page.menu_panel.selected_menu, MainMenu::Settings),
        },
        Case {
            name: "MainPanelSwitch(ContentPanel) moves focus to the content panel",
            action: Action::MainPanelSwitch(MainPanel::ContentPanel),
            assert_fn: |s| {
                assert!(!s.main_page.menu_panel.selected);
                assert!(s.main_page.content_panel.selected);
            },
        },
        Case {
            name: "MainPanelSwitch(MainMenu) moves focus back to the menu",
            action: Action::MainPanelSwitch(MainPanel::MainMenu),
            assert_fn: |s| {
                assert!(s.main_page.menu_panel.selected);
                assert!(!s.main_page.content_panel.selected);
            },
        },
        Case {
            name: "CommunitySelect updates the selected index",
            action: Action::CommunitySelect(3),
            assert_fn: |s| assert_eq!(s.main_page.content_panel.communities.selected_index, 3),
        },
        Case {
            name: "CommunityConfirmDelete arms the confirmation",
            action: Action::CommunityConfirmDelete(2),
            assert_fn: |s| {
                assert_eq!(s.main_page.content_panel.communities.confirm_delete, Some(2))
            },
        },
        Case {
            name: "CommunityConfirmLeave arms the leave confirmation",
            action: Action::CommunityConfirmLeave(1),
            assert_fn: |s| {
                assert_eq!(s.main_page.content_panel.communities.confirm_leave, Some(1))
            },
        },
        Case {
            name: "DidConfirmDelete arms the VTA DID confirmation",
            action: Action::DidConfirmDelete(1),
            assert_fn: |s| assert_eq!(s.main_page.content_panel.vta.confirm_delete_did, Some(1)),
        },
    ];

    for case in cases {
        let mut state = State::default();
        let handled = handle_nav_action(&mut state, &case.action);
        assert!(handled, "nav reducer should handle: {}", case.name);
        (case.assert_fn)(&state);
    }
}

#[test]
fn nav_reducer_defers_loop_local_arms() {
    let mut state = State::default();
    let deferred = [
        Action::Exit,
        Action::DeleteCommunity(0),
        Action::DeleteDid(0),
        Action::StartJoin,
        Action::OpenCommunitySwitcher,
        Action::CommunitySwitcherSelect,
        Action::ToggleFavourite(0),
        Action::LeaveCommunity(0),
        Action::ArchiveCommunity(0),
        Action::ToggleShowArchived,
    ];
    for (i, action) in deferred.iter().enumerate() {
        assert!(!handle_nav_action(&mut state, action), "action {i} must reach the loop");
    }
}

#[test]
fn nav_reducer_handles_switcher_navigation() {
    let item = |n: &str| SwitcherItem {
        vtc_did: format!("did:example:{n}"),
        display_name: n.to_string(),
        is_current: false,
    };
    let mut state = State::default();
    state.main_page.switcher = Some(CommunitySwitcherState {
        items: vec![item("a"), item("b"), item("c")],
        selected: 0,
    });

    assert!(handle_nav_action(&mut state, &Action::CommunitySwitcherMove(2)));
    assert_eq!(state.main_page.switcher.as_ref().unwrap().selected, 2);

    assert!(handle_nav_action(&mut state, &Action::CommunitySwitcherMove(99)));
    assert_eq!(state.main_page.switcher.as_ref().unwrap().selected, 2);

    assert!(handle_nav_action(&mut state, &Action::CloseCommunitySwitcher));
    assert!(state.main_page.switcher.is_none());
}
