//! Navigation: what needs nothing but the state.

use crate::actions::Action;
use crate::content::{CommunitiesState, CommunitySwitcherState, ContentPanelState, VtaState};
use crate::main_page::{MainPageState, MainPanel};
use crate::menu::MenuPanelState;
use crate::state::{ActivePage, State};
use vstd::prelude::*;

verus! {

/// The focus on one half of the main page.
pub open spec fn focused(state: State, panel: MainPanel) -> State {
    state.with_main(
        MainPageState {
            menu_panel: MenuPanelState {
                selected: panel is MainMenu,
                ..state.main_page.menu_panel
            },
            content_panel: ContentPanelState {
                selected: panel is ContentPanel,
                ..state.main_page.content_panel
            },
            ..state.main_page
        },
    )
}

/// A row of the community switcher: the one asked for, or the last one.
pub open spec fn switcher_row(i: usize, n: nat) -> usize {
    if n == 0 {
        0
    } else if i < n {
        i
    } else {
        (n - 1) as usize
    }
}

/// The state after a navigation; `None` for any other action.
pub open spec fn navigated(state: State, action: Action) -> Option<State> {
    let c = state.communities();
    let v = state.vta();
    match action {
        Action::DismissLoading => Some(State { active_page: ActivePage::Main, ..state }),
        Action::MainMenuSelected(item) => Some(
            state.with_main(
                MainPageState {
                    menu_panel: MenuPanelState {
                        selected_menu: item,
                        ..state.main_page.menu_panel
                    },
                    ..state.main_page
                },
            ),
        ),
        Action::MainPanelSwitch(panel) => Some(focused(state, panel)),
        Action::CommunitySelect(i) => Some(
            state.with_communities(CommunitiesState { selected_index: i, ..c }),
        ),
        Action::CommunityConfirmDelete(i) => Some(
            state.with_communities(CommunitiesState { confirm_delete: Some(i), ..c }),
        ),
        Action::CommunityCancelDelete => Some(
            state.with_communities(CommunitiesState { confirm_delete: None, ..c }),
        ),
        Action::CommunityConfirmLeave(i) => Some(
            state.with_communities(CommunitiesState { confirm_leave: Some(i), ..c }),
        ),
        Action::CommunityCancelLeave => Some(
            state.with_communities(CommunitiesState { confirm_leave: None, ..c }),
        ),
        Action::CommunityConfirmWithdraw(i) => Some(
            state.with_communities(CommunitiesState { confirm_withdraw: Some(i), ..c }),
        ),
        Action::CommunityCancelWithdraw => Some(
            state.with_communities(CommunitiesState { confirm_withdraw: None, ..c }),
        ),
        Action::CommunitySwitcherMove(i) => Some(
            state.with_main(
                MainPageState {
                    switcher: match state.main_page.switcher {
                        Some(sw) => Some(
                            CommunitySwitcherState {
                                selected: switcher_row(i, sw.items@.len()),
                                ..sw
                            },
                        ),
                        None => None,
                    },
                    ..state.main_page
                },
            ),
        ),
        Action::CloseCommunitySwitcher => Some(
            state.with_main(MainPageState { switcher: None, ..state.main_page }),
        ),
        Action::DidSelect(i) => Some(state.with_vta(VtaState { did_selected_index: i, ..v })),
        Action::DidConfirmDelete(i) => Some(
            state.with_vta(VtaState { confirm_delete_did: Some(i), ..v }),
        ),
        Action::DidCancelDelete => Some(state.with_vta(VtaState { confirm_delete_did: None, ..v })),
        _ => None,
    }
}

/// Navigates; tells whether the action was a navigation.
pub fn handle_nav_action(state: &mut State, action: &Action) -> (r: bool)
    ensures
        match navigated(*old(state), *action) {
            Some(s) => r && *final(state) == s,
            None => !r && *final(state) == *old(state),
        },
{
    match action {
        Action::DismissLoading => {
            state.active_page = ActivePage::Main;
        },
        Action::MainMenuSelected(item) => {
            state.main_page.menu_panel.selected_menu = *item;
        },
        Action::MainPanelSwitch(panel) => match panel {
            MainPanel::ContentPanel => {
                state.main_page.menu_panel.selected = false;
                state.main_page.content_panel.selected = true;
            },
            MainPanel::MainMenu => {
                state.main_page.menu_panel.selected = true;
                state.main_page.content_panel.selected = false;
            },
        },
        Action::CommunitySelect(i) => {
            state.main_page.content_panel.communities.selected_index = *i;
        },
        Action::CommunityConfirmDelete(i) => {
            state.main_page.content_panel.communities.confirm_delete = Some(*i);
        },
        Action::CommunityCancelDelete => {
            state.main_page.content_panel.communities.confirm_delete = None;
        },
        Action::CommunityConfirmLeave(i) => {
            state.main_page.content_panel.communities.confirm_leave = Some(*i);
        },
        Action::CommunityCancelLeave => {
            state.main_page.content_panel.communities.confirm_leave = None;
        },
        Action::CommunityConfirmWithdraw(i) => {
            state.main_page.content_panel.communities.confirm_withdraw = Some(*i);
        },
        Action::CommunityCancelWithdraw => {
            state.main_page.content_panel.communities.confirm_withdraw = None;
        },
        Action::CommunitySwitcherMove(i) => {
            match &mut state.main_page.switcher {
                Some(switcher) => {
                    let n: usize = switcher.items.len();
                    switcher.selected = if n == 0 {
                        0
                    } else if *i < n {
                        *i
                    } else {
                        n - 1
                    };
                },
                None => {},
            }
        },
        Action::CloseCommunitySwitcher => {
            state.main_page.switcher = None;
        },
        Action::DidSelect(i) => {
            state.main_page.content_panel.vta.did_selected_index = *i;
        },
        Action::DidConfirmDelete(i) => {
            state.main_page.content_panel.vta.confirm_delete_did = Some(*i);
        },
        Action::DidCancelDelete => {
            state.main_page.content_panel.vta.confirm_delete_did = None;
        },
        _ => {
            return false;
        },
    }
    true
}

/// The switcher never points past its entries, wherever it is moved.
pub proof fn law_switcher_stays_in_list(state: State, i: usize)
    requires
        state.main_page.switcher matches Some(sw) && sw.items@.len() > 0,
    ensures
        navigated(state, Action::CommunitySwitcherMove(i)) matches Some(s)
            && s.main_page.switcher matches Some(sw) && sw.selected < sw.items@.len(),
{
}

/// Navigation changes neither the connection, nor the log, nor which membership
/// is worked in.
pub proof fn law_navigation_only_navigates(state: State, action: Action)
    ensures
        navigated(state, action) matches Some(s) ==> s.connection == state.connection
            && s.main_page.activity_log == state.main_page.activity_log && s.selected_community
            == state.selected_community && s.setup == state.setup && s.join == state.join,
{
}

/// Moving about goes where it was asked to: the row, the menu entry and the panel
/// that were chosen are the selected ones, and a question is asked of the row that
/// it is about, until it is called off.
pub proof fn law_navigation_goes_where_asked(state: &mut State, action: Action, r: bool)
    requires
        call_ensures(handle_nav_action, (state, &action), r),
    ensures
        !r ==> *final(state) == *old(state),
        action is DismissLoading ==> final(state).active_page is Main,
        action matches Action::MainMenuSelected(item)
            ==> final(state).main_page.menu_panel.selected_menu == item,
        action matches Action::MainPanelSwitch(panel) ==> (
        final(state).main_page.menu_panel.selected <==> panel is MainMenu) && (
        final(state).main_page.content_panel.selected <==> panel is ContentPanel),
        action matches Action::CommunitySelect(i) ==> final(state).communities().selected_index == i,
        action matches Action::CommunityConfirmDelete(i)
            ==> final(state).communities().confirm_delete == Some(i),
        action matches Action::CommunityConfirmLeave(i)
            ==> final(state).communities().confirm_leave == Some(i),
        action matches Action::CommunityConfirmWithdraw(i)
            ==> final(state).communities().confirm_withdraw == Some(i),
        action is CommunityCancelDelete ==> final(state).communities().confirm_delete is None,
        action is CommunityCancelLeave ==> final(state).communities().confirm_leave is None,
        action is CommunityCancelWithdraw ==> final(state).communities().confirm_withdraw is None,
        action is CloseCommunitySwitcher ==> final(state).main_page.switcher is None,
        action matches Action::DidSelect(i) ==> final(state).vta().did_selected_index == i,
        action matches Action::DidConfirmDelete(i) ==> final(state).vta().confirm_delete_did
            == Some(i),
        action is DidCancelDelete ==> final(state).vta().confirm_delete_did is None,
        action matches Action::CommunitySwitcherMove(i) ==> (old(state).main_page.switcher is Some
            && i < old(state).main_page.switcher->0.items@.len() ==> (
        final(state).main_page.switcher matches Some(sw) && sw.selected == i)),
        final(state).connection == old(state).connection,
        final(state).selected_community == old(state).selected_community,
{
}

} // verus!
