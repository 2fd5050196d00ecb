//! The main menu.

use vstd::prelude::*;

verus! {

/// State of the menu panel.
#[derive(Clone, Debug)]
pub struct MenuPanelState {
    /// Whether the menu has the focus.
    pub selected: bool,
    /// The highlighted item.
    pub selected_menu: MainMenu,
}

impl Default for MenuPanelState {
    fn default() -> (r: Self)
        ensures
            r.selected,
            r.selected_menu is Communities,
    {
        MenuPanelState { selected: true, selected_menu: MainMenu::Communities }
    }
}

/// The items of the main menu, in order.
#[derive(Clone, Copy, Debug, PartialEq, Eq, Structural)]
pub enum MainMenu {
    /// Communities overview, the landing page.
    Communities,
    Inbox,
    Relationships,
    Credentials,
    Settings,
    Vta,
    /// Opens the create-persona overlay instead of a panel.
    CreatePersona,
    Logs,
    Help,
    Quit,
}

impl Default for MainMenu {
    fn default() -> (r: Self)
        ensures
            r is Communities,
    {
        MainMenu::Communities
    }
}

impl MainMenu {
    /// The position of an item in the menu.
    pub open spec fn place(self) -> int {
        match self {
            MainMenu::Communities => 0,
            MainMenu::Inbox => 1,
            MainMenu::Relationships => 2,
            MainMenu::Credentials => 3,
            MainMenu::Settings => 4,
            MainMenu::Vta => 5,
            MainMenu::CreatePersona => 6,
            MainMenu::Logs => 7,
            MainMenu::Help => 8,
            MainMenu::Quit => 9,
        }
    }

    /// The item above this one; the last one above the first.
    pub fn prev(&self) -> (r: MainMenu)
        ensures
            r.place() == (self.place() + 9) % 10,
    {
        match self {
            MainMenu::Communities => MainMenu::Quit,
            MainMenu::Inbox => MainMenu::Communities,
            MainMenu::Relationships => MainMenu::Inbox,
            MainMenu::Credentials => MainMenu::Relationships,
            MainMenu::Settings => MainMenu::Credentials,
            MainMenu::Vta => MainMenu::Settings,
            MainMenu::CreatePersona => MainMenu::Vta,
            MainMenu::Logs => MainMenu::CreatePersona,
            MainMenu::Help => MainMenu::Logs,
            MainMenu::Quit => MainMenu::Help,
        }
    }

    /// The item below this one; the first one below the last.
    pub fn next(&self) -> (r: MainMenu)
        ensures
            r.place() == (self.place() + 1) % 10,
    {
        match self {
            MainMenu::Communities => MainMenu::Inbox,
            MainMenu::Inbox => MainMenu::Relationships,
            MainMenu::Relationships => MainMenu::Credentials,
            MainMenu::Credentials => MainMenu::Settings,
            MainMenu::Settings => MainMenu::Vta,
            MainMenu::Vta => MainMenu::CreatePersona,
            MainMenu::CreatePersona => MainMenu::Logs,
            MainMenu::Logs => MainMenu::Help,
            MainMenu::Help => MainMenu::Quit,
            MainMenu::Quit => MainMenu::Communities,
        }
    }

    /// The caption of an item.
    pub open spec fn title_view(self) -> Seq<char> {
        match self {
            MainMenu::Communities => "Communities"@,
            MainMenu::Inbox => "Inbox"@,
            MainMenu::Relationships => "My Relationships"@,
            MainMenu::Credentials => "My Credentials"@,
            MainMenu::Settings => "Settings"@,
            MainMenu::Vta => "VTA Service"@,
            MainMenu::CreatePersona => "Create Persona DID"@,
            MainMenu::Logs => "Logs"@,
            MainMenu::Help => "Help / Status"@,
            MainMenu::Quit => "Quit"@,
        }
    }

    /// The caption of an item.
    pub fn title(&self) -> (r: &'static str)
        ensures
            r@ == self.title_view(),
    {
        match self {
            MainMenu::Communities => "Communities",
            MainMenu::Inbox => "Inbox",
            MainMenu::Relationships => "My Relationships",
            MainMenu::Credentials => "My Credentials",
            MainMenu::Settings => "Settings",
            MainMenu::Vta => "VTA Service",
            MainMenu::CreatePersona => "Create Persona DID",
            MainMenu::Logs => "Logs",
            MainMenu::Help => "Help / Status",
            MainMenu::Quit => "Quit",
        }
    }
}

/// An item is known by its position.
pub proof fn lemma_place_injective(a: MainMenu, b: MainMenu)
    requires
        a.place() == b.place(),
    ensures
        a == b,
{
}

/// Stepping down and then up, or up and then down, returns to the same item:
/// whatever `next` and `prev` answer meets their contracts only so.
pub proof fn law_menu_steps_undo(
    item: MainMenu,
    below: MainMenu,
    up_again: MainMenu,
    above: MainMenu,
    down_again: MainMenu,
)
    requires
        below.place() == (item.place() + 1) % 10,
        up_again.place() == (below.place() + 9) % 10,
        above.place() == (item.place() + 9) % 10,
        down_again.place() == (above.place() + 1) % 10,
    ensures
        up_again == item,
        down_again == item,
{
    lemma_place_injective(up_again, item);
    lemma_place_injective(down_again, item);
}

} // verus!
