//! The control surface: the tray menu, the gestures it answers and the
//! visibility of the main window.

use vstd::prelude::*;
use vstd::string::StringExecFns;

verus! {

/// Identifier of the menu item that shows the main window.
pub const SHOW_ID: &'static str = "show";

/// Identifier of the menu item that hides the main window.
pub const HIDE_ID: &'static str = "hide";

/// Identifier of the menu item that quits the application.
pub const QUIT_ID: &'static str = "quit";

/// Title of the menu item that shows the main window.
pub const SHOW_TITLE: &'static str = "显示窗口";

/// Title of the menu item that hides the main window.
pub const HIDE_TITLE: &'static str = "隐藏窗口";

/// Title of the menu item that quits the application.
pub const QUIT_TITLE: &'static str = "退出";

/// Label of the window that the control surface acts on.
pub const MAIN_WINDOW: &'static str = "main";

/// Exit code with which the application quits.
pub const QUIT_EXIT_CODE: i32 = 0;

/// What the user asks of the control surface.
#[derive(Clone, Copy, Debug, PartialEq, Eq)]
pub enum TrayAction {
    /// Make the main window visible and give it input focus.
    Show,
    /// Make the main window invisible; the worker keeps running.
    Hide,
    /// End the application at once.
    Quit,
}

/// One entry of the tray menu.
#[derive(Clone, Debug, PartialEq, Eq)]
pub enum MenuEntry {
    /// An item that can be chosen.
    Item { id: String, title: String },
    /// A line between groups of items.
    Separator,
}

/// Mathematical model of a [`MenuEntry`].
pub ghost enum EntryView {
    Item { id: Seq<char>, title: Seq<char> },
    Separator,
}

impl View for MenuEntry {
    type V = EntryView;

    open spec fn view(&self) -> EntryView {
        match self {
            MenuEntry::Item { id, title } => EntryView::Item { id: id@, title: title@ },
            MenuEntry::Separator => EntryView::Separator,
        }
    }
}

/// The tray menu: show, hide, a separator, quit.
pub open spec fn tray_menu() -> Seq<EntryView> {
    seq![
        EntryView::Item { id: SHOW_ID@, title: SHOW_TITLE@ },
        EntryView::Item { id: HIDE_ID@, title: HIDE_TITLE@ },
        EntryView::Separator,
        EntryView::Item { id: QUIT_ID@, title: QUIT_TITLE@ },
    ]
}

/// The action behind the menu item with identifier `id`, if it is one of the
/// menu's own.
pub open spec fn action_for_id(id: Seq<char>) -> Option<TrayAction> {
    if id == SHOW_ID@ {
        Some(TrayAction::Show)
    } else if id == HIDE_ID@ {
        Some(TrayAction::Hide)
    } else if id == QUIT_ID@ {
        Some(TrayAction::Quit)
    } else {
        None
    }
}

fn menu_item(id: &str, title: &str) -> (entry: MenuEntry)
    ensures
        entry@ == (EntryView::Item { id: id@, title: title@ }),
{
    MenuEntry::Item { id: String::from_str(id), title: String::from_str(title) }
}

/// Builds the tray menu.
pub fn create_tray_menu() -> (menu: Vec<MenuEntry>)
    ensures
        menu@.map_values(|entry: MenuEntry| entry@) == tray_menu(),
{
    let mut menu: Vec<MenuEntry> = Vec::new();
    menu.push(menu_item(SHOW_ID, SHOW_TITLE));
    menu.push(menu_item(HIDE_ID, HIDE_TITLE));
    menu.push(MenuEntry::Separator);
    menu.push(menu_item(QUIT_ID, QUIT_TITLE));
    menu
}

fn same_text(left: &str, right: &str) -> (same: bool)
    ensures
        same == (left@ == right@),
{
    String::from_str(left) == String::from_str(right)
}

/// The action behind the menu item with identifier `id`. An identifier that
/// the menu does not hold has none.
pub fn menu_action(id: &str) -> (action: Option<TrayAction>)
    ensures
        action == action_for_id(id@),
{
    if same_text(id, SHOW_ID) {
        Some(TrayAction::Show)
    } else if same_text(id, HIDE_ID) {
        Some(TrayAction::Hide)
    } else if same_text(id, QUIT_ID) {
        Some(TrayAction::Quit)
    } else {
        None
    }
}

/// A gesture on the tray icon or its menu.
#[derive(Clone, Debug, PartialEq, Eq)]
pub enum TrayEvent {
    /// The primary activation of the tray icon.
    LeftClick,
    /// A menu item was chosen; carries the item's identifier.
    MenuItemClick(String),
    /// Any other gesture.
    Other,
}

/// Mathematical model of a [`TrayEvent`].
pub ghost enum TrayEventView {
    LeftClick,
    MenuItemClick(Seq<char>),
    Other,
}

impl View for TrayEvent {
    type V = TrayEventView;

    open spec fn view(&self) -> TrayEventView {
        match self {
            TrayEvent::LeftClick => TrayEventView::LeftClick,
            TrayEvent::MenuItemClick(id) => TrayEventView::MenuItemClick(id@),
            TrayEvent::Other => TrayEventView::Other,
        }
    }
}

/// The action that a gesture asks for: the primary activation shows the
/// window, a menu item does what its identifier stands for, and nothing else
/// asks for anything.
pub open spec fn action_for_event(event: TrayEventView) -> Option<TrayAction> {
    match event {
        TrayEventView::LeftClick => Some(TrayAction::Show),
        TrayEventView::MenuItemClick(id) => action_for_id(id),
        TrayEventView::Other => None,
    }
}

/// The action that a gesture asks for.
pub fn tray_action(event: &TrayEvent) -> (action: Option<TrayAction>)
    ensures
        action == action_for_event(event@),
{
    match event {
        TrayEvent::LeftClick => Some(TrayAction::Show),
        TrayEvent::MenuItemClick(id) => menu_action(id.as_str()),
        TrayEvent::Other => None,
    }
}

/// Visibility of the main window.
#[derive(Clone, Copy, Debug, PartialEq, Eq)]
pub enum WindowState {
    Visible,
    Hidden,
}

/// What the application carries out for an action.
#[derive(Clone, Copy, Debug, PartialEq, Eq)]
pub enum ControlEffect {
    /// Nothing to do.
    Nothing,
    /// Make the main window visible and give it input focus.
    ShowAndFocus,
    /// Make the main window invisible.
    HideWindow,
    /// End the process at once with this exit code, without stopping the
    /// worker first.
    Exit { code: i32 },
}

/// The effect of `action`, given whether the main window exists. Showing and
/// hiding do nothing without a window; quitting does not ask for one.
pub open spec fn effect_of(action: TrayAction, window_present: bool) -> ControlEffect {
    match action {
        TrayAction::Show => if window_present {
            ControlEffect::ShowAndFocus
        } else {
            ControlEffect::Nothing
        },
        TrayAction::Hide => if window_present {
            ControlEffect::HideWindow
        } else {
            ControlEffect::Nothing
        },
        TrayAction::Quit => ControlEffect::Exit { code: QUIT_EXIT_CODE },
    }
}

/// The window's visibility after `action`: only showing and hiding a window
/// that exists change it.
pub open spec fn window_after(
    window: WindowState,
    action: TrayAction,
    window_present: bool,
) -> WindowState {
    match action {
        TrayAction::Show => if window_present {
            WindowState::Visible
        } else {
            window
        },
        TrayAction::Hide => if window_present {
            WindowState::Hidden
        } else {
            window
        },
        TrayAction::Quit => window,
    }
}

/// The control surface's state: the visibility of the main window.
#[derive(Debug)]
pub struct ControlSurface {
    window: WindowState,
}

impl ControlSurface {
    /// Visibility of the main window.
    pub closed spec fn window(&self) -> WindowState {
        self.window
    }

    /// The control surface at application start-up: the window is visible.
    pub fn new() -> (surface: Self)
        ensures
            surface.window() == WindowState::Visible,
    {
        ControlSurface { window: WindowState::Visible }
    }

    /// Visibility of the main window.
    pub fn window_state(&self) -> (window: WindowState)
        ensures
            window == self.window(),
    {
        self.window
    }

    /// Takes an action and answers with what the application carries out.
    /// `window_present` says whether the main window exists.
    pub fn apply(&mut self, action: TrayAction, window_present: bool) -> (effect: ControlEffect)
        ensures
            effect == effect_of(action, window_present),
            final(self).window() == window_after(old(self).window(), action, window_present),
    {
        match action {
            TrayAction::Show => {
                if window_present {
                    self.window = WindowState::Visible;
                    ControlEffect::ShowAndFocus
                } else {
                    ControlEffect::Nothing
                }
            },
            TrayAction::Hide => {
                if window_present {
                    self.window = WindowState::Hidden;
                    ControlEffect::HideWindow
                } else {
                    ControlEffect::Nothing
                }
            },
            TrayAction::Quit => ControlEffect::Exit { code: QUIT_EXIT_CODE },
        }
    }
}

/// Every item of the tray menu is answered: its identifier stands for an
/// action, and the three identifiers stand for three different actions.
pub proof fn lemma_menu_items_are_answered()
    ensures
        action_for_id(SHOW_ID@) == Some(TrayAction::Show),
        action_for_id(HIDE_ID@) == Some(TrayAction::Hide),
        action_for_id(QUIT_ID@) == Some(TrayAction::Quit),
        forall|i: int|
            0 <= i < tray_menu().len() ==> (#[trigger] tray_menu()[i] matches EntryView::Item {
                id,
                ..
            } ==> action_for_id(id) is Some),
{
    reveal_strlit("show");
    reveal_strlit("hide");
    reveal_strlit("quit");
    // The identifiers differ in their first letter.
    assert(SHOW_ID@[0] == 's');
    assert(HIDE_ID@[0] == 'h');
    assert(QUIT_ID@[0] == 'q');
}

} // verus!
