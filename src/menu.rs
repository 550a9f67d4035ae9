use vstd::prelude::*;

use crate::browser::{MoveTo, UIBrowser};
use crate::dispatch::UICommand;

verus! {

/// The text of a row's context-menu entry; the entry's `name` fills it in.
#[derive(Clone, Copy, Debug, PartialEq, Eq, Structural)]
pub enum ContextMenuLabel {
    MoveProfileToTop,
    MoveProfileHigher,
    MoveProfileLower,
    MoveProfileToBottom,
    HideProfile,
    HideApp,
}

/// One entry of a row's context menu.
pub struct ContextMenuItem {
    pub label: ContextMenuLabel,
    /// The profile's full name, or the application's name for `HideApp`.
    pub name: String,
    pub enabled: bool,
    pub command: UICommand,
}

pub open spec fn context_menu_item_view(i: ContextMenuItem) -> (ContextMenuLabel, Seq<char>, bool, UICommand) {
    (i.label, i.name@, i.enabled, i.command)
}

/// The context menu of `b`: rows not restricted to some links can be moved (up only when
/// not first, down only when not last); every row can be hidden, and an application with
/// profiles can be hidden whole.
pub open spec fn context_menu_spec(b: UIBrowser) -> Seq<(ContextMenuLabel, Seq<char>, bool, UICommand)> {
    let name = b@.full_name();
    let moves = if b@.has_priority_ordering() {
        Seq::empty()
    } else {
        seq![
            (ContextMenuLabel::MoveProfileToTop, name, !b.is_first, UICommand::MoveProfile(b.unique_id, MoveTo::TOP)),
            (ContextMenuLabel::MoveProfileHigher, name, !b.is_first, UICommand::MoveProfile(b.unique_id, MoveTo::UP)),
            (ContextMenuLabel::MoveProfileLower, name, !b.is_last, UICommand::MoveProfile(b.unique_id, MoveTo::DOWN)),
            (ContextMenuLabel::MoveProfileToBottom, name, !b.is_last, UICommand::MoveProfile(b.unique_id, MoveTo::BOTTOM)),
        ]
    };
    let hide = seq![(ContextMenuLabel::HideProfile, name, true, UICommand::HideProfile(b.unique_id))];
    let hide_app = if b.supports_profiles {
        seq![(ContextMenuLabel::HideApp, b.browser_name@, true, UICommand::HideAllProfiles(b.unique_app_id))]
    } else {
        Seq::empty()
    };
    moves + hide + hide_app
}

/// The entries of `browser`'s context menu.
pub fn make_context_menu(browser: &UIBrowser) -> (r: Vec<ContextMenuItem>)
    ensures
        r@.map_values(|i: ContextMenuItem| context_menu_item_view(i)) == context_menu_spec(*browser),
{
    let mut menu: Vec<ContextMenuItem> = Vec::new();
    if !browser.has_priority_ordering() {
        let can_move_up = !browser.is_first;
        let can_move_down = !browser.is_last;
        menu.push(ContextMenuItem {
            label: ContextMenuLabel::MoveProfileToTop,
            name: browser.get_full_name(),
            enabled: can_move_up,
            command: UICommand::MoveProfile(browser.unique_id.clone(), MoveTo::TOP),
        });
        menu.push(ContextMenuItem {
            label: ContextMenuLabel::MoveProfileHigher,
            name: browser.get_full_name(),
            enabled: can_move_up,
            command: UICommand::MoveProfile(browser.unique_id.clone(), MoveTo::UP),
        });
        menu.push(ContextMenuItem {
            label: ContextMenuLabel::MoveProfileLower,
            name: browser.get_full_name(),
            enabled: can_move_down,
            command: UICommand::MoveProfile(browser.unique_id.clone(), MoveTo::DOWN),
        });
        menu.push(ContextMenuItem {
            label: ContextMenuLabel::MoveProfileToBottom,
            name: browser.get_full_name(),
            enabled: can_move_down,
            command: UICommand::MoveProfile(browser.unique_id.clone(), MoveTo::BOTTOM),
        });
    }
    menu.push(ContextMenuItem {
        label: ContextMenuLabel::HideProfile,
        name: browser.get_full_name(),
        enabled: true,
        command: UICommand::HideProfile(browser.unique_id.clone()),
    });
    if browser.supports_profiles {
        menu.push(ContextMenuItem {
            label: ContextMenuLabel::HideApp,
            name: browser.browser_name.clone(),
            enabled: true,
            command: UICommand::HideAllProfiles(browser.unique_app_id.clone()),
        });
    }
    assert(menu@.map_values(|i: ContextMenuItem| context_menu_item_view(i)) =~= context_menu_spec(*browser));
    menu
}

/// One entry of the submenu that restores hidden profiles.
pub enum HiddenAppsMenuItem {
    /// Restore the profile with this full name.
    Restore { name: String, command: UICommand },
    /// The disabled entry shown when nothing is hidden.
    NoHiddenApps,
}

/// Whether `item` restores `b`, under its full name.
pub open spec fn restores(item: HiddenAppsMenuItem, b: UIBrowser) -> bool {
    match item {
        HiddenAppsMenuItem::Restore { name, command } =>
            name@ == b@.full_name() && command == UICommand::RestoreHiddenProfile(b.unique_id),
        HiddenAppsMenuItem::NoHiddenApps => false,
    }
}

/// The restore submenu: one entry per hidden profile, in order, or the single disabled
/// entry when there is none.
pub fn make_hidden_apps_menu(hidden_profiles: &Vec<UIBrowser>) -> (r: Vec<HiddenAppsMenuItem>)
    ensures
        hidden_profiles@.len() == 0 ==> r@.len() == 1 && r@[0] is NoHiddenApps,
        hidden_profiles@.len() > 0 ==> r@.len() == hidden_profiles@.len()
            && forall|k: int| 0 <= k < r@.len() ==> restores(#[trigger] r@[k], hidden_profiles@[k]),
{
    let mut menu: Vec<HiddenAppsMenuItem> = Vec::new();
    if hidden_profiles.len() == 0 {
        menu.push(HiddenAppsMenuItem::NoHiddenApps);
        return menu;
    }
    let mut i: usize = 0;
    while i < hidden_profiles.len()
        invariant
            i <= hidden_profiles@.len(),
            menu@.len() == i,
            forall|k: int| 0 <= k < i ==> restores(#[trigger] menu@[k], hidden_profiles@[k]),
        decreases hidden_profiles@.len() - i,
    {
        let profile = &hidden_profiles[i];
        menu.push(HiddenAppsMenuItem::Restore {
            name: profile.get_full_name(),
            command: UICommand::RestoreHiddenProfile(profile.unique_id.clone()),
        });
        i = i + 1;
    }
    menu
}

/// One entry of the options menu.
#[derive(Clone, Copy, Debug, PartialEq, Eq, Structural)]
pub enum OptionsMenuItem {
    Refresh,
    MakeBrowsersDefault,
    /// The submenu of [`make_hidden_apps_menu`].
    Restore,
    About,
    Quit,
}

pub open spec fn options_menu_spec(show_set_as_default: bool) -> Seq<OptionsMenuItem> {
    seq![OptionsMenuItem::Refresh]
        + (if show_set_as_default { seq![OptionsMenuItem::MakeBrowsersDefault] } else { Seq::empty() })
        + seq![OptionsMenuItem::Restore, OptionsMenuItem::About, OptionsMenuItem::Quit]
}

pub open spec fn options_command_spec(item: OptionsMenuItem) -> Option<UICommand> {
    match item {
        OptionsMenuItem::Refresh => Some(UICommand::Refresh),
        OptionsMenuItem::MakeBrowsersDefault => Some(UICommand::SetBrowsersAsDefaultBrowser),
        OptionsMenuItem::Restore => None,
        OptionsMenuItem::About => Some(UICommand::ShowAboutDialog),
        OptionsMenuItem::Quit => Some(UICommand::ExitApp),
    }
}

impl OptionsMenuItem {
    /// The command the entry submits when chosen; the submenu submits none itself.
    pub fn command(&self) -> (r: Option<UICommand>)
        ensures
            r == options_command_spec(*self),
    {
        match self {
            OptionsMenuItem::Refresh => Some(UICommand::Refresh),
            OptionsMenuItem::MakeBrowsersDefault => Some(UICommand::SetBrowsersAsDefaultBrowser),
            OptionsMenuItem::Restore => None,
            OptionsMenuItem::About => Some(UICommand::ShowAboutDialog),
            OptionsMenuItem::Quit => Some(UICommand::ExitApp),
        }
    }
}

/// The options menu: Refresh, then the default-browser entry where it is offered, then
/// the restore submenu, About and Quit.
pub fn make_options_menu(show_set_as_default: bool) -> (r: Vec<OptionsMenuItem>)
    ensures
        r@ == options_menu_spec(show_set_as_default),
{
    let mut menu: Vec<OptionsMenuItem> = Vec::new();
    menu.push(OptionsMenuItem::Refresh);
    if show_set_as_default {
        menu.push(OptionsMenuItem::MakeBrowsersDefault);
    }
    menu.push(OptionsMenuItem::Restore);
    menu.push(OptionsMenuItem::About);
    menu.push(OptionsMenuItem::Quit);
    assert(menu@ =~= options_menu_spec(show_set_as_default));
    menu
}

} // verus!
