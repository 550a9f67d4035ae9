use vstd::prelude::*;
use vstd::string::*;

use crate::browser::{browser_views, MoveTo, UIBrowser, UIBrowserView};
use crate::filter::{filtered_view, get_filtered_browsers, url_parses, verdict_views};
use crate::focus::FocusData;
use crate::geometry::{
    calculate_window_position, recalculate_window_size, visible_count, window_height,
    window_position, window_width, Point, Rect, Size,
};

verus! {

/// The state that the picker's window shows and the dispatcher alone changes.
pub struct UIState {
    pub url: String,
    pub selected_browser: String,
    /// Index of the focused row towards the controller, if a row has focus.
    pub focused_index: Option<usize>,
    /// True while the incognito modifier is held down.
    pub incognito_mode: bool,
    pub browsers: Vec<UIBrowser>,
    /// The rows of `browsers` shown for `url`.
    pub filtered_browsers: Vec<UIBrowser>,
    /// Hidden profiles that can be restored.
    pub restorable_app_profiles: Vec<UIBrowser>,
}

/// The window as a whole never takes focus first: its first row does.
impl FocusData for UIState {
    open spec fn autofocus_spec(&self) -> bool {
        false
    }

    fn has_autofocus(&self) -> (r: bool) {
        false
    }
}

/// A message to the controller, which owns the profiles and launches browsers.
pub enum MessageToMain {
    /// Open the link in the profile at this index, incognito or not.
    OpenLink(usize, bool, String),
    Refresh,
    SetBrowsersAsDefaultBrowser,
    HideAppProfile(String),
    HideAllProfiles(String),
    RestoreAppProfile(String),
    MoveAppProfile(String, MoveTo),
    /// The system handed over a link, from the application with this id.
    LinkOpenedFromBundle(String, String),
}

/// A command on the window's event bus.
pub enum UICommand {
    /// A new link arrived, with the pointer position and the screen's work area at that moment.
    /// `url_matches[i][j]` says whether matcher `j` of row `i` of the current rows accepts the link.
    UrlOpened {
        url: String,
        source_bundle_id: String,
        url_matches: Vec<Vec<bool>>,
        mouse_position: Point,
        screen_rect: Rect,
    },
    ExitApp,
    SetFocusedIndex(Option<usize>),
    /// Open the link in the profile at this index.
    OpenLinkInBrowser(usize),
    OpenLinkInBrowserCompleted,
    CopyLinkToClipboard,
    Refresh,
    /// The controller sent new rows; `url_matches[i][j]` says whether matcher `j` of row `i`
    /// accepts the current link.
    NewBrowsersReceived { browsers: Vec<UIBrowser>, url_matches: Vec<Vec<bool>> },
    NewHiddenBrowsersReceived(Vec<UIBrowser>),
    SetBrowsersAsDefaultBrowser,
    HideProfile(String),
    HideAllProfiles(String),
    RestoreHiddenProfile(String),
    MoveProfile(String, MoveTo),
    ShowAboutDialog,
}

/// Size and top-left corner to give the window.
#[derive(Clone, Copy, Debug, PartialEq, Eq, Structural)]
pub struct WindowPlacement {
    pub size: Size,
    pub position: Point,
}

/// What the host does after a command was reduced.
pub struct CommandEffects {
    pub message: Option<MessageToMain>,
    pub submit: Option<UICommand>,
    pub configure_window: Option<WindowPlacement>,
    /// Bring the window to the front and give it focus.
    pub show_window: bool,
    pub copy_to_clipboard: Option<String>,
    pub show_about: bool,
    /// Quit the application, and end the process should the quit not take.
    pub quit: bool,
}

pub open spec fn no_effects() -> CommandEffects {
    CommandEffects {
        message: None,
        submit: None,
        configure_window: None,
        show_window: false,
        copy_to_clipboard: None,
        show_about: false,
        quit: false,
    }
}

fn nothing() -> (r: CommandEffects)
    ensures
        r == no_effects(),
{
    CommandEffects {
        message: None,
        submit: None,
        configure_window: None,
        show_window: false,
        copy_to_clipboard: None,
        show_about: false,
        quit: false,
    }
}

/// Where the window goes for `row_count` rows shown, the pointer at `mouse` and the work
/// area `screen`.
pub open spec fn placement_for(row_count: nat, mouse: Point, screen: Rect) -> WindowPlacement {
    let size = Size { width: window_width() as i64, height: window_height(visible_count(row_count)) as i64 };
    WindowPlacement { size, position: window_position(mouse, screen, size) }
}

/// The physical key of a keyboard event.
#[derive(Clone, Copy, Debug, PartialEq, Eq, Structural)]
pub enum KeyCode {
    Space,
    Enter,
    ShiftLeft,
    ShiftRight,
    /// A digit of the main row, 0 to 9.
    Digit(u8),
    /// A digit of the numeric pad, 0 to 9.
    Numpad(u8),
    Other,
}

/// The logical key of a keyboard event.
pub enum Key {
    Escape,
    Character(String),
    Other,
}

/// An event that reaches the window before its widgets.
pub enum UIEvent {
    /// A key went down; `copy_modifiers` says whether exactly the platform's copy modifier
    /// is held.
    KeyDown { key: Key, code: KeyCode, copy_modifiers: bool },
    KeyUp { code: KeyCode },
    WindowLostFocus,
    Other,
}

/// What the host does after an event was seen.
pub struct EventEffects {
    pub submit: Option<UICommand>,
    /// Whether the event goes on to the widgets.
    pub pass_on: bool,
}

pub open spec fn is_shift(code: KeyCode) -> bool {
    code == KeyCode::ShiftLeft || code == KeyCode::ShiftRight
}

/// The filtered position a digit key opens: digit `k` opens the row at position `k`.
pub open spec fn hotkey_position(digit: u8) -> int {
    digit as int
}

/// The digit of a digit key, from either the main row or the numeric pad.
pub open spec fn hotkey_digit(code: KeyCode) -> Option<u8> {
    match code {
        KeyCode::Digit(d) => if d <= 9 { Some(d) } else { None },
        KeyCode::Numpad(d) => if d <= 9 { Some(d) } else { None },
        _ => None,
    }
}

/// Opening the row at `position` of the filtered view, if there is one.
pub open spec fn open_filtered_command(filtered: Seq<UIBrowserView>, position: int) -> Option<UICommand> {
    if 0 <= position < filtered.len() {
        Some(UICommand::OpenLinkInBrowser(filtered[position].browser_profile_index as usize))
    } else {
        None
    }
}

pub open spec fn is_copy_shortcut(key: Key, copy_modifiers: bool) -> bool {
    copy_modifiers && match key {
        Key::Character(s) => s@ == seq!['c'],
        _ => false,
    }
}

/// The command a key press submits, other than Escape.
pub open spec fn key_down_command(
    focused_index: Option<usize>,
    filtered: Seq<UIBrowserView>,
    key: Key,
    code: KeyCode,
    copy_modifiers: bool,
) -> Option<UICommand> {
    if is_copy_shortcut(key, copy_modifiers) {
        Some(UICommand::CopyLinkToClipboard)
    } else if code == KeyCode::Space || code == KeyCode::Enter {
        match focused_index {
            Some(i) => Some(UICommand::OpenLinkInBrowser(i)),
            None => None,
        }
    } else {
        match hotkey_digit(code) {
            Some(d) => open_filtered_command(filtered, hotkey_position(d)),
            None => None,
        }
    }
}

/// The incognito flag after `event`: set while a Shift key is pressed, cleared when it is
/// released, untouched by anything else.
pub open spec fn incognito_step(incognito: bool, event: UIEvent) -> bool {
    match event {
        UIEvent::KeyDown { key, code, copy_modifiers } =>
            if key is Escape || is_copy_shortcut(key, copy_modifiers) { incognito }
            else if is_shift(code) { true } else { incognito },
        UIEvent::KeyUp { code } => if is_shift(code) { false } else { incognito },
        _ => incognito,
    }
}

/// The incognito flag after a run of events.
pub open spec fn incognito_after(incognito: bool, events: Seq<UIEvent>) -> bool
    decreases events.len(),
{
    if events.len() == 0 {
        incognito
    } else {
        incognito_step(incognito_after(incognito, events.drop_last()), events.last())
    }
}

/// Whether `event` is a Shift key going down (`Some(true)`) or up (`Some(false)`).
pub open spec fn shift_transition(event: UIEvent) -> Option<bool> {
    match event {
        UIEvent::KeyDown { key, code, copy_modifiers } =>
            if !(key is Escape) && !is_copy_shortcut(key, copy_modifiers) && is_shift(code) { Some(true) } else { None },
        UIEvent::KeyUp { code } => if is_shift(code) { Some(false) } else { None },
        _ => None,
    }
}

/// The state of the Shift keys after a run of events: that of the last Shift transition,
/// else `initial`.
pub open spec fn shift_held_after(initial: bool, events: Seq<UIEvent>) -> bool
    decreases events.len(),
{
    if events.len() == 0 {
        initial
    } else {
        match shift_transition(events.last()) {
            Some(held) => held,
            None => shift_held_after(initial, events.drop_last()),
        }
    }
}

/// The incognito flag tracks the Shift keys: after any run of events it says whether the
/// last Shift transition was a press, whatever other keys came between.
pub proof fn lemma_incognito_follows_shift(initial: bool, events: Seq<UIEvent>)
    ensures
        incognito_after(initial, events) == shift_held_after(initial, events),
    decreases events.len(),
{
    if events.len() > 0 {
        lemma_incognito_follows_shift(initial, events.drop_last());
    }
}

/// Digit `k`, on the main row or the numeric pad, opens the row at filtered position `k`
/// when the view has one, and does nothing otherwise; the row it opens carries that position.
pub proof fn lemma_digit_hotkeys(
    focused_index: Option<usize>,
    filtered: Seq<UIBrowserView>,
    key: Key,
    code: KeyCode,
    copy_modifiers: bool,
)
    requires
        hotkey_digit(code) is Some,
        !is_copy_shortcut(key, copy_modifiers),
        forall|k: int| 0 <= k < filtered.len() ==> #[trigger] filtered[k].filtered_index == k,
    ensures
        ({
            let position = hotkey_position(hotkey_digit(code)->0);
            &&& position == hotkey_digit(code)->0 as int
            &&& 0 <= position <= 9
            &&& position < filtered.len() ==> filtered[position].filtered_index == position
                && key_down_command(focused_index, filtered, key, code, copy_modifiers)
                == Some(UICommand::OpenLinkInBrowser(filtered[position].browser_profile_index as usize))
            &&& position >= filtered.len() ==> key_down_command(focused_index, filtered, key, code, copy_modifiers)
                is None
        }),
{
}

fn is_letter_c(s: &String) -> (r: bool)
    ensures
        r == (s@ == seq!['c']),
{
    let s = s.as_str();
    if s.unicode_len() != 1 {
        return false;
    }
    let c = s.get_char(0);
    assert(c == 'c' ==> s@ =~= seq!['c']);
    c == 'c'
}

fn copy_shortcut(key: &Key, copy_modifiers: bool) -> (r: bool)
    ensures
        r == is_copy_shortcut(*key, copy_modifiers),
{
    if !copy_modifiers {
        return false;
    }
    match key {
        Key::Character(s) => is_letter_c(s),
        _ => false,
    }
}

fn digit_of(code: KeyCode) -> (r: Option<u8>)
    ensures
        r == hotkey_digit(code),
{
    match code {
        KeyCode::Digit(d) => if d <= 9 { Some(d) } else { None },
        KeyCode::Numpad(d) => if d <= 9 { Some(d) } else { None },
        _ => None,
    }
}

/// The part of the window's delegate that decides: where the pointer and the work area
/// were when the window was last placed, and whether losing focus quits.
pub struct UIDelegate {
    pub mouse_position: Point,
    /// The monitor's work area, already inset by the margin kept round the screen.
    pub screen_rect: Rect,
    pub quit_on_lost_focus: bool,
}

impl UIDelegate {
    /// The command that opens the row at `filtered_profile_index` of the filtered view, if
    /// there is such a row.
    pub fn open_link_in_filtered_browser(&self, data: &UIState, filtered_profile_index: usize) -> (r: Option<UICommand>)
        ensures
            r == open_filtered_command(browser_views(data.filtered_browsers@), filtered_profile_index as int),
    {
        if filtered_profile_index < data.filtered_browsers.len() {
            let browser_index = data.filtered_browsers[filtered_profile_index].browser_profile_index;
            Some(UICommand::OpenLinkInBrowser(browser_index))
        } else {
            None
        }
    }

    /// Reduces a window event: Escape, and losing focus where configured, exit; the copy
    /// shortcut copies the link; Space and Enter open the focused row; digit keys open rows
    /// by position; Shift sets the incognito flag while held.
    pub fn event(&self, data: &mut UIState, event: UIEvent) -> (r: EventEffects)
        ensures
            final(data).url == old(data).url,
            final(data).selected_browser == old(data).selected_browser,
            final(data).focused_index == old(data).focused_index,
            final(data).browsers == old(data).browsers,
            final(data).filtered_browsers == old(data).filtered_browsers,
            final(data).restorable_app_profiles == old(data).restorable_app_profiles,
            final(data).incognito_mode == incognito_step(old(data).incognito_mode, event),
            match event {
                UIEvent::KeyDown { key, code, copy_modifiers } => if key is Escape {
                    r.submit == Some(UICommand::ExitApp) && !r.pass_on
                } else {
                    r.submit == key_down_command(
                        old(data).focused_index,
                        browser_views(old(data).filtered_browsers@),
                        key,
                        code,
                        copy_modifiers,
                    ) && r.pass_on
                },
                UIEvent::WindowLostFocus => if self.quit_on_lost_focus {
                    r.submit == Some(UICommand::ExitApp) && !r.pass_on
                } else {
                    r.submit is None && r.pass_on
                },
                _ => r.submit is None && r.pass_on,
            },
    {
        match event {
            UIEvent::KeyDown { key, code, copy_modifiers } => {
                if let Key::Escape = key {
                    return EventEffects { submit: Some(UICommand::ExitApp), pass_on: false };
                }
                if copy_shortcut(&key, copy_modifiers) {
                    return EventEffects { submit: Some(UICommand::CopyLinkToClipboard), pass_on: true };
                }
                let submit = match code {
                    KeyCode::Space | KeyCode::Enter => match data.focused_index {
                        Some(i) => Some(UICommand::OpenLinkInBrowser(i)),
                        None => None,
                    },
                    KeyCode::ShiftLeft | KeyCode::ShiftRight => {
                        data.incognito_mode = true;
                        None
                    },
                    _ => match digit_of(code) {
                        Some(d) => {
                            let position: usize = d as usize;
                            self.open_link_in_filtered_browser(data, position)
                        },
                        None => None,
                    },
                };
                EventEffects { submit, pass_on: true }
            },
            UIEvent::KeyUp { code } => {
                if let KeyCode::ShiftLeft | KeyCode::ShiftRight = code {
                    data.incognito_mode = false;
                }
                EventEffects { submit: None, pass_on: true }
            },
            UIEvent::WindowLostFocus => {
                if self.quit_on_lost_focus {
                    EventEffects { submit: Some(UICommand::ExitApp), pass_on: false }
                } else {
                    EventEffects { submit: None, pass_on: true }
                }
            },
            UIEvent::Other => EventEffects { submit: None, pass_on: true },
        }
    }
    /// Size and place of the window for `filtered_browsers`, the pointer at `mouse_position`
    /// and the work area `screen_rect`.
    fn placement(filtered_browsers: &Vec<UIBrowser>, mouse_position: &Point, screen_rect: &Rect) -> (r: WindowPlacement)
        ensures
            r == placement_for(filtered_browsers@.len(), *mouse_position, *screen_rect),
    {
        let size = recalculate_window_size(filtered_browsers);
        let position = calculate_window_position(mouse_position, screen_rect, &size);
        WindowPlacement { size, position }
    }

    /// Reduces a command. A new link or new rows re-filter the view and place the window
    /// again; the controller hears of opened links and of requests on profiles; exiting, or
    /// the end of opening a link, quits.
    pub fn command(&mut self, data: &mut UIState, cmd: UICommand) -> (r: CommandEffects)
        ensures
            match cmd {
                UICommand::UrlOpened { url, source_bundle_id, url_matches, mouse_position, screen_rect } => {
                    &&& *final(data) == (UIState { url: url, filtered_browsers: final(data).filtered_browsers, ..*old(data) })
                    &&& browser_views(final(data).filtered_browsers@)
                        == filtered_view(browser_views(old(data).browsers@), url_parses(url@), verdict_views(url_matches@))
                    &&& *final(self) == (UIDelegate { mouse_position: mouse_position, screen_rect: screen_rect, ..*old(self) })
                    &&& r == (CommandEffects {
                        message: Some(MessageToMain::LinkOpenedFromBundle(source_bundle_id, url)),
                        configure_window: Some(placement_for(final(data).filtered_browsers@.len(), mouse_position, screen_rect)),
                        show_window: true,
                        ..no_effects()
                    })
                },
                UICommand::NewBrowsersReceived { browsers, url_matches } => {
                    &&& *final(data) == (UIState { browsers: browsers, filtered_browsers: final(data).filtered_browsers, ..*old(data) })
                    &&& browser_views(final(data).filtered_browsers@)
                        == filtered_view(browser_views(browsers@), url_parses(old(data).url@), verdict_views(url_matches@))
                    &&& *final(self) == *old(self)
                    &&& r == (CommandEffects {
                        configure_window: Some(placement_for(
                            final(data).filtered_browsers@.len(),
                            old(self).mouse_position,
                            old(self).screen_rect,
                        )),
                        ..no_effects()
                    })
                },
                UICommand::NewHiddenBrowsersReceived(hidden) => {
                    &&& *final(data) == (UIState { restorable_app_profiles: hidden, ..*old(data) })
                    &&& *final(self) == *old(self)
                    &&& r == no_effects()
                },
                UICommand::SetFocusedIndex(index) => {
                    &&& *final(data) == (UIState { focused_index: index, ..*old(data) })
                    &&& *final(self) == *old(self)
                    &&& r == no_effects()
                },
                _ => {
                    &&& *final(data) == *old(data)
                    &&& *final(self) == *old(self)
                    &&& r == match cmd {
                        UICommand::ExitApp => CommandEffects { quit: true, ..no_effects() },
                        UICommand::OpenLinkInBrowser(index) => CommandEffects {
                            message: Some(MessageToMain::OpenLink(index, old(data).incognito_mode, old(data).url)),
                            ..no_effects()
                        },
                        UICommand::OpenLinkInBrowserCompleted => CommandEffects {
                            submit: Some(UICommand::ExitApp),
                            ..no_effects()
                        },
                        UICommand::CopyLinkToClipboard => CommandEffects {
                            copy_to_clipboard: Some(old(data).url),
                            ..no_effects()
                        },
                        UICommand::Refresh => CommandEffects { message: Some(MessageToMain::Refresh), ..no_effects() },
                        UICommand::SetBrowsersAsDefaultBrowser => CommandEffects {
                            message: Some(MessageToMain::SetBrowsersAsDefaultBrowser),
                            ..no_effects()
                        },
                        UICommand::HideProfile(id) => CommandEffects {
                            message: Some(MessageToMain::HideAppProfile(id)),
                            ..no_effects()
                        },
                        UICommand::HideAllProfiles(app_id) => CommandEffects {
                            message: Some(MessageToMain::HideAllProfiles(app_id)),
                            ..no_effects()
                        },
                        UICommand::RestoreHiddenProfile(id) => CommandEffects {
                            message: Some(MessageToMain::RestoreAppProfile(id)),
                            ..no_effects()
                        },
                        UICommand::MoveProfile(id, move_to) => CommandEffects {
                            message: Some(MessageToMain::MoveAppProfile(id, move_to)),
                            ..no_effects()
                        },
                        UICommand::ShowAboutDialog => CommandEffects { show_about: true, ..no_effects() },
                        _ => no_effects(),
                    }
                },
            },
    {
        let none = nothing();
        match cmd {
            UICommand::ExitApp => CommandEffects { quit: true, ..none },
            UICommand::UrlOpened { url, source_bundle_id, url_matches, mouse_position, screen_rect } => {
                let filtered = get_filtered_browsers(url.as_str(), &data.browsers, &url_matches);
                data.filtered_browsers = filtered;
                let link = url.clone();
                data.url = url;
                self.mouse_position = mouse_position;
                self.screen_rect = screen_rect;
                let placement = Self::placement(&data.filtered_browsers, &self.mouse_position, &self.screen_rect);
                CommandEffects {
                    message: Some(MessageToMain::LinkOpenedFromBundle(source_bundle_id, link)),
                    configure_window: Some(placement),
                    show_window: true,
                    ..none
                }
            },
            UICommand::SetFocusedIndex(index) => {
                data.focused_index = index;
                none
            },
            UICommand::CopyLinkToClipboard => CommandEffects { copy_to_clipboard: Some(data.url.clone()), ..none },
            UICommand::OpenLinkInBrowser(index) => CommandEffects {
                message: Some(MessageToMain::OpenLink(index, data.incognito_mode, data.url.clone())),
                ..none
            },
            UICommand::OpenLinkInBrowserCompleted => CommandEffects { submit: Some(UICommand::ExitApp), ..none },
            UICommand::Refresh => CommandEffects { message: Some(MessageToMain::Refresh), ..none },
            UICommand::NewBrowsersReceived { browsers, url_matches } => {
                data.browsers = browsers;
                let filtered = get_filtered_browsers(data.url.as_str(), &data.browsers, &url_matches);
                data.filtered_browsers = filtered;
                let placement = Self::placement(&data.filtered_browsers, &self.mouse_position, &self.screen_rect);
                CommandEffects { configure_window: Some(placement), ..none }
            },
            UICommand::NewHiddenBrowsersReceived(hidden) => {
                data.restorable_app_profiles = hidden;
                none
            },
            UICommand::SetBrowsersAsDefaultBrowser => CommandEffects {
                message: Some(MessageToMain::SetBrowsersAsDefaultBrowser),
                ..none
            },
            UICommand::HideAllProfiles(app_id) => CommandEffects { message: Some(MessageToMain::HideAllProfiles(app_id)), ..none },
            UICommand::HideProfile(id) => CommandEffects { message: Some(MessageToMain::HideAppProfile(id)), ..none },
            UICommand::RestoreHiddenProfile(id) => CommandEffects {
                message: Some(MessageToMain::RestoreAppProfile(id)),
                ..none
            },
            UICommand::MoveProfile(id, move_to) => CommandEffects {
                message: Some(MessageToMain::MoveAppProfile(id, move_to)),
                ..none
            },
            UICommand::ShowAboutDialog => CommandEffects { show_about: true, ..none },
        }
    }
}

} // verus!
