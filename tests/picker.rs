use browsers::dispatch::{
    CommandEffects, Key, KeyCode, UIEvent, WindowPlacement,
};
use browsers::filter::{any_matcher_accepts, filter_browsers, get_filtered_browsers};
use browsers::focus::{
    focus_event_response, focus_lifecycle_response, FocusLifecycle, FocusMove, FocusWidgetEvent,
};
use browsers::geometry::{Point, Rect, Size};
use browsers::menu::{
    make_context_menu, make_hidden_apps_menu, make_options_menu, ContextMenuLabel,
    HiddenAppsMenuItem, OptionsMenuItem,
};
use browsers::ui::{browser_label_text, hotkey_number};
use browsers::{
    CommonBrowserProfile, FocusData, MessageToMain, MoveTo, UIBrowser, UICommand, UIConfig,
    UIDelegate, UIImageController, UIState, UI,
};

fn entry(index: usize, name: &str, matchers: &[&str]) -> UIBrowser {
    UIBrowser {
        browser_profile_index: index,
        is_first: false,
        is_last: false,
        restricted_url_matchers: matchers.iter().map(|m| m.to_string()).collect(),
        browser_name: name.to_string(),
        profile_name: String::new(),
        profile_name_maybe: None,
        supports_profiles: false,
        supports_incognito: true,
        icon_path: String::new(),
        profile_icon_path: String::new(),
        unique_id: format!("id-{}", name),
        unique_app_id: format!("app-{}", name),
        filtered_index: 0,
    }
}

/// One verdict per row, for rows with a single matcher.
fn verdicts(flags: &[bool]) -> Vec<Vec<bool>> {
    flags.iter().map(|&f| vec![f]).collect()
}

fn names(v: &[UIBrowser]) -> Vec<String> {
    v.iter().map(|b| b.browser_name.clone()).collect()
}

fn sample() -> Vec<UIBrowser> {
    vec![
        entry(0, "firefox", &[]),
        entry(1, "work", &["*.corp.example"]),
        entry(2, "chrome", &[]),
        entry(3, "docs", &["docs.example"]),
        entry(4, "safari", &[]),
    ]
}

#[test]
fn filter_puts_pinned_rows_first_in_order() {
    let rows = filter_browsers(true, &sample(), &verdicts(&[false, true, false, true, false]));
    assert_eq!(names(&rows), vec!["work", "docs", "firefox", "chrome", "safari"]);
    let positions: Vec<usize> = rows.iter().map(|b| b.filtered_index).collect();
    assert_eq!(positions, vec![0, 1, 2, 3, 4]);
    let indices: Vec<usize> = rows.iter().map(|b| b.browser_profile_index).collect();
    assert_eq!(indices, vec![1, 3, 0, 2, 4]);
}

#[test]
fn filter_drops_unmatched_pinned_rows() {
    let rows = filter_browsers(true, &sample(), &verdicts(&[false, false, false, true, false]));
    assert_eq!(names(&rows), vec!["docs", "firefox", "chrome", "safari"]);
    let short = filter_browsers(true, &sample(), &verdicts(&[true]));
    assert_eq!(names(&short), vec!["firefox", "chrome", "safari"]);
}

#[test]
fn filter_drops_pinned_rows_for_unparsed_link() {
    let rows = filter_browsers(false, &sample(), &verdicts(&[true, true, true, true, true]));
    assert_eq!(names(&rows), vec!["firefox", "chrome", "safari"]);
    assert_eq!(rows[2].filtered_index, 2);
}

#[test]
fn row_kept_when_any_matcher_accepts() {
    let rows = vec![entry(0, "two", &["a", "b"]), entry(1, "plain", &[])];
    let kept = filter_browsers(true, &rows, &vec![vec![false, true], vec![]]);
    assert_eq!(names(&kept), vec!["two", "plain"]);
    let dropped = filter_browsers(true, &rows, &vec![vec![false, false], vec![]]);
    assert_eq!(names(&dropped), vec!["plain"]);
    assert!(any_matcher_accepts(&vec![false, false, true]));
    assert!(!any_matcher_accepts(&vec![false, false]));
    assert!(!any_matcher_accepts(&vec![]));
}

#[test]
fn filter_of_nothing_is_empty() {
    assert!(filter_browsers(true, &vec![], &vec![]).is_empty());
}

#[test]
fn filter_is_deterministic() {
    let matches = verdicts(&[false, true, false, true, false]);
    let a = get_filtered_browsers("https://docs.example/x", &sample(), &matches);
    let b = get_filtered_browsers("https://docs.example/x", &sample(), &matches);
    assert_eq!(names(&a), names(&b));
    for (k, (x, y)) in a.iter().zip(b.iter()).enumerate() {
        assert_eq!(x.filtered_index, k);
        assert_eq!(y.filtered_index, k);
        assert_eq!(x.browser_profile_index, y.browser_profile_index);
    }
}

#[test]
fn parse_failure_hides_pinned_rows() {
    let matches = verdicts(&[true, true, true, true, true]);
    let parsed = get_filtered_browsers("https://work.corp.example/", &sample(), &matches);
    assert_eq!(names(&parsed), vec!["work", "docs", "firefox", "chrome", "safari"]);
    let unparsed = get_filtered_browsers("not a link", &sample(), &matches);
    assert_eq!(names(&unparsed), vec!["firefox", "chrome", "safari"]);
}

fn state_with(filtered: Vec<UIBrowser>) -> UIState {
    UIState {
        url: "https://example.com/".to_string(),
        selected_browser: String::new(),
        focused_index: None,
        incognito_mode: false,
        browsers: sample(),
        filtered_browsers: filtered,
        restorable_app_profiles: vec![],
    }
}

fn delegate() -> UIDelegate {
    UIDelegate {
        mouse_position: Point { x: 100, y: 100 },
        screen_rect: Rect { x0: 5, y0: 5, x1: 1915, y1: 1075 },
        quit_on_lost_focus: true,
    }
}

fn key_down(code: KeyCode) -> UIEvent {
    UIEvent::KeyDown { key: Key::Other, code, copy_modifiers: false }
}

fn opened(effects: &browsers::dispatch::EventEffects) -> Option<usize> {
    match effects.submit {
        Some(UICommand::OpenLinkInBrowser(i)) => Some(i),
        _ => None,
    }
}

#[test]
fn digit_hotkeys_open_by_position() {
    let filtered = filter_browsers(true, &sample()[0..3].to_vec(), &verdicts(&[false, true, false]));
    let d = delegate();
    let mut state = state_with(filtered);
    assert_eq!(opened(&d.event(&mut state, key_down(KeyCode::Digit(0)))), Some(1));
    assert_eq!(opened(&d.event(&mut state, key_down(KeyCode::Digit(1)))), Some(0));
    assert_eq!(opened(&d.event(&mut state, key_down(KeyCode::Numpad(2)))), Some(2));
    assert_eq!(opened(&d.event(&mut state, key_down(KeyCode::Numpad(0)))), Some(1));
    for digit in [3u8, 4, 5, 6, 7, 8, 9] {
        let e = d.event(&mut state, key_down(KeyCode::Digit(digit)));
        assert!(e.submit.is_none());
        assert!(e.pass_on);
        assert!(d.event(&mut state, key_down(KeyCode::Numpad(digit))).submit.is_none());
    }
    assert!(!state.incognito_mode);
    assert_eq!(state.focused_index, None);
}

#[test]
fn digit_nine_opens_tenth_row() {
    let rows: Vec<UIBrowser> = (0..12).map(|i| entry(i, "b", &[])).collect();
    let filtered = filter_browsers(true, &rows, &vec![]);
    let d = delegate();
    let mut state = state_with(filtered);
    assert_eq!(opened(&d.event(&mut state, key_down(KeyCode::Digit(0)))), Some(0));
    assert_eq!(opened(&d.event(&mut state, key_down(KeyCode::Digit(9)))), Some(9));
    assert!(d.event(&mut state, key_down(KeyCode::Digit(10))).submit.is_none());
}

#[test]
fn incognito_follows_shift() {
    let d = delegate();
    let mut state = state_with(vec![]);
    d.event(&mut state, key_down(KeyCode::ShiftLeft));
    assert!(state.incognito_mode);
    d.event(&mut state, key_down(KeyCode::Other));
    d.event(&mut state, UIEvent::KeyUp { code: KeyCode::Digit(4) });
    d.event(&mut state, key_down(KeyCode::ShiftLeft));
    assert!(state.incognito_mode);
    d.event(&mut state, UIEvent::KeyUp { code: KeyCode::ShiftRight });
    assert!(!state.incognito_mode);
    d.event(&mut state, key_down(KeyCode::Space));
    d.event(&mut state, UIEvent::Other);
    assert!(!state.incognito_mode);
}

#[test]
fn escape_and_lost_focus_exit() {
    let mut d = delegate();
    let mut state = state_with(vec![]);
    let e = d.event(&mut state, UIEvent::KeyDown { key: Key::Escape, code: KeyCode::Other, copy_modifiers: false });
    assert!(matches!(e.submit, Some(UICommand::ExitApp)));
    assert!(!e.pass_on);
    let e = d.event(&mut state, UIEvent::WindowLostFocus);
    assert!(matches!(e.submit, Some(UICommand::ExitApp)));
    d.quit_on_lost_focus = false;
    let e = d.event(&mut state, UIEvent::WindowLostFocus);
    assert!(e.submit.is_none() && e.pass_on);
}

#[test]
fn copy_shortcut_and_enter() {
    let d = delegate();
    let mut state = state_with(vec![]);
    let copy = UIEvent::KeyDown { key: Key::Character("c".to_string()), code: KeyCode::Other, copy_modifiers: true };
    assert!(matches!(d.event(&mut state, copy).submit, Some(UICommand::CopyLinkToClipboard)));
    let plain_c = UIEvent::KeyDown { key: Key::Character("c".to_string()), code: KeyCode::Other, copy_modifiers: false };
    assert!(d.event(&mut state, plain_c).submit.is_none());
    assert!(d.event(&mut state, key_down(KeyCode::Enter)).submit.is_none());
    state.focused_index = Some(7);
    assert_eq!(opened(&d.event(&mut state, key_down(KeyCode::Enter))), Some(7));
    assert_eq!(opened(&d.event(&mut state, key_down(KeyCode::Space))), Some(7));
}

fn message(effects: CommandEffects) -> MessageToMain {
    effects.message.expect("a message to the controller")
}

#[test]
fn commands_forward_messages() {
    let mut d = delegate();
    let mut state = state_with(vec![]);
    state.incognito_mode = true;
    match message(d.command(&mut state, UICommand::OpenLinkInBrowser(3))) {
        MessageToMain::OpenLink(i, incognito, url) => {
            assert_eq!((i, incognito, url.as_str()), (3, true, "https://example.com/"));
        }
        _ => panic!("expected OpenLink"),
    }
    assert!(matches!(message(d.command(&mut state, UICommand::Refresh)), MessageToMain::Refresh));
    assert!(matches!(
        message(d.command(&mut state, UICommand::SetBrowsersAsDefaultBrowser)),
        MessageToMain::SetBrowsersAsDefaultBrowser
    ));
    match message(d.command(&mut state, UICommand::HideProfile("profile-a".to_string()))) {
        MessageToMain::HideAppProfile(id) => assert_eq!(id, "profile-a"),
        _ => panic!("expected HideAppProfile"),
    }
    match message(d.command(&mut state, UICommand::HideAllProfiles("a1".to_string()))) {
        MessageToMain::HideAllProfiles(id) => assert_eq!(id, "a1"),
        _ => panic!("expected HideAllProfiles"),
    }
    match message(d.command(&mut state, UICommand::RestoreHiddenProfile("profile-b".to_string()))) {
        MessageToMain::RestoreAppProfile(id) => assert_eq!(id, "profile-b"),
        _ => panic!("expected RestoreAppProfile"),
    }
    match message(d.command(&mut state, UICommand::MoveProfile("profile-c".to_string(), MoveTo::DOWN))) {
        MessageToMain::MoveAppProfile(id, to) => assert_eq!((id.as_str(), to), ("profile-c", MoveTo::DOWN)),
        _ => panic!("expected MoveAppProfile"),
    }
}

#[test]
fn exit_commands_quit() {
    let mut d = delegate();
    let mut state = state_with(vec![]);
    let e = d.command(&mut state, UICommand::ExitApp);
    assert!(e.quit && e.message.is_none());
    let e = d.command(&mut state, UICommand::OpenLinkInBrowserCompleted);
    assert!(!e.quit);
    assert!(matches!(e.submit, Some(UICommand::ExitApp)));
    assert!(d.command(&mut state, UICommand::ShowAboutDialog).show_about);
    let e = d.command(&mut state, UICommand::CopyLinkToClipboard);
    assert_eq!(e.copy_to_clipboard.as_deref(), Some("https://example.com/"));
}

#[test]
fn focus_and_hidden_commands_update_state() {
    let mut d = delegate();
    let mut state = state_with(vec![]);
    d.command(&mut state, UICommand::SetFocusedIndex(Some(4)));
    assert_eq!(state.focused_index, Some(4));
    d.command(&mut state, UICommand::SetFocusedIndex(None));
    assert_eq!(state.focused_index, None);
    d.command(&mut state, UICommand::NewHiddenBrowsersReceived(vec![entry(9, "old", &[])]));
    assert_eq!(names(&state.restorable_app_profiles), vec!["old"]);
}

#[test]
fn url_opened_refilters_and_places_window() {
    let mut d = delegate();
    let mut state = state_with(vec![]);
    let e = d.command(
        &mut state,
        UICommand::UrlOpened {
            url: "https://docs.example/page".to_string(),
            source_bundle_id: "com.mail".to_string(),
            url_matches: verdicts(&[false, false, false, true, false]),
            mouse_position: Point { x: 1900, y: 40 },
            screen_rect: Rect { x0: 0, y0: 0, x1: 1000, y1: 800 },
        },
    );
    assert_eq!(state.url, "https://docs.example/page");
    assert_eq!(names(&state.filtered_browsers), vec!["docs", "firefox", "chrome", "safari"]);
    assert_eq!(d.mouse_position, Point { x: 1900, y: 40 });
    assert_eq!(
        e.configure_window,
        Some(WindowPlacement { size: Size { width: 222, height: 175 }, position: Point { x: 778, y: 40 } })
    );
    assert!(e.show_window);
    match e.message {
        Some(MessageToMain::LinkOpenedFromBundle(source, url)) => {
            assert_eq!((source.as_str(), url.as_str()), ("com.mail", "https://docs.example/page"));
        }
        _ => panic!("expected LinkOpenedFromBundle"),
    }
}

#[test]
fn new_browsers_refilter_with_current_link() {
    let mut d = delegate();
    let mut state = state_with(vec![]);
    let e = d.command(
        &mut state,
        UICommand::NewBrowsersReceived {
            browsers: vec![entry(0, "a", &[]), entry(1, "b", &["x"])],
            url_matches: verdicts(&[false, true]),
        },
    );
    assert_eq!(names(&state.browsers), vec!["a", "b"]);
    assert_eq!(names(&state.filtered_browsers), vec!["b", "a"]);
    assert_eq!(
        e.configure_window,
        Some(WindowPlacement { size: Size { width: 222, height: 111 }, position: Point { x: 100, y: 100 } })
    );
    assert!(!e.show_window && e.message.is_none());
}

#[test]
fn context_menu_of_movable_row() {
    let mut b = entry(2, "Chrome", &[]);
    b.is_first = true;
    b.supports_profiles = true;
    b.profile_name = "Work".to_string();
    let menu = make_context_menu(&b);
    let labels: Vec<ContextMenuLabel> = menu.iter().map(|i| i.label).collect();
    assert_eq!(
        labels,
        vec![
            ContextMenuLabel::MoveProfileToTop,
            ContextMenuLabel::MoveProfileHigher,
            ContextMenuLabel::MoveProfileLower,
            ContextMenuLabel::MoveProfileToBottom,
            ContextMenuLabel::HideProfile,
            ContextMenuLabel::HideApp,
        ]
    );
    let enabled: Vec<bool> = menu.iter().map(|i| i.enabled).collect();
    assert_eq!(enabled, vec![false, false, true, true, true, true]);
    assert_eq!(menu[0].name, "Chrome Work");
    assert_eq!(menu[5].name, "Chrome");
    assert!(matches!(&menu[1].command, UICommand::MoveProfile(id, MoveTo::UP) if id == "id-Chrome"));
    assert!(matches!(&menu[5].command, UICommand::HideAllProfiles(id) if id == "app-Chrome"));
}

#[test]
fn context_menu_of_pinned_row() {
    let b = entry(0, "Work", &["*.corp"]);
    let menu = make_context_menu(&b);
    assert_eq!(menu.len(), 1);
    assert_eq!(menu[0].label, ContextMenuLabel::HideProfile);
    assert!(matches!(&menu[0].command, UICommand::HideProfile(id) if id == "id-Work"));
}

#[test]
fn hidden_apps_menu() {
    let empty = make_hidden_apps_menu(&vec![]);
    assert_eq!(empty.len(), 1);
    assert!(matches!(empty[0], HiddenAppsMenuItem::NoHiddenApps));
    let menu = make_hidden_apps_menu(&vec![entry(0, "a", &[]), entry(1, "b", &[])]);
    assert_eq!(menu.len(), 2);
    match &menu[1] {
        HiddenAppsMenuItem::Restore { name, command } => {
            assert_eq!(name, "b");
            assert!(matches!(command, UICommand::RestoreHiddenProfile(id) if id == "id-b"));
        }
        _ => panic!("expected a restore entry"),
    }
}

#[test]
fn options_menu() {
    assert_eq!(
        make_options_menu(true),
        vec![
            OptionsMenuItem::Refresh,
            OptionsMenuItem::MakeBrowsersDefault,
            OptionsMenuItem::Restore,
            OptionsMenuItem::About,
            OptionsMenuItem::Quit,
        ]
    );
    assert_eq!(make_options_menu(false).len(), 4);
    assert!(matches!(OptionsMenuItem::Quit.command(), Some(UICommand::ExitApp)));
    assert!(OptionsMenuItem::Restore.command().is_none());
}

fn profile(name: &str, matchers: &[&str]) -> CommonBrowserProfile {
    CommonBrowserProfile {
        browser_name: name.to_string(),
        profile_name: "Default".to_string(),
        supports_profiles: name == "chrome",
        supports_incognito: true,
        browser_icon_path: format!("/icons/{}.png", name),
        profile_icon_path: if name == "chrome" { Some("/icons/p.png".to_string()) } else { None },
        unique_id: format!("{}#Default", name),
        unique_app_id: name.to_string(),
        restricted_url_matchers: matchers.iter().map(|m| m.to_string()).collect(),
    }
}

#[test]
fn real_to_ui_browsers_marks_first_and_last() {
    let rows = UI::real_to_ui_browsers(&[profile("work", &["*.corp"]), profile("chrome", &[]), profile("firefox", &[])]);
    assert_eq!(rows.len(), 3);
    let firsts: Vec<bool> = rows.iter().map(|b| b.is_first).collect();
    let lasts: Vec<bool> = rows.iter().map(|b| b.is_last).collect();
    assert_eq!(firsts, vec![false, true, false]);
    assert_eq!(lasts, vec![false, false, true]);
    assert_eq!(rows[1].profile_name_maybe.as_deref(), Some("Default"));
    assert_eq!(rows[2].profile_name_maybe, None);
    assert_eq!(rows[1].profile_icon_path, "/icons/p.png");
    assert_eq!(rows[2].profile_icon_path, "");
    assert_eq!(rows[2].filtered_index, 2);
    assert_eq!(rows[0].restricted_url_matchers, vec!["*.corp".to_string()]);
    assert!(UI::real_to_ui_browsers(&[]).is_empty());
    let pinned = UI::real_to_ui_browsers(&[profile("a", &["x"]), profile("b", &["y"])]);
    assert!(pinned[0].is_first && !pinned[1].is_first);
}

#[test]
fn full_name_and_labels() {
    let mut b = entry(0, "Chrome", &[]);
    assert_eq!(b.get_full_name(), "Chrome");
    b.supports_profiles = true;
    b.profile_name = "Personal".to_string();
    assert_eq!(b.get_full_name(), "Chrome Personal");
    assert_eq!(browser_label_text(true, &b), "Chrome 👓");
    assert_eq!(browser_label_text(false, &b), "Chrome");
    b.supports_incognito = false;
    assert_eq!(browser_label_text(true, &b), "Chrome");
    assert!(!b.has_priority_ordering());
    assert!(entry(0, "w", &["x"]).has_priority_ordering());
}

#[test]
fn hotkey_numbers() {
    let mut b = entry(0, "a", &[]);
    assert_eq!(hotkey_number(true, &b), Some(0));
    assert_eq!(hotkey_number(false, &b), None);
    b.filtered_index = 9;
    assert_eq!(hotkey_number(true, &b), Some(9));
    b.filtered_index = 10;
    assert_eq!(hotkey_number(true, &b), None);
}

#[test]
fn ui_initial_state_and_placement() {
    let config = UIConfig { show_hotkeys: true, quit_on_lost_focus: false };
    let ui = UI::new("https://x.example/", sample(), vec![entry(7, "hidden", &[])], true, &config, &verdicts(&[false, true]));
    assert_eq!(names(&ui.filtered_browsers), vec!["work", "firefox", "chrome", "safari"]);
    let state = ui.create_initial_ui_state();
    assert_eq!(state.url, "https://x.example/");
    assert_eq!(state.selected_browser, "");
    assert_eq!(state.focused_index, None);
    assert!(!state.incognito_mode);
    assert_eq!(names(&state.browsers), names(&sample()));
    assert_eq!(names(&state.filtered_browsers), names(&ui.filtered_browsers));
    assert_eq!(names(&state.restorable_app_profiles), vec!["hidden"]);
    assert!(!state.has_autofocus());
    let placement = ui.initial_window_placement(&Point { x: 0, y: 0 }, &Rect { x0: 5, y0: 5, x1: 800, y1: 600 });
    assert_eq!(placement, WindowPlacement { size: Size { width: 222, height: 175 }, position: Point { x: 5, y: 5 } });
    let d = ui.create_delegate(Point { x: 1, y: 2 }, Rect { x0: 0, y0: 0, x1: 10, y1: 10 });
    assert!(!d.quit_on_lost_focus);
}

#[test]
fn autofocus_goes_to_first_filtered_row() {
    let rows = filter_browsers(true, &sample(), &vec![]);
    assert!((false, rows[0].clone()).has_autofocus());
    assert!(!(true, rows[1].clone()).has_autofocus());
}

#[test]
fn focus_responses() {
    assert_eq!(focus_event_response(FocusWidgetEvent::Tab { shift: true }, false).focus, FocusMove::Previous);
    assert_eq!(focus_event_response(FocusWidgetEvent::Tab { shift: false }, false).focus, FocusMove::Next);
    assert_eq!(focus_event_response(FocusWidgetEvent::ArrowDown, false).focus, FocusMove::Next);
    assert_eq!(focus_event_response(FocusWidgetEvent::ArrowUp, false).focus, FocusMove::Previous);
    assert_eq!(focus_event_response(FocusWidgetEvent::WindowConnected, true).focus, FocusMove::Request);
    assert_eq!(focus_event_response(FocusWidgetEvent::WindowConnected, false).focus, FocusMove::Stay);
    let hover = focus_event_response(FocusWidgetEvent::SetFocusOnHover, false);
    assert!(hover.focus == FocusMove::Request && hover.request_update && hover.set_handled);
    let r = focus_lifecycle_response(FocusLifecycle::HotChanged(true), true, false);
    assert!(r.request_focus_on_hover);
    assert!(!focus_lifecycle_response(FocusLifecycle::HotChanged(true), true, true).request_focus_on_hover);
    let gained = focus_lifecycle_response(FocusLifecycle::FocusChanged(true), false, true);
    assert!(gained.scroll_to_view && gained.announce_focus && gained.request_paint);
    let hovered = focus_lifecycle_response(FocusLifecycle::FocusChanged(true), true, true);
    assert!(!hovered.scroll_to_view && hovered.announce_focus);
    let lost = focus_lifecycle_response(FocusLifecycle::FocusChanged(false), false, false);
    assert!(!lost.announce_focus && lost.request_paint);
    assert!(focus_lifecycle_response(FocusLifecycle::BuildFocusChain, false, false).register_for_focus);
}

#[test]
fn image_controller_decisions() {
    let c = UIImageController;
    assert!(!c.has_image(""));
    assert!(c.has_image("/icons/a.png"));
    assert!(c.icon_changed(&"a".to_string(), &"b".to_string()));
    assert!(!c.icon_changed(&"a".to_string(), &"a".to_string()));
}
