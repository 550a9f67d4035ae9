use vstd::prelude::*;
use vstd::string::*;

use crate::browser::{
    browser_views, clone_browsers, clone_strings, string_views, CommonBrowserProfile, UIBrowser,
    UIBrowserView,
};
use crate::dispatch::{placement_for, UIDelegate, UIState, WindowPlacement};
use crate::filter::{filtered_view, get_filtered_browsers, url_parses, verdict_views};
use crate::geometry::{calculate_window_position, recalculate_window_size, Point, Rect};

verus! {

/// How the picker looks and behaves, as configured by the user.
#[derive(Clone, Copy, Debug, PartialEq, Eq, Structural)]
pub struct UIConfig {
    pub show_hotkeys: bool,
    pub quit_on_lost_focus: bool,
}

/// The picker for one link, before its window opens.
pub struct UI {
    pub url: String,
    pub ui_browsers: Vec<UIBrowser>,
    pub filtered_browsers: Vec<UIBrowser>,
    pub restorable_app_profiles: Vec<UIBrowser>,
    pub show_set_as_default: bool,
    pub show_hotkeys: bool,
    pub quit_on_lost_focus: bool,
}

/// Index of the first profile not restricted to some links, at `start` or after; 0 when
/// there is none.
pub open spec fn first_orderable_from(ps: Seq<CommonBrowserProfile>, start: int) -> int
    decreases ps.len() - start,
{
    if start < 0 || start >= ps.len() {
        0
    } else if !ps[start].has_priority_ordering_spec() {
        start
    } else {
        first_orderable_from(ps, start + 1)
    }
}

/// Row `i` made of profile `p` of a list of `n` profiles whose first movable one is at
/// `first_orderable`.
pub open spec fn ui_browser_of(p: CommonBrowserProfile, i: int, n: int, first_orderable: int) -> UIBrowserView {
    UIBrowserView {
        browser_profile_index: i as nat,
        is_first: i == first_orderable,
        is_last: i == n - 1,
        restricted_url_matchers: string_views(p.restricted_url_matchers@),
        browser_name: p.browser_name@,
        profile_name: p.profile_name@,
        profile_name_maybe: if p.supports_profiles { Some(p.profile_name@) } else { None },
        supports_profiles: p.supports_profiles,
        supports_incognito: p.supports_incognito,
        icon_path: p.browser_icon_path@,
        profile_icon_path: match p.profile_icon_path {
            Some(s) => s@,
            None => Seq::empty(),
        },
        unique_id: p.unique_id@,
        unique_app_id: p.unique_app_id@,
        filtered_index: i as nat,
    }
}

fn first_orderable_index(ps: &[CommonBrowserProfile]) -> (r: usize)
    ensures
        r == first_orderable_from(ps@, 0),
{
    let mut i: usize = 0;
    while i < ps.len() && ps[i].has_priority_ordering()
        invariant
            i <= ps@.len(),
            first_orderable_from(ps@, 0) == first_orderable_from(ps@, i as int),
        decreases ps@.len() - i,
    {
        i = i + 1;
    }
    if i == ps.len() { 0 } else { i }
}

fn to_ui_browser(p: &CommonBrowserProfile, i: usize, n: usize, first_orderable: usize) -> (r: UIBrowser)
    requires
        n >= 1,
    ensures
        r@ == ui_browser_of(*p, i as int, n as int, first_orderable as int),
{
    let profile_name_maybe = if p.supports_profiles { Some(p.profile_name.clone()) } else { None };
    let profile_icon_path = match &p.profile_icon_path {
        Some(s) => s.clone(),
        None => String::new(),
    };
    UIBrowser {
        browser_profile_index: i,
        is_first: i == first_orderable,
        is_last: i == n - 1,
        restricted_url_matchers: clone_strings(&p.restricted_url_matchers),
        browser_name: p.browser_name.clone(),
        profile_name: p.profile_name.clone(),
        profile_name_maybe,
        supports_profiles: p.supports_profiles,
        supports_incognito: p.supports_incognito,
        icon_path: p.browser_icon_path.clone(),
        profile_icon_path,
        unique_id: p.unique_id.clone(),
        unique_app_id: p.unique_app_id.clone(),
        filtered_index: i,
    }
}

impl UI {
    /// The rows for the controller's profiles, in the same order: each row knows its index,
    /// whether it is the first movable row and whether it is the last row.
    pub fn real_to_ui_browsers(all_browser_profiles: &[CommonBrowserProfile]) -> (r: Vec<UIBrowser>)
        ensures
            r@.len() == all_browser_profiles@.len(),
            forall|i: int| 0 <= i < r@.len() ==> #[trigger] r@[i]@ == ui_browser_of(
                all_browser_profiles@[i],
                i,
                all_browser_profiles@.len() as int,
                first_orderable_from(all_browser_profiles@, 0),
            ),
    {
        let n = all_browser_profiles.len();
        let mut out: Vec<UIBrowser> = Vec::new();
        if n == 0 {
            return out;
        }
        let first_orderable = first_orderable_index(all_browser_profiles);
        let mut i: usize = 0;
        while i < n
            invariant
                n == all_browser_profiles@.len(),
                n >= 1,
                i <= n,
                first_orderable == first_orderable_from(all_browser_profiles@, 0),
                out@.len() == i,
                forall|k: int| 0 <= k < i ==> #[trigger] out@[k]@ == ui_browser_of(
                    all_browser_profiles@[k],
                    k,
                    n as int,
                    first_orderable as int,
                ),
            decreases n - i,
        {
            out.push(to_ui_browser(&all_browser_profiles[i], i, n, first_orderable));
            i = i + 1;
        }
        out
    }

    /// The picker for `url`: the rows shown are those of `ui_browsers` that
    /// [`get_filtered_browsers`] keeps for it.
    pub fn new(
        url: &str,
        ui_browsers: Vec<UIBrowser>,
        restorable_app_profiles: Vec<UIBrowser>,
        show_set_as_default: bool,
        ui_config: &UIConfig,
        url_matches: &Vec<Vec<bool>>,
    ) -> (r: UI)
        ensures
            r.url@ == url@,
            r.ui_browsers == ui_browsers,
            browser_views(r.filtered_browsers@) == filtered_view(browser_views(ui_browsers@), url_parses(url@), verdict_views(url_matches@)),
            r.restorable_app_profiles == restorable_app_profiles,
            r.show_set_as_default == show_set_as_default,
            r.show_hotkeys == ui_config.show_hotkeys,
            r.quit_on_lost_focus == ui_config.quit_on_lost_focus,
    {
        let filtered_browsers = get_filtered_browsers(url, &ui_browsers, url_matches);
        UI {
            url: url.to_owned(),
            ui_browsers,
            filtered_browsers,
            restorable_app_profiles,
            show_set_as_default,
            show_hotkeys: ui_config.show_hotkeys,
            quit_on_lost_focus: ui_config.quit_on_lost_focus,
        }
    }

    /// The window's first state: the picker's link and rows, nothing focused or selected,
    /// incognito off.
    pub fn create_initial_ui_state(&self) -> (r: UIState)
        ensures
            r.url@ == self.url@,
            r.selected_browser@ == Seq::<char>::empty(),
            r.focused_index is None,
            !r.incognito_mode,
            browser_views(r.browsers@) == browser_views(self.ui_browsers@),
            browser_views(r.filtered_browsers@) == browser_views(self.filtered_browsers@),
            browser_views(r.restorable_app_profiles@) == browser_views(self.restorable_app_profiles@),
    {
        UIState {
            url: self.url.clone(),
            selected_browser: String::new(),
            focused_index: None,
            incognito_mode: false,
            browsers: clone_browsers(&self.ui_browsers),
            filtered_browsers: clone_browsers(&self.filtered_browsers),
            restorable_app_profiles: clone_browsers(&self.restorable_app_profiles),
        }
    }

    /// Where the window first opens, with the pointer at `mouse_position` on the work area
    /// `screen_rect`.
    pub fn initial_window_placement(&self, mouse_position: &Point, screen_rect: &Rect) -> (r: WindowPlacement)
        ensures
            r == placement_for(self.filtered_browsers@.len(), *mouse_position, *screen_rect),
    {
        let size = recalculate_window_size(&self.filtered_browsers);
        let position = calculate_window_position(mouse_position, screen_rect, &size);
        WindowPlacement { size, position }
    }

    /// The delegate of the window placed for the pointer at `mouse_position` on `screen_rect`.
    pub fn create_delegate(&self, mouse_position: Point, screen_rect: Rect) -> (r: UIDelegate)
        ensures
            r == (UIDelegate { mouse_position, screen_rect, quit_on_lost_focus: self.quit_on_lost_focus }),
    {
        UIDelegate { mouse_position, screen_rect, quit_on_lost_focus: self.quit_on_lost_focus }
    }
}

/// Most rows that carry a hotkey label: one per digit key.
pub const HOTKEY_ROWS: usize = 10;

/// Text of a row's label: the application name, followed by glasses when the row would
/// open the link incognito.
pub fn browser_label_text(incognito_mode: bool, item: &UIBrowser) -> (r: String)
    ensures
        r@ == if item.supports_incognito && incognito_mode {
            item.browser_name@ + " \u{1F453}"@
        } else {
            item.browser_name@
        },
{
    let mut name = item.browser_name.clone();
    if item.supports_incognito && incognito_mode {
        name.append(" \u{1F453}");
    }
    name
}

/// The number on a row's hotkey label, if hotkeys are shown and the row has one: the
/// row at position `k` shows the digit `k` that opens it, for the first ten rows.
pub fn hotkey_number(show_hotkeys: bool, item: &UIBrowser) -> (r: Option<usize>)
    ensures
        r == if show_hotkeys && item.filtered_index < HOTKEY_ROWS {
            Some(item.filtered_index)
        } else {
            None
        },
{
    if show_hotkeys && item.filtered_index < HOTKEY_ROWS {
        Some(item.filtered_index)
    } else {
        None
    }
}

/// Keeps a row's icon in step with its icon path.
pub struct UIImageController;

impl UIImageController {
    /// Whether an image is to be loaded for `icon_path`: an empty path stands for no icon.
    pub fn has_image(&self, icon_path: &str) -> (r: bool)
        ensures
            r == (icon_path@.len() > 0),
    {
        icon_path.unicode_len() > 0
    }

    /// Whether the icon is to be loaded again after its path changed.
    pub fn icon_changed(&self, old_icon_path: &String, icon_path: &String) -> (r: bool)
        ensures
            r == (old_icon_path@ != icon_path@),
    {
        !(*icon_path == *old_icon_path)
    }
}

} // verus!
