use vstd::prelude::*;
use vstd::string::*;

verus! {

/// Where the controller should move a profile in the user's ordering.
#[derive(Clone, Copy, Debug, PartialEq, Eq, Structural)]
pub enum MoveTo {
    UP,
    DOWN,
    TOP,
    BOTTOM,
}

/// One browser profile as the controller describes it.
pub struct CommonBrowserProfile {
    pub browser_name: String,
    pub profile_name: String,
    pub supports_profiles: bool,
    pub supports_incognito: bool,
    pub browser_icon_path: String,
    pub profile_icon_path: Option<String>,
    pub unique_id: String,
    pub unique_app_id: String,
    /// Glob patterns; when there are any, the profile is offered only for matching links.
    pub restricted_url_matchers: Vec<String>,
}

impl CommonBrowserProfile {
    pub open spec fn has_priority_ordering_spec(&self) -> bool {
        self.restricted_url_matchers@.len() > 0
    }

    /// A profile restricted to some links is kept above all the others.
    pub fn has_priority_ordering(&self) -> (r: bool)
        ensures
            r == self.has_priority_ordering_spec(),
    {
        self.restricted_url_matchers.len() > 0
    }
}

/// One selectable row of the picker.
pub struct UIBrowser {
    /// Index in the full list of visible profiles; addresses the profile towards the controller.
    pub browser_profile_index: usize,
    pub is_first: bool,
    pub is_last: bool,
    /// Glob patterns; when there are any, the row is shown only for matching links.
    pub restricted_url_matchers: Vec<String>,
    pub browser_name: String,
    pub profile_name: String,
    pub profile_name_maybe: Option<String>,
    pub supports_profiles: bool,
    pub supports_incognito: bool,
    pub icon_path: String,
    pub profile_icon_path: String,
    pub unique_id: String,
    pub unique_app_id: String,
    /// Position in the list of rows shown for the current link.
    pub filtered_index: usize,
}

/// The mathematical value of a [`UIBrowser`].
pub struct UIBrowserView {
    pub browser_profile_index: nat,
    pub is_first: bool,
    pub is_last: bool,
    pub restricted_url_matchers: Seq<Seq<char>>,
    pub browser_name: Seq<char>,
    pub profile_name: Seq<char>,
    pub profile_name_maybe: Option<Seq<char>>,
    pub supports_profiles: bool,
    pub supports_incognito: bool,
    pub icon_path: Seq<char>,
    pub profile_icon_path: Seq<char>,
    pub unique_id: Seq<char>,
    pub unique_app_id: Seq<char>,
    pub filtered_index: nat,
}

pub open spec fn string_views(v: Seq<String>) -> Seq<Seq<char>> {
    v.map_values(|s: String| s@)
}

pub open spec fn option_view(o: Option<String>) -> Option<Seq<char>> {
    match o {
        Some(s) => Some(s@),
        None => None,
    }
}

impl UIBrowserView {
    pub open spec fn has_priority_ordering(self) -> bool {
        self.restricted_url_matchers.len() > 0
    }

    /// The same row, placed at `index` of a filtered view.
    pub open spec fn at_filtered_index(self, index: nat) -> UIBrowserView {
        UIBrowserView { filtered_index: index, ..self }
    }

    pub open spec fn full_name(self) -> Seq<char> {
        if self.supports_profiles {
            self.browser_name + " "@ + self.profile_name
        } else {
            self.browser_name
        }
    }
}

impl View for UIBrowser {
    type V = UIBrowserView;

    open spec fn view(&self) -> UIBrowserView {
        UIBrowserView {
            browser_profile_index: self.browser_profile_index as nat,
            is_first: self.is_first,
            is_last: self.is_last,
            restricted_url_matchers: string_views(self.restricted_url_matchers@),
            browser_name: self.browser_name@,
            profile_name: self.profile_name@,
            profile_name_maybe: option_view(self.profile_name_maybe),
            supports_profiles: self.supports_profiles,
            supports_incognito: self.supports_incognito,
            icon_path: self.icon_path@,
            profile_icon_path: self.profile_icon_path@,
            unique_id: self.unique_id@,
            unique_app_id: self.unique_app_id@,
            filtered_index: self.filtered_index as nat,
        }
    }
}

/// The views of a sequence of rows.
pub open spec fn browser_views(v: Seq<UIBrowser>) -> Seq<UIBrowserView> {
    v.map_values(|b: UIBrowser| b@)
}

pub(crate) fn clone_strings(v: &Vec<String>) -> (r: Vec<String>)
    ensures
        string_views(r@) == string_views(v@),
{
    let r = v.clone();
    assert(string_views(r@) =~= string_views(v@));
    r
}

pub(crate) fn clone_option_string(o: &Option<String>) -> (r: Option<String>)
    ensures
        option_view(r) == option_view(*o),
{
    match o {
        Some(s) => Some(s.clone()),
        None => None,
    }
}

impl Clone for UIBrowser {
    fn clone(&self) -> (r: Self)
        ensures
            r@ == self@,
    {
        UIBrowser {
            browser_profile_index: self.browser_profile_index,
            is_first: self.is_first,
            is_last: self.is_last,
            restricted_url_matchers: clone_strings(&self.restricted_url_matchers),
            browser_name: self.browser_name.clone(),
            profile_name: self.profile_name.clone(),
            profile_name_maybe: clone_option_string(&self.profile_name_maybe),
            supports_profiles: self.supports_profiles,
            supports_incognito: self.supports_incognito,
            icon_path: self.icon_path.clone(),
            profile_icon_path: self.profile_icon_path.clone(),
            unique_id: self.unique_id.clone(),
            unique_app_id: self.unique_app_id.clone(),
            filtered_index: self.filtered_index,
        }
    }
}

/// Copies a list of rows, keeping each row's value.
pub fn clone_browsers(v: &Vec<UIBrowser>) -> (r: Vec<UIBrowser>)
    ensures
        browser_views(r@) == browser_views(v@),
{
    let mut r: Vec<UIBrowser> = Vec::new();
    let mut i: usize = 0;
    while i < v.len()
        invariant
            i <= v@.len(),
            browser_views(r@) =~= browser_views(v@.take(i as int)),
        decreases v@.len() - i,
    {
        let c = v[i].clone();
        let ghost prev = r@;
        r.push(c);
        assert(r@ == prev.push(c));
        assert(v@.take(i as int + 1) =~= v@.take(i as int).push(v@[i as int]));
        assert(browser_views(r@) =~= browser_views(prev).push(c@));
        i = i + 1;
    }
    assert(v@.take(v@.len() as int) =~= v@);
    r
}

impl UIBrowser {
    /// Whether the row is restricted to some links, and so kept above the others.
    pub fn has_priority_ordering(&self) -> (r: bool)
        ensures
            r == self@.has_priority_ordering(),
    {
        self.restricted_url_matchers.len() > 0
    }

    /// The application name, followed by the profile name where the application has profiles.
    pub fn get_full_name(&self) -> (r: String)
        ensures
            r@ == self@.full_name(),
    {
        let mut full_name = self.browser_name.clone();
        if self.supports_profiles {
            full_name.append(" ");
            full_name.append(self.profile_name.as_str());
        }
        full_name
    }
}

} // verus!
