//! The navigation state machine and the fixed navigation rail entries.

use vstd::prelude::*;
use crate::page::Page;

verus! {

/// The in-memory navigation state of a running application instance.
///
/// `current` is the page being shown; `animation_toggle` alternates on
/// every distinct navigation so that the page-switch animation restarts
/// (it carries no meaning beyond selecting one of two animation names).
#[derive(Clone, Copy, Debug, PartialEq, Eq, Structural)]
pub struct NavigationState {
    pub current: Page,
    pub animation_toggle: bool,
}

/// The state reached by asking for `target` from state `s`: unchanged if
/// `target` is already current, otherwise `target` with the toggle flipped.
pub open spec fn navigate_spec(s: NavigationState, target: Page) -> NavigationState {
    if s.current == target {
        s
    } else {
        NavigationState { current: target, animation_toggle: !s.animation_toggle }
    }
}

impl NavigationState {
    /// The state of a fresh application instance: the about page, toggle off.
    pub fn new() -> (s: NavigationState)
        ensures
            s == (NavigationState { current: Page::About, animation_toggle: false }),
    {
        NavigationState { current: Page::About, animation_toggle: false }
    }

    /// The single mutation entry point: a click on a navigation button.
    pub fn navigate_to(&mut self, target: Page)
        ensures
            *final(self) == navigate_spec(*old(self), target),
    {
        if self.current != target {
            self.current = target;
            self.animation_toggle = !self.animation_toggle;
        }
    }
}

/// Navigating to the page already shown changes nothing, the animation
/// toggle included: repeated clicks on the active page are no-ops.
pub proof fn lemma_navigate_idempotent(s: NavigationState)
    ensures
        navigate_spec(s, s.current) == s,
{
}

/// Navigating to a different page always sets that page as current and
/// flips the animation toggle, whatever the toggle held before.
pub proof fn lemma_navigate_switches(s: NavigationState, target: Page)
    requires
        s.current != target,
    ensures
        navigate_spec(s, target).current == target,
        navigate_spec(s, target).animation_toggle == !s.animation_toggle,
{
}

// Labels of the navigation rail.

pub const TITLE_LABEL: &'static str = "Charles Earp";

pub const ABOUT_LABEL: &'static str = "About";

pub const EDUCATION_LABEL: &'static str = "Education";

pub const CERTIFICATIONS_LABEL: &'static str = "Certifications";

pub const EXPERIENCE_LABEL: &'static str = "Experience";

pub const PROJECTS_LABEL: &'static str = "Projects";

pub const CONTRIBUTIONS_LABEL: &'static str = "Contributions";

/// One button of the navigation rail: a display label and the page a
/// click on it navigates to.
#[derive(Clone, Copy, Debug, PartialEq, Eq)]
pub struct NavItem {
    pub label: &'static str,
    pub target: Page,
}

/// Mathematical model of a navigation button.
#[verifier::ext_equal]
pub ghost struct NavItemModel {
    pub label: Seq<char>,
    pub target: Page,
}

impl View for NavItem {
    type V = NavItemModel;

    open spec fn view(&self) -> NavItemModel {
        NavItemModel { label: self.label@, target: self.target }
    }
}

/// The fixed, ordered list of the six page buttons of the rail.
pub open spec fn nav_items_model() -> Seq<NavItemModel> {
    seq![
        NavItemModel { label: ABOUT_LABEL@, target: Page::About },
        NavItemModel { label: EDUCATION_LABEL@, target: Page::Education },
        NavItemModel { label: CERTIFICATIONS_LABEL@, target: Page::Certifications },
        NavItemModel { label: EXPERIENCE_LABEL@, target: Page::Experience },
        NavItemModel { label: PROJECTS_LABEL@, target: Page::Projects },
        NavItemModel { label: CONTRIBUTIONS_LABEL@, target: Page::Contributions },
    ]
}

/// The six page buttons of the navigation rail, one per page, in the
/// fixed display order.
pub fn nav_items() -> (items: Vec<NavItem>)
    ensures
        items@.map_values(|e: NavItem| e@) == nav_items_model(),
{
    let mut items: Vec<NavItem> = Vec::new();
    items.push(NavItem { label: ABOUT_LABEL, target: Page::About });
    items.push(NavItem { label: EDUCATION_LABEL, target: Page::Education });
    items.push(NavItem { label: CERTIFICATIONS_LABEL, target: Page::Certifications });
    items.push(NavItem { label: EXPERIENCE_LABEL, target: Page::Experience });
    items.push(NavItem { label: PROJECTS_LABEL, target: Page::Projects });
    items.push(NavItem { label: CONTRIBUTIONS_LABEL, target: Page::Contributions });
    proof {
        assert(items@.map_values(|e: NavItem| e@) =~~= nav_items_model());
    }
    items
}

/// The title button of the rail: the site owner's name, always leading
/// back to the about page.
pub fn nav_title() -> (item: NavItem)
    ensures
        item@ == (NavItemModel { label: TITLE_LABEL@, target: Page::About }),
{
    NavItem { label: TITLE_LABEL, target: Page::About }
}

// The fixed contact links.

pub const MAIL_HREF: &'static str = "mailto:charles.r.earp@gmail.com";

pub const SOURCE_HOST_HREF: &'static str = "https://www.github.com/charles-r-earp";

/// Icons are rendered at this fixed size, in both dimensions.
pub const ICON_SIZE: u32 = 40;

/// The glyph of a contact link. The glyphs themselves come from an icon
/// set outside this library; only their identity is modeled here.
#[derive(Clone, Copy, Debug, PartialEq, Eq, Structural)]
pub enum IconKind {
    Mail,
    SourceHost,
}

/// One contact link: an icon rendered at a fixed size, wrapped in a link.
#[derive(Clone, Copy, Debug, PartialEq, Eq)]
pub struct IconLink {
    pub icon: IconKind,
    pub href: &'static str,
    pub size: u32,
}

/// Mathematical model of a contact link.
#[verifier::ext_equal]
pub ghost struct IconLinkModel {
    pub icon: IconKind,
    pub href: Seq<char>,
    pub size: u32,
}

impl View for IconLink {
    type V = IconLinkModel;

    open spec fn view(&self) -> IconLinkModel {
        IconLinkModel { icon: self.icon, href: self.href@, size: self.size }
    }
}

/// The two contact links, in order: mail, then the source-code host.
pub open spec fn contact_links_model() -> Seq<IconLinkModel> {
    seq![
        IconLinkModel { icon: IconKind::Mail, href: MAIL_HREF@, size: ICON_SIZE },
        IconLinkModel { icon: IconKind::SourceHost, href: SOURCE_HOST_HREF@, size: ICON_SIZE },
    ]
}

/// Exactly two fixed icon-links: an email contact and a source-code-host
/// profile, each at the fixed icon size.
pub fn contact_links() -> (links: Vec<IconLink>)
    ensures
        links@.map_values(|l: IconLink| l@) == contact_links_model(),
{
    let mut links: Vec<IconLink> = Vec::new();
    links.push(IconLink { icon: IconKind::Mail, href: MAIL_HREF, size: ICON_SIZE });
    links.push(IconLink { icon: IconKind::SourceHost, href: SOURCE_HOST_HREF, size: ICON_SIZE });
    proof {
        assert(links@.map_values(|l: IconLink| l@) =~~= contact_links_model());
    }
    links
}

} // verus!
