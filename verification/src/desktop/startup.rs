//! The tabs that the browser starts with, and the tabs that it saves.
use crate::control::bookmarks::sort_tabs;
use crate::control::plane::ControlPlane;
use crate::control::InnerStateView;
use crate::draw::DrawView;
use crate::error::{ControlError, ControlErrorView};
use crate::tab::{CreateTabRequest, CreateTabRequestView, TabState, TabStateView};
use crate::text::{is_text, same_text, starts_with, trimmed};
use crate::vault::SecretStore;
use vstd::prelude::*;

verus! {

broadcast use crate::model::group_views;

/// The file of saved tabs.
pub const DESKTOP_TABS_FILE: &'static str = "tabs.json";

/// The version of saved tabs.
pub const DESKTOP_TAB_SNAPSHOT_VERSION: u32 = 1;

/// The greatest number of tabs that the browser starts with.
pub const MAX_RESTORED_TABS: usize = 32;

/// A saved tab.
#[derive(Debug, PartialEq, Eq)]
pub struct DesktopSavedTab {
    pub url: String,
    pub title: Option<String>,
}

/// Model of [`DesktopSavedTab`].
#[verifier::ext_equal]
pub struct DesktopSavedTabView {
    pub url: Seq<char>,
    pub title: Option<Seq<char>>,
}

impl View for DesktopSavedTab {
    type V = DesktopSavedTabView;

    open spec fn view(&self) -> DesktopSavedTabView {
        DesktopSavedTabView { url: self.url@, title: crate::model::opt_view(self.title) }
    }
}

/// Saved tabs, and which of them was the active one.
#[derive(Debug, PartialEq, Eq)]
pub struct DesktopTabSnapshot {
    pub version: u32,
    pub active_index: Option<usize>,
    pub tabs: Vec<DesktopSavedTab>,
}

/// Model of [`DesktopTabSnapshot`].
#[verifier::ext_equal]
pub struct DesktopTabSnapshotView {
    pub version: u32,
    pub active_index: Option<usize>,
    pub tabs: Seq<DesktopSavedTabView>,
}

impl View for DesktopTabSnapshot {
    type V = DesktopTabSnapshotView;

    open spec fn view(&self) -> DesktopTabSnapshotView {
        DesktopTabSnapshotView {
            version: self.version,
            active_index: self.active_index,
            tabs: crate::model::views(self.tabs@),
        }
    }
}

/// A tab that the browser starts with.
#[derive(Debug, PartialEq, Eq)]
pub struct DesktopStartupTab {
    pub url: String,
    pub active: bool,
}

/// Model of [`DesktopStartupTab`].
#[verifier::ext_equal]
pub struct DesktopStartupTabView {
    pub url: Seq<char>,
    pub active: bool,
}

impl View for DesktopStartupTab {
    type V = DesktopStartupTabView;

    open spec fn view(&self) -> DesktopStartupTabView {
        DesktopStartupTabView { url: self.url@, active: self.active }
    }
}

/// Whether a tab may show an address.
pub open spec fn tab_address(url: Seq<char>) -> bool {
    url == "about:blank"@ || super::address::web_address(url)
}

/// The address that a tab may show, if the text is one.
pub open spec fn desktop_url(url: Seq<char>) -> Option<Seq<char>> {
    let url = crate::text::trim(url);
    if tab_address(url) {
        Some(url)
    } else {
        None
    }
}

/// The address that a tab may show, if the text is one.
pub fn sanitize_desktop_tab_url(url: &str) -> (kept: Option<String>)
    ensures
        crate::model::opt_view(kept) == desktop_url(url@),
{
    let url = trimmed(url);
    if same_text(url.as_str(), "about:blank") || starts_with(url.as_str(), "http://") || starts_with(
        url.as_str(),
        "https://",
    ) {
        Some(url)
    } else {
        None
    }
}

/// Saved tabs of the version that is known.
pub fn known_snapshot(snapshot: Option<DesktopTabSnapshot>) -> (known: Option<DesktopTabSnapshot>)
    ensures
        known == match snapshot {
            Some(snapshot) => if snapshot.version == DESKTOP_TAB_SNAPSHOT_VERSION {
                Some(snapshot)
            } else {
                None
            },
            None => None,
        },
{
    match snapshot {
        Some(snapshot) => if snapshot.version == DESKTOP_TAB_SNAPSHOT_VERSION {
            Some(snapshot)
        } else {
            None
        },
        None => None,
    }
}

/// Which saved tab is the active one: the one that was, or the first.
pub open spec fn saved_active(snapshot: DesktopTabSnapshotView) -> int {
    match snapshot.active_index {
        Some(index) => if index < snapshot.tabs.len() {
            index as int
        } else {
            0
        },
        None => 0,
    }
}

/// Saved tabs that may be shown, in their order.
pub open spec fn restorable(tabs: Seq<DesktopSavedTabView>, active: int) -> Seq<
    DesktopStartupTabView,
>
    decreases tabs.len(),
{
    if tabs.len() == 0 {
        Seq::empty()
    } else {
        let head = restorable(tabs.drop_last(), active);
        match desktop_url(tabs.last().url) {
            Some(url) => head.push(
                DesktopStartupTabView { url, active: tabs.len() - 1 == active },
            ),
            None => head,
        }
    }
}

/// The first items of a list, up to a number.
pub open spec fn first_items<A>(items: Seq<A>, limit: nat) -> Seq<A> {
    if items.len() <= limit {
        items
    } else {
        items.take(limit as int)
    }
}

/// Keeps the first items of a list, up to a number.
fn keep_first<T: View>(items: &mut Vec<T>, limit: usize)
    ensures
        crate::model::views(final(items)@) == first_items(
            crate::model::views(old(items)@),
            limit as nat,
        ),
{
    let ghost before = items@;
    if items.len() > limit {
        items.truncate(limit);
        assert(crate::model::views(items@) =~= crate::model::views(before).take(limit as int));
    }
}

/// The tabs that saved tabs give.
pub open spec fn snapshot_tabs(snapshot: DesktopTabSnapshotView) -> Seq<DesktopStartupTabView> {
    first_items(restorable(snapshot.tabs, saved_active(snapshot)), MAX_RESTORED_TABS as nat)
}

/// The tabs that saved tabs give.
pub fn desktop_startup_tabs_from_snapshot(snapshot: &DesktopTabSnapshot) -> (tabs: Vec<
    DesktopStartupTab,
>)
    ensures
        crate::model::views(tabs@) == snapshot_tabs(snapshot@),
{
    let active: usize = match snapshot.active_index {
        Some(index) => if index < snapshot.tabs.len() {
            index
        } else {
            0
        },
        None => 0,
    };
    let ghost all = snapshot@.tabs;
    let mut tabs: Vec<DesktopStartupTab> = Vec::new();
    assert(all.take(0) =~= Seq::empty());
    for i in 0..snapshot.tabs.len()
        invariant
            all == crate::model::views(snapshot.tabs@),
            crate::model::views(tabs@) == restorable(all.take(i as int), active as int),
    {
        proof {
            assert(all.take(i + 1).drop_last() =~= all.take(i as int));
            assert(all.take(i + 1).last() == snapshot.tabs@[i as int]@);
        }
        match sanitize_desktop_tab_url(snapshot.tabs[i].url.as_str()) {
            Some(url) => tabs.push(DesktopStartupTab { url, active: i == active }),
            None => {},
        }
    }
    assert(all.take(all.len() as int) =~= all);
    keep_first(&mut tabs, MAX_RESTORED_TABS);
    tabs
}

/// The first active tab.
pub open spec fn first_active(tabs: Seq<DesktopStartupTabView>) -> Option<int>
    decreases tabs.len(),
{
    if tabs.len() == 0 {
        None
    } else {
        match first_active(tabs.drop_last()) {
            Some(index) => Some(index),
            None => if tabs.last().active {
                Some(tabs.len() - 1)
            } else {
                None
            },
        }
    }
}

/// The first active tab, or else the first.
pub open spec fn active_or_first(tabs: Seq<DesktopStartupTabView>) -> int {
    match first_active(tabs) {
        Some(index) => index,
        None => 0,
    }
}

/// The tabs with one of them active.
pub open spec fn one_active(tabs: Seq<DesktopStartupTabView>) -> Seq<DesktopStartupTabView> {
    Seq::new(
        tabs.len(),
        |i: int| DesktopStartupTabView { active: i == active_or_first(tabs), ..tabs[i] },
    )
}

proof fn first_active_is_a_tab(tabs: Seq<DesktopStartupTabView>)
    ensures
        first_active(tabs) matches Some(index) ==> 0 <= index < tabs.len() && tabs[index].active,
    decreases tabs.len(),
{
    if tabs.len() > 0 {
        first_active_is_a_tab(tabs.drop_last());
    }
}

/// The first active tab, or else the first.
fn active_position(tabs: &Vec<DesktopStartupTab>) -> (index: usize)
    ensures
        index == active_or_first(crate::model::views(tabs@)),
{
    let ghost all = crate::model::views(tabs@);
    let mut index: usize = 0;
    let mut found = false;
    assert(all.take(0) =~= Seq::empty());
    for i in 0..tabs.len()
        invariant
            all == crate::model::views(tabs@),
            first_active(all.take(i as int)) == if found {
                Some(index as int)
            } else {
                None
            },
            !found ==> index == 0,
    {
        proof {
            assert(all.take(i + 1).drop_last() =~= all.take(i as int));
            assert(all.take(i + 1).last() == tabs@[i as int]@);
        }
        if !found && tabs[i].active {
            found = true;
            index = i;
        }
    }
    assert(all.take(all.len() as int) =~= all);
    index
}

/// Makes one of the tabs active: the first that is, or else the first.
pub fn ensure_one_active_startup_tab(tabs: &mut Vec<DesktopStartupTab>)
    ensures
        crate::model::views(final(tabs)@) == one_active(crate::model::views(old(tabs)@)),
{
    let ghost all = crate::model::views(tabs@);
    let active = active_position(tabs);
    let mut result: Vec<DesktopStartupTab> = Vec::new();
    for i in 0..tabs.len()
        invariant
            all == crate::model::views(tabs@),
            active == active_or_first(all),
            result@.len() == i,
            forall|j: int| 0 <= j < i ==> (#[trigger] result@[j])@ == one_active(all)[j],
    {
        assert(all[i as int] == tabs@[i as int]@);
        result.push(DesktopStartupTab { url: tabs[i].url.clone(), active: i == active });
    }
    *tabs = result;
    assert(crate::model::views(tabs@) =~= one_active(all));
}

/// No tab active.
pub open spec fn none_active(tabs: Seq<DesktopStartupTabView>) -> Seq<DesktopStartupTabView> {
    Seq::new(tabs.len(), |i: int| DesktopStartupTabView { active: false, ..tabs[i] })
}

/// Makes no tab active.
fn deactivate(tabs: &mut Vec<DesktopStartupTab>)
    ensures
        crate::model::views(final(tabs)@) == none_active(crate::model::views(old(tabs)@)),
{
    let ghost all = crate::model::views(tabs@);
    let mut result: Vec<DesktopStartupTab> = Vec::new();
    for i in 0..tabs.len()
        invariant
            all == crate::model::views(tabs@),
            result@.len() == i,
            forall|j: int| 0 <= j < i ==> (#[trigger] result@[j])@ == none_active(all)[j],
    {
        assert(all[i as int] == tabs@[i as int]@);
        result.push(DesktopStartupTab { url: tabs[i].url.clone(), active: false });
    }
    *tabs = result;
    assert(crate::model::views(tabs@) =~= none_active(all));
}

/// The address that is asked for, if it is one.
pub open spec fn asked_url(url: Option<Seq<char>>) -> Option<Seq<char>> {
    match url {
        Some(url) => desktop_url(url),
        None => None,
    }
}

/// The saved tabs with the one that is asked for, which is then the active one.
pub open spec fn with_requested(
    tabs: Seq<DesktopStartupTabView>,
    requested_url: Option<Seq<char>>,
) -> Seq<DesktopStartupTabView> {
    match asked_url(requested_url) {
        Some(url) => none_active(tabs).push(DesktopStartupTabView { url, active: true }),
        None => tabs,
    }
}

/// The home page, or a blank one, if there is no tab.
pub open spec fn with_home(tabs: Seq<DesktopStartupTabView>, home_url: Option<Seq<char>>) -> Seq<
    DesktopStartupTabView,
> {
    if tabs.len() == 0 {
        seq![
            DesktopStartupTabView {
                url: match asked_url(home_url) {
                    Some(url) => url,
                    None => "about:blank"@,
                },
                active: true,
            },
        ]
    } else {
        tabs
    }
}

/// The tabs that the browser starts with.
pub open spec fn startup_tabs(
    snapshot: Option<DesktopTabSnapshotView>,
    requested_url: Option<Seq<char>>,
    home_url: Option<Seq<char>>,
) -> Seq<DesktopStartupTabView> {
    let saved = match snapshot {
        Some(snapshot) => if snapshot.version == DESKTOP_TAB_SNAPSHOT_VERSION {
            snapshot_tabs(snapshot)
        } else {
            Seq::empty()
        },
        None => Seq::empty(),
    };
    one_active(
        first_items(
            one_active(with_home(with_requested(saved, requested_url), home_url)),
            MAX_RESTORED_TABS as nat,
        ),
    )
}

/// The address that is asked for, if it is one.
fn asked_address(url: Option<String>) -> (kept: Option<String>)
    ensures
        crate::model::opt_view(kept) == asked_url(crate::model::opt_view(url)),
{
    match url {
        Some(url) => sanitize_desktop_tab_url(url.as_str()),
        None => None,
    }
}

/// The tabs that the browser starts with: the saved ones, the one that is asked for, or the home
/// page.
pub fn load_desktop_startup_tabs_with_home(
    snapshot: Option<DesktopTabSnapshot>,
    requested_url: Option<String>,
    home_url: Option<String>,
) -> (tabs: Vec<DesktopStartupTab>)
    ensures
        crate::model::views(tabs@) == startup_tabs(
            crate::model::opt_view(snapshot),
            crate::model::opt_view(requested_url),
            crate::model::opt_view(home_url),
        ),
{
    let mut tabs: Vec<DesktopStartupTab> = match known_snapshot(snapshot) {
        Some(snapshot) => desktop_startup_tabs_from_snapshot(&snapshot),
        None => Vec::new(),
    };
    match asked_address(requested_url) {
        Some(url) => {
            deactivate(&mut tabs);
            tabs.push(DesktopStartupTab { url, active: true });
        },
        None => {},
    }
    if tabs.is_empty() {
        let url = match asked_address(home_url) {
            Some(url) => url,
            None => "about:blank".to_owned(),
        };
        tabs.push(DesktopStartupTab { url, active: true });
        assert(crate::model::views(tabs@) =~= with_home(
            Seq::empty(),
            crate::model::opt_view(home_url),
        ));
    }
    ensure_one_active_startup_tab(&mut tabs);
    keep_first(&mut tabs, MAX_RESTORED_TABS);
    ensure_one_active_startup_tab(&mut tabs);
    tabs
}

/// The tabs that the browser starts with, where no home page is set.
pub fn load_desktop_startup_tabs(
    snapshot: Option<DesktopTabSnapshot>,
    requested_url: Option<String>,
) -> (tabs: Vec<DesktopStartupTab>)
    ensures
        crate::model::views(tabs@) == startup_tabs(
            crate::model::opt_view(snapshot),
            crate::model::opt_view(requested_url),
            None,
        ),
{
    load_desktop_startup_tabs_with_home(snapshot, requested_url, None)
}

/// Opening tabs that the browser already shows, one after another until one fails; `draws` is what
/// is drawn for each.
pub open spec fn registered(
    state: InnerStateView,
    urls: Seq<Seq<char>>,
    draws: Seq<DrawView>,
) -> (InnerStateView, Result<Seq<TabStateView>, ControlErrorView>)
    decreases urls.len(),
{
    if urls.len() == 0 {
        (state, Ok(Seq::empty()))
    } else {
        let head = registered(state, urls.drop_last(), draws.drop_last());
        match head.1 {
            Err(error) => head,
            Ok(tabs) => {
                let step = crate::control::tabs::create_tab(
                    head.0,
                    CreateTabRequestView { url: Some(urls.last()), session_id: None },
                    false,
                    draws.last(),
                );
                (
                    step.0,
                    match step.1 {
                        Err(error) => Err(error),
                        Ok(tab) => Ok(tabs.push(tab)),
                    },
                )
            },
        }
    }
}

proof fn first_failure_stays(
    state: InnerStateView,
    urls: Seq<Seq<char>>,
    draws: Seq<DrawView>,
    n: int,
)
    requires
        0 <= n <= urls.len(),
        draws.len() == urls.len(),
        registered(state, urls.take(n), draws.take(n)).1 is Err,
    ensures
        registered(state, urls, draws) == registered(state, urls.take(n), draws.take(n)),
    decreases urls.len() - n,
{
    if n == urls.len() {
        assert(urls.take(n) =~= urls);
        assert(draws.take(n) =~= draws);
    } else {
        assert(urls.take(n + 1).drop_last() =~= urls.take(n));
        assert(draws.take(n + 1).drop_last() =~= draws.take(n));
        first_failure_stays(state, urls, draws, n + 1);
    }
}

/// Whether each draw is one for a tab.
pub open spec fn tab_draws(draws: Seq<DrawView>, count: nat) -> bool {
    &&& draws.len() == count
    &&& forall|i: int|
        0 <= i < draws.len() ==> #[trigger] crate::control::plane::drawn(draws[i], 3)
}

/// The addresses in the order in which they are opened: the active one last, so that it stays the
/// active one.
pub open spec fn opening_order(tabs: Seq<DesktopStartupTabView>) -> Seq<Seq<char>> {
    let active = active_or_first(tabs);
    let urls = Seq::new(tabs.len(), |i: int| tabs[i].url);
    if tabs.len() == 0 {
        urls
    } else {
        urls.remove(active).push(urls[active])
    }
}

/// Opened tabs in the order in which they were asked for.
pub open spec fn asking_order(tabs: Seq<TabStateView>, active: int) -> Seq<TabStateView> {
    if tabs.len() == 0 {
        tabs
    } else {
        tabs.drop_last().insert(active, tabs.last())
    }
}

/// Opens tabs that the browser already shows, one after another until one fails.
fn register_all<S: SecretStore>(plane: &mut ControlPlane<S>, urls: Vec<String>) -> (outcome: Result<
    Vec<TabState>,
    ControlError,
>)
    ensures
        exists|draws: Seq<DrawView>| #[trigger]
            tab_draws(draws, urls@.len()) && (
                final(plane)@.inner,
                match outcome {
                    Ok(tabs) => Ok(crate::model::views(tabs@)),
                    Err(error) => Err(error@),
                },
            ) == registered(old(plane)@.inner, crate::model::views(urls@), draws),
        final(plane).vault == old(plane).vault,
{
    let ghost all = crate::model::views(urls@);
    let ghost start = plane@.inner;
    let ghost vault = plane.vault;
    let ghost mut draws: Seq<DrawView> = Seq::empty();
    let mut tabs: Vec<TabState> = Vec::new();
    assert(all.take(0) =~= Seq::empty());
    for i in 0..urls.len()
        invariant
            all == crate::model::views(urls@),
            start == old(plane)@.inner,
            vault == old(plane).vault,
            plane.vault == vault,
            tab_draws(draws, i as nat),
            registered(start, all.take(i as int), draws) == (
                plane@.inner,
                Ok::<Seq<TabStateView>, ControlErrorView>(crate::model::views(tabs@)),
            ),
    {
        let ghost before = plane@.inner;
        let request = CreateTabRequest { url: Some(urls[i].clone()), session_id: None };
        let ghost asked = request@;
        let outcome = plane.register_tab(request);
        proof {
            let draw = choose|draw: DrawView| #[trigger]
                crate::control::plane::drawn(draw, 3) && (
                    plane@.inner,
                    crate::error::control_result(outcome),
                ) == crate::control::tabs::create_tab(before, asked, false, draw);
            assert(all.take(i + 1).drop_last() =~= all.take(i as int));
            assert(all.take(i + 1).last() == urls@[i as int]@);
            assert(draws.push(draw).drop_last() =~= draws);
            draws = draws.push(draw);
        }
        match outcome {
            Ok(tab) => tabs.push(tab),
            Err(error) => {
                proof {
                    let rest = Seq::new((all.len() - draws.len()) as nat, |j: int| draws[0]);
                    let full = draws + rest;
                    assert(full.take(i + 1) =~= draws);
                    assert forall|j: int| 0 <= j < full.len() implies #[trigger]
                        crate::control::plane::drawn(full[j], 3) by {
                        if j < draws.len() {
                            assert(full[j] == draws[j]);
                        } else {
                            assert(full[j] == draws[0]);
                        }
                    }
                    first_failure_stays(start, all, full, i + 1);
                    assert(tab_draws(full, all.len()));
                }
                return Err(error);
            },
        }
    }
    assert(all.take(all.len() as int) =~= all);
    Ok(tabs)
}

/// Opens the tabs that the browser starts with; they are given back in the order in which they
/// are given.
pub fn register_desktop_startup_tabs<S: SecretStore>(
    plane: &mut ControlPlane<S>,
    tabs: &Vec<DesktopStartupTab>,
) -> (outcome: Result<Vec<TabState>, ControlError>)
    ensures
        ({
            let all = crate::model::views(tabs@);
            exists|draws: Seq<DrawView>| #[trigger]
                tab_draws(draws, all.len()) && {
                    let opened = registered(old(plane)@.inner, opening_order(all), draws);
                    &&& final(plane)@.inner == opened.0
                    &&& match opened.1 {
                        Err(error) => outcome matches Err(e) && e@ == error,
                        Ok(list) => outcome matches Ok(kept) && crate::model::views(kept@)
                            == asking_order(list, active_or_first(all)),
                    }
                }
        }),
        final(plane).vault == old(plane).vault,
{
    let ghost all = crate::model::views(tabs@);
    let active = active_position(tabs);
    proof {
        first_active_is_a_tab(all);
    }
    let mut urls: Vec<String> = Vec::new();
    let ghost texts = Seq::new(all.len(), |i: int| all[i].url);
    for i in 0..tabs.len()
        invariant
            all == crate::model::views(tabs@),
            texts == Seq::new(all.len(), |i: int| all[i].url),
            active == active_or_first(all),
            tabs.len() > 0 ==> active < tabs.len(),
            crate::model::views(urls@) == if i <= active {
                texts.take(i as int)
            } else {
                texts.take(i as int).remove(active as int)
            },
    {
        let ghost before = urls@;
        assert(all[i as int] == tabs@[i as int]@);
        if i != active {
            urls.push(tabs[i].url.clone());
            assert(crate::model::views(urls@) =~= crate::model::views(before).push(
                texts[i as int],
            ));
            assert(i < active ==> crate::model::views(urls@) =~= texts.take(i + 1));
            assert(i > active ==> crate::model::views(urls@) =~= texts.take(i + 1).remove(
                active as int,
            ));
        } else {
            assert(texts.take(i + 1).remove(active as int) =~= texts.take(i as int));
        }
    }
    assert(texts.take(texts.len() as int) =~= texts);
    if active < tabs.len() {
        urls.push(tabs[active].url.clone());
        assert(all[active as int] == tabs@[active as int]@);
    }
    assert(crate::model::views(urls@) =~= opening_order(all));
    let outcome = register_all(plane, urls);
    match outcome {
        Err(error) => Err(error),
        Ok(opened) => {
            let mut kept = opened;
            let ghost list = crate::model::views(kept@);
            proof {
                let draws = choose|draws: Seq<DrawView>| #[trigger]
                    tab_draws(draws, urls@.len()) && (
                        plane@.inner,
                        Ok::<Seq<TabStateView>, ControlErrorView>(list),
                    ) == registered(old(plane)@.inner, crate::model::views(urls@), draws);
                all_are_opened(old(plane)@.inner, crate::model::views(urls@), draws);
            }
            match kept.pop() {
                Some(last) => {
                    assert(crate::model::views(kept@) =~= list.drop_last());
                    kept.insert(active, last);
                    assert(crate::model::views(kept@) =~= asking_order(list, active as int));
                },
                None => {},
            }
            Ok(kept)
        },
    }
}

proof fn all_are_opened(state: InnerStateView, urls: Seq<Seq<char>>, draws: Seq<DrawView>)
    ensures
        registered(state, urls, draws).1 matches Ok(tabs) ==> tabs.len() == urls.len(),
    decreases urls.len(),
{
    if urls.len() > 0 {
        all_are_opened(state, urls.drop_last(), draws.drop_last());
    }
}

/// What is saved of tabs: those that show an address that may be saved, and which of them is the
/// active one.
pub open spec fn saved_of(tabs: Seq<TabStateView>, active_tab_id: Option<Seq<char>>) -> (
    Seq<DesktopSavedTabView>,
    Option<nat>,
)
    decreases tabs.len(),
{
    if tabs.len() == 0 {
        (Seq::empty(), None)
    } else {
        let head = saved_of(tabs.drop_last(), active_tab_id);
        let tab = tabs.last();
        match asked_url(tab.current_url) {
            None => head,
            Some(url) => (
                head.0.push(DesktopSavedTabView { url, title: tab.title }),
                if active_tab_id == Some(tab.id) {
                    Some(head.0.len())
                } else {
                    head.1
                },
            ),
        }
    }
}

/// The identifier of the active tab.
pub open spec fn active_id(state: InnerStateView) -> Option<Seq<char>> {
    match crate::control::tabs::active_tab(state) {
        Some(tab) => Some(tab.id),
        None => None,
    }
}

/// What is saved of all tabs, the older first.
pub open spec fn tabs_to_save(state: InnerStateView) -> (Seq<DesktopSavedTabView>, Option<nat>) {
    saved_of(
        crate::lists::sorted(
            crate::keyed::ordered_values(state.tabs),
            crate::control::bookmarks::tab_first(),
        ),
        active_id(state),
    )
}

/// What is saved of the open tabs. Sessions are not.
pub fn desktop_tab_snapshot<S: SecretStore>(plane: &ControlPlane<S>) -> (snapshot: Result<
    DesktopTabSnapshot,
    ControlError,
>)
    ensures
        snapshot matches Ok(snapshot) && {
            let saved = tabs_to_save(plane@.inner);
            &&& snapshot.version == DESKTOP_TAB_SNAPSHOT_VERSION
            &&& crate::model::views(snapshot.tabs@) == saved.0
            &&& match saved.1 {
                Some(index) => snapshot.active_index matches Some(i) && i == index,
                None => snapshot.active_index is None,
            }
        },
{
    let tabs = sort_tabs(plane.inner.list_tabs());
    let active: Option<String> = match plane.inner.active_tab() {
        Some(tab) => Some(tab.id),
        None => None,
    };
    let ghost all = crate::model::views(tabs@);
    let ghost wanted = crate::model::opt_view(active);
    let mut saved: Vec<DesktopSavedTab> = Vec::new();
    let mut active_index: Option<usize> = None;
    assert(all.take(0) =~= Seq::empty());
    for tab in it: tabs.into_iter()
        invariant
            all == crate::model::views(it.seq()),
            wanted == crate::model::opt_view(active),
            crate::model::views(saved@) == saved_of(all.take(it.index() as int), wanted).0,
            match saved_of(all.take(it.index() as int), wanted).1 {
                Some(index) => active_index matches Some(i) && i == index,
                None => active_index is None,
            },
    {
        let ghost n = it.index() as int;
        proof {
            assert(all.take(n + 1).drop_last() =~= all.take(n));
            assert(all.take(n + 1).last() == tab@);
        }
        let url = match &tab.current_url {
            Some(url) => sanitize_desktop_tab_url(url.as_str()),
            None => None,
        };
        match url {
            None => {},
            Some(url) => {
                if is_text(&active, tab.id.as_str()) {
                    active_index = Some(saved.len());
                }
                saved.push(DesktopSavedTab { url, title: tab.title });
            },
        }
    }
    assert(all.take(all.len() as int) =~= all);
    Ok(
        DesktopTabSnapshot {
            version: DESKTOP_TAB_SNAPSHOT_VERSION,
            active_index,
            tabs: saved,
        },
    )
}

proof fn restorable_tabs_are_safe(tabs: Seq<DesktopSavedTabView>, active: int)
    ensures
        forall|i: int|
            0 <= i < restorable(tabs, active).len() ==> tab_address(
                (#[trigger] restorable(tabs, active)[i]).url,
            ),
    decreases tabs.len(),
{
    if tabs.len() > 0 {
        restorable_tabs_are_safe(tabs.drop_last(), active);
        let head = restorable(tabs.drop_last(), active);
        assert forall|i: int| 0 <= i < restorable(tabs, active).len() implies tab_address(
            (#[trigger] restorable(tabs, active)[i]).url,
        ) by {
            if i < head.len() {
                assert(restorable(tabs, active)[i] == head[i]);
            }
        }
    }
}

/// The browser starts with at least one tab and with no more than it restores; exactly one of them
/// is active; and each is blank or on the web.
pub proof fn startup_tabs_are_sound(
    snapshot: Option<DesktopTabSnapshotView>,
    requested_url: Option<Seq<char>>,
    home_url: Option<Seq<char>>,
)
    ensures
        ({
            let tabs = startup_tabs(snapshot, requested_url, home_url);
            &&& 1 <= tabs.len() <= MAX_RESTORED_TABS
            &&& exists|i: int|
                0 <= i < tabs.len() && (#[trigger] tabs[i]).active && forall|j: int|
                    0 <= j < tabs.len() && j != i ==> !(#[trigger] tabs[j]).active
            &&& forall|i: int| 0 <= i < tabs.len() ==> tab_address((#[trigger] tabs[i]).url)
        }),
{
    let saved = match snapshot {
        Some(snapshot) => if snapshot.version == DESKTOP_TAB_SNAPSHOT_VERSION {
            snapshot_tabs(snapshot)
        } else {
            Seq::empty()
        },
        None => Seq::empty(),
    };
    if let Some(snapshot) = snapshot {
        restorable_tabs_are_safe(snapshot.tabs, saved_active(snapshot));
    }
    let all = with_home(with_requested(saved, requested_url), home_url);
    let cut = first_items(one_active(all), MAX_RESTORED_TABS as nat);
    let tabs = startup_tabs(snapshot, requested_url, home_url);
    first_active_is_a_tab(cut);
    let at = active_or_first(cut);
    assert(tabs[at].active);
}

/// What is saved and opened again shows the same addresses, where there are not too many.
pub proof fn saved_tabs_come_back(state: InnerStateView, snapshot: DesktopTabSnapshotView)
    requires
        snapshot.version == DESKTOP_TAB_SNAPSHOT_VERSION,
        snapshot.tabs == tabs_to_save(state).0,
        match tabs_to_save(state).1 {
            Some(index) => snapshot.active_index matches Some(i) && i == index,
            None => snapshot.active_index is None,
        },
        0 < snapshot.tabs.len() <= MAX_RESTORED_TABS,
    ensures
        ({
            let tabs = startup_tabs(Some(snapshot), None, None);
            &&& tabs.len() == snapshot.tabs.len()
            &&& forall|i: int|
                0 <= i < tabs.len() ==> (#[trigger] tabs[i]).url == snapshot.tabs[i].url
            &&& tabs_to_save(state).1 matches Some(index) ==> tabs[index as int].active
        }),
{
    let sorted = crate::lists::sorted(
        crate::keyed::ordered_values(state.tabs),
        crate::control::bookmarks::tab_first(),
    );
    saved_addresses_are_kept(sorted, active_id(state));
    let active = saved_active(snapshot);
    safe_tabs_are_restored(snapshot.tabs, active);
    let all = restorable(snapshot.tabs, active);
    only_one_is_active(all, active);
    let once = one_active(all);
    assert(first_items(all, MAX_RESTORED_TABS as nat) == all);
    only_one_is_active(once, active);
}

proof fn saved_addresses_are_kept(tabs: Seq<TabStateView>, active_tab_id: Option<Seq<char>>)
    ensures
        forall|i: int|
            0 <= i < saved_of(tabs, active_tab_id).0.len() ==> desktop_url(
                (#[trigger] saved_of(tabs, active_tab_id).0[i]).url,
            ) == Some(saved_of(tabs, active_tab_id).0[i].url),
        saved_of(tabs, active_tab_id).1 matches Some(index) ==> index < saved_of(
            tabs,
            active_tab_id,
        ).0.len(),
    decreases tabs.len(),
{
    if tabs.len() > 0 {
        saved_addresses_are_kept(tabs.drop_last(), active_tab_id);
        if let Some(url) = tabs.last().current_url {
            crate::text::trim_is_idempotent(url);
        }
    }
}

proof fn safe_tabs_are_restored(tabs: Seq<DesktopSavedTabView>, active: int)
    requires
        forall|i: int|
            0 <= i < tabs.len() ==> desktop_url((#[trigger] tabs[i]).url) == Some(tabs[i].url),
    ensures
        restorable(tabs, active).len() == tabs.len(),
        forall|i: int|
            0 <= i < tabs.len() ==> (#[trigger] restorable(tabs, active)[i]).url == tabs[i].url
                && restorable(tabs, active)[i].active == (i == active),
    decreases tabs.len(),
{
    if tabs.len() > 0 {
        let head = tabs.drop_last();
        assert forall|i: int| 0 <= i < head.len() implies desktop_url((#[trigger] head[i]).url)
            == Some(head[i].url) by {
            assert(head[i] == tabs[i]);
        }
        safe_tabs_are_restored(head, active);
        assert(desktop_url(tabs[tabs.len() - 1].url) == Some(tabs[tabs.len() - 1].url));
        assert forall|i: int| 0 <= i < tabs.len() implies (#[trigger] restorable(tabs, active)[i]).url
            == tabs[i].url && restorable(tabs, active)[i].active == (i == active) by {
            if i < head.len() {
                assert(restorable(tabs, active)[i] == restorable(head, active)[i]);
                assert(head[i] == tabs[i]);
            }
        }
    }
}

proof fn only_one_is_active(tabs: Seq<DesktopStartupTabView>, active: int)
    requires
        0 <= active < tabs.len(),
        forall|i: int| 0 <= i < tabs.len() ==> (#[trigger] tabs[i]).active == (i == active),
    ensures
        one_active(tabs) =~= tabs,
{
    the_active_one_is_found(tabs, active);
}

proof fn the_active_one_is_found(tabs: Seq<DesktopStartupTabView>, active: int)
    requires
        0 <= active,
        forall|i: int| 0 <= i < tabs.len() ==> (#[trigger] tabs[i]).active == (i == active),
    ensures
        first_active(tabs) == if active < tabs.len() {
            Some(active)
        } else {
            None
        },
    decreases tabs.len(),
{
    if tabs.len() > 0 {
        let head = tabs.drop_last();
        assert forall|i: int| 0 <= i < head.len() implies (#[trigger] head[i]).active == (i
            == active) by {
            assert(head[i] == tabs[i]);
        }
        the_active_one_is_found(head, active);
        assert(tabs[tabs.len() - 1].active == (tabs.len() - 1 == active));
    }
}

/// A tab shows what it is given without outer white space, just if that is the blank page or begins
/// like an address of the web.
pub proof fn tabs_show_the_blank_page_or_the_web(url: Seq<char>)
    ensures
        ({
            let inner = crate::text::trim(url);
            desktop_url(url) == if inner == "about:blank"@ || "http://"@.is_prefix_of(inner)
                || "https://"@.is_prefix_of(inner) {
                Some(inner)
            } else {
                None
            }
        }),
{
    let inner = crate::text::trim(url);
    let http = "http://"@;
    let https = "https://"@;
    if crate::text::has_prefix(inner, http) {
        assert(http.is_prefix_of(inner));
    }
    if crate::text::has_prefix(inner, https) {
        assert(https.is_prefix_of(inner));
    }
    if http.is_prefix_of(inner) {
        assert(inner.take(http.len() as int) =~= http);
        assert(crate::text::has_prefix(inner, http));
    }
    if https.is_prefix_of(inner) {
        assert(inner.take(https.len() as int) =~= https);
        assert(crate::text::has_prefix(inner, https));
    }
}

/// The addresses of tabs.
pub open spec fn addresses(tabs: Seq<DesktopStartupTabView>) -> Seq<Seq<char>> {
    tabs.map_values(|tab: DesktopStartupTabView| tab.url)
}

/// The saved tabs that may be shown are restored, all of them and in their order; and the active one
/// is the one that was saved as the active one.
pub proof fn saved_tabs_are_restored_in_order(tabs: Seq<DesktopSavedTabView>, active: int)
    ensures
        addresses(restorable(tabs, active)) == tabs.filter(
            |tab: DesktopSavedTabView| desktop_url(tab.url) is Some,
        ).map_values(|tab: DesktopSavedTabView| crate::text::trim(tab.url)),
        0 <= active < tabs.len() && desktop_url(tabs[active].url) is Some ==> exists|i: int|
            0 <= i < restorable(tabs, active).len() && (#[trigger] restorable(tabs, active)[i]).active
                && restorable(tabs, active)[i].url == crate::text::trim(tabs[active].url),
        forall|i: int|
            0 <= i < restorable(tabs, active).len() && (#[trigger] restorable(tabs, active)[i]).active
                ==> 0 <= active < tabs.len() && restorable(tabs, active)[i].url
                == crate::text::trim(tabs[active].url),
    decreases tabs.len(),
{
    reveal(Seq::filter);
    let shown = |tab: DesktopSavedTabView| desktop_url(tab.url) is Some;
    let address = |tab: DesktopSavedTabView| crate::text::trim(tab.url);
    let all = restorable(tabs, active);
    if tabs.len() > 0 {
        let head = tabs.drop_last();
        let rest = restorable(head, active);
        saved_tabs_are_restored_in_order(head, active);
        if desktop_url(tabs.last().url) is Some {
            assert(addresses(all) =~= addresses(rest).push(crate::text::trim(tabs.last().url)));
            assert(tabs.filter(shown) =~= head.filter(shown).push(tabs.last()));
            assert(tabs.filter(shown).map_values(address) =~= head.filter(shown).map_values(
                address,
            ).push(crate::text::trim(tabs.last().url)));
            assert(all[all.len() - 1].active == (tabs.len() - 1 == active));
        }
        if 0 <= active < tabs.len() && desktop_url(tabs[active].url) is Some {
            if active < head.len() {
                let i = choose|i: int|
                    0 <= i < rest.len() && (#[trigger] rest[i]).active && rest[i].url
                        == crate::text::trim(head[active].url);
                assert(all[i] == rest[i]);
            } else {
                assert(all[all.len() - 1].active);
            }
        }
        assert forall|i: int| 0 <= i < all.len() && (#[trigger] all[i]).active implies 0 <= active
            < tabs.len() && all[i].url == crate::text::trim(tabs[active].url) by {
            if i < rest.len() {
                assert(all[i] == rest[i]);
            }
        }
    } else {
        assert(addresses(all) =~= tabs.filter(shown).map_values(address));
    }
}

/// A page asked for at the start is opened behind the saved ones and is the active one, unless there
/// are as many saved ones as are restored.
pub proof fn pages_asked_for_are_shown(
    snapshot: Option<DesktopTabSnapshotView>,
    url: Seq<char>,
    home_url: Option<Seq<char>>,
)
    requires
        desktop_url(url) is Some,
        snapshot matches Some(snapshot) ==> snapshot_tabs(snapshot).len() < 32,
    ensures
        ({
            let saved = match snapshot {
                Some(snapshot) if snapshot.version == 1 => snapshot_tabs(snapshot),
                _ => Seq::empty(),
            };
            let tabs = startup_tabs(snapshot, Some(url), home_url);
            &&& tabs.len() == saved.len() + 1
            &&& forall|i: int| 0 <= i < saved.len() ==> (#[trigger] tabs[i]).url == saved[i].url
                && !tabs[i].active
            &&& tabs.last() == (DesktopStartupTabView {
                url: crate::text::trim(url),
                active: true,
            })
        }),
{
    let saved = match snapshot {
        Some(snapshot) if snapshot.version == 1 => snapshot_tabs(snapshot),
        _ => Seq::empty(),
    };
    let all = none_active(saved).push(
        DesktopStartupTabView { url: crate::text::trim(url), active: true },
    );
    only_one_is_active(all, saved.len() as int);
    assert(with_home(with_requested(saved, Some(url)), home_url) == all);
}

/// Where no page is asked for and none was saved, the home page is shown, or a blank one.
pub proof fn the_home_page_is_shown_else(
    snapshot: Option<DesktopTabSnapshotView>,
    requested_url: Option<Seq<char>>,
    home_url: Option<Seq<char>>,
)
    requires
        requested_url matches Some(url) ==> desktop_url(url) is None,
        snapshot matches Some(snapshot) ==> snapshot.version != 1 || snapshot_tabs(snapshot).len()
            == 0,
    ensures
        startup_tabs(snapshot, requested_url, home_url) == seq![
            DesktopStartupTabView {
                url: match home_url {
                    Some(url) if desktop_url(url) is Some => crate::text::trim(url),
                    _ => "about:blank"@,
                },
                active: true,
            },
        ],
{
    let home = DesktopStartupTabView {
        url: match home_url {
            Some(url) if desktop_url(url) is Some => crate::text::trim(url),
            _ => "about:blank"@,
        },
        active: true,
    };
    let saved = match snapshot {
        Some(snapshot) if snapshot.version == 1 => snapshot_tabs(snapshot),
        _ => Seq::empty(),
    };
    assert(saved =~= Seq::empty());
    assert(with_home(with_requested(saved, requested_url), home_url) =~= seq![home]);
    only_one_is_active(seq![home], 0);
}

/// No more saved tabs are restored than there is room for, and these are the first.
pub proof fn the_first_saved_tabs_are_restored(snapshot: DesktopTabSnapshotView, i: int)
    requires
        0 <= i < snapshot_tabs(snapshot).len(),
    ensures
        snapshot_tabs(snapshot).len() <= 32,
        snapshot_tabs(snapshot)[i] == restorable(snapshot.tabs, saved_active(snapshot))[i],
        snapshot_tabs(snapshot).len() == 32 || snapshot_tabs(snapshot).len() == restorable(
            snapshot.tabs,
            saved_active(snapshot),
        ).len(),
        saved_active(snapshot) == match snapshot.active_index {
            Some(index) if index < snapshot.tabs.len() => index as int,
            _ => 0,
        },
{
}

/// Whether a tab shows something that may be saved.
pub open spec fn shows_something(tab: TabStateView) -> bool {
    tab.current_url matches Some(url) && desktop_url(url) is Some
}

/// The tabs that show something are saved with their addresses and titles, all of them and in their
/// order. The active one is pointed at, if it shows something.
pub proof fn open_tabs_are_saved_in_order(tabs: Seq<TabStateView>, active_tab_id: Option<Seq<char>>)
    ensures
        saved_of(tabs, active_tab_id).0 == tabs.filter(
            |tab: TabStateView| shows_something(tab),
        ).map_values(
            |tab: TabStateView|
                DesktopSavedTabView {
                    url: crate::text::trim(tab.current_url->0),
                    title: tab.title,
                },
        ),
        saved_of(tabs, active_tab_id).1 matches Some(index) ==> exists|i: int|
            0 <= i < tabs.len() && Some((#[trigger] tabs[i]).id) == active_tab_id
                && shows_something(tabs[i]) && index < saved_of(tabs, active_tab_id).0.len()
                && saved_of(tabs, active_tab_id).0[index as int] == (DesktopSavedTabView {
                url: crate::text::trim(tabs[i].current_url->0),
                title: tabs[i].title,
            }),
        saved_of(tabs, active_tab_id).1 is None ==> forall|i: int|
            0 <= i < tabs.len() && shows_something(#[trigger] tabs[i]) ==> Some(tabs[i].id)
                != active_tab_id,
    decreases tabs.len(),
{
    reveal(Seq::filter);
    let shown = |tab: TabStateView| shows_something(tab);
    let kept = |tab: TabStateView|
        DesktopSavedTabView { url: crate::text::trim(tab.current_url->0), title: tab.title };
    let saved = saved_of(tabs, active_tab_id);
    if tabs.len() > 0 {
        let head = tabs.drop_last();
        let before = saved_of(head, active_tab_id);
        open_tabs_are_saved_in_order(head, active_tab_id);
        let last = tabs.last();
        if shows_something(last) {
            assert(tabs.filter(shown) =~= head.filter(shown).push(last));
            assert(tabs.filter(shown).map_values(kept) =~= head.filter(shown).map_values(kept).push(
                kept(last),
            ));
        }
        if let Some(index) = saved.1 {
            if active_tab_id == Some(last.id) && shows_something(last) {
                assert(tabs[tabs.len() - 1] == last);
            } else {
                let i = choose|i: int|
                    0 <= i < head.len() && Some((#[trigger] head[i]).id) == active_tab_id
                        && shows_something(head[i]) && index < before.0.len()
                        && before.0[index as int] == (DesktopSavedTabView {
                        url: crate::text::trim(head[i].current_url->0),
                        title: head[i].title,
                    });
                assert(tabs[i] == head[i]);
                assert(saved.0[index as int] == before.0[index as int]);
            }
        } else {
            assert forall|i: int|
                0 <= i < tabs.len() && shows_something(#[trigger] tabs[i]) implies Some(tabs[i].id)
                != active_tab_id by {
                if i < head.len() {
                    assert(head[i] == tabs[i]);
                }
            }
        }
    } else {
        assert(saved.0 =~= tabs.filter(shown).map_values(kept));
    }
}

/// The tabs of the start are opened with the active one last, and are given back in the order in
/// which they were asked for.
pub proof fn the_active_tab_is_opened_last(tabs: Seq<DesktopStartupTabView>, opened: Seq<TabStateView>)
    requires
        tabs.len() > 0,
        opened.len() == tabs.len(),
    ensures
        ({
            let active = active_or_first(tabs);
            let order = opening_order(tabs);
            let given = asking_order(opened, active);
            &&& 0 <= active < tabs.len()
            &&& (exists|i: int| 0 <= i < tabs.len() && (#[trigger] tabs[i]).active)
                ==> tabs[active].active
            &&& order.len() == tabs.len()
            &&& order.last() == tabs[active].url
            &&& given.len() == tabs.len()
            &&& given[active] == opened.last()
            &&& forall|i: int|
                0 <= i < active ==> order[i] == tabs[i].url && opened[i] == #[trigger] given[i]
            &&& forall|i: int|
                active < i < tabs.len() ==> order[i - 1] == tabs[i].url && opened[i - 1]
                    == #[trigger] given[i]
        }),
{
    first_active_is_a_tab(tabs);
    let active = active_or_first(tabs);
    let order = opening_order(tabs);
    let given = asking_order(opened, active);
    if exists|i: int| 0 <= i < tabs.len() && (#[trigger] tabs[i]).active {
        an_active_one_is_found(tabs);
    }
}

/// Where a tab is active, an active one is found.
proof fn an_active_one_is_found(tabs: Seq<DesktopStartupTabView>)
    requires
        exists|i: int| 0 <= i < tabs.len() && (#[trigger] tabs[i]).active,
    ensures
        first_active(tabs) is Some,
    decreases tabs.len(),
{
    if tabs.len() > 0 {
        let head = tabs.drop_last();
        let i = choose|i: int| 0 <= i < tabs.len() && (#[trigger] tabs[i]).active;
        if i < head.len() {
            assert(head[i].active);
            an_active_one_is_found(head);
        }
    }
}

} // verus!
