//! What is listed is in order.
use super::InnerStateView;
use crate::bookmark::BookmarkRecordView;
use crate::credential::CredentialRecordView;
use crate::page::{ElementReferenceView, PageContextSnapshotView};
use crate::pane::AgentPaneStateView;
use crate::tab::TabStateView;
use vstd::prelude::*;

verus! {

proof fn texts_go_one_way(a: Seq<char>, b: Seq<char>)
    ensures
        crate::text::text_before(a, b) ==> !crate::text::text_before(b, a),
{
    if crate::text::text_before(a, b) && crate::text::text_before(b, a) {
        crate::text::text_before_is_transitive(a, b, a);
        crate::text::text_before_is_irreflexive(a);
    }
}

proof fn not_before_is_passed_on(a: Seq<char>, b: Seq<char>, c: Seq<char>)
    ensures
        !crate::text::text_before(b, a) && !crate::text::text_before(c, b)
            ==> !crate::text::text_before(c, a),
{
    if !crate::text::text_before(b, a) && !crate::text::text_before(c, b)
        && crate::text::text_before(c, a) {
        if a != b {
            crate::text::text_before_is_total(a, b);
            crate::text::text_before_is_transitive(c, a, b);
        }
    }
}

/// Tabs can be put in order, the older first.
pub proof fn tabs_have_an_order()
    ensures
        crate::lists::orders(super::bookmarks::tab_first()),
{
    let before = super::bookmarks::tab_first();
    assert forall|a: TabStateView, b: TabStateView| #[trigger] before(a, b) implies !before(
        b,
        a,
    ) by {
        texts_go_one_way(a.id, b.id);
    }
    assert forall|a: TabStateView, b: TabStateView, c: TabStateView|
        !#[trigger] before(b, a) && !#[trigger] before(c, b) implies !before(c, a) by {
        not_before_is_passed_on(a.id, b.id, c.id);
    }
}

/// Panes can be put in order, the older first.
pub proof fn panes_have_an_order()
    ensures
        crate::lists::orders(super::bookmarks::pane_first()),
{
    let before = super::bookmarks::pane_first();
    assert forall|a: AgentPaneStateView, b: AgentPaneStateView| #[trigger] before(a, b) implies !before(
        b,
        a,
    ) by {
        texts_go_one_way(a.id, b.id);
    }
    assert forall|a: AgentPaneStateView, b: AgentPaneStateView, c: AgentPaneStateView|
        !#[trigger] before(b, a) && !#[trigger] before(c, b) implies !before(c, a) by {
        not_before_is_passed_on(a.id, b.id, c.id);
    }
}

/// Reports of pages can be put in order, the older first.
pub proof fn contexts_have_an_order()
    ensures
        crate::lists::orders(super::bookmarks::context_first()),
{
    let before = super::bookmarks::context_first();
    assert forall|a: PageContextSnapshotView, b: PageContextSnapshotView| #[trigger] before(a, b) implies !before(
        b,
        a,
    ) by {
        texts_go_one_way(a.tab_id, b.tab_id);
    }
    assert forall|
        a: PageContextSnapshotView,
        b: PageContextSnapshotView,
        c: PageContextSnapshotView,
    |
        !#[trigger] before(b, a) && !#[trigger] before(c, b) implies !before(c, a) by {
        not_before_is_passed_on(a.tab_id, b.tab_id, c.tab_id);
    }
}

/// Picked elements can be put in order, the older first.
pub proof fn references_have_an_order()
    ensures
        crate::lists::orders(super::bookmarks::reference_first()),
{
    let before = super::bookmarks::reference_first();
    assert forall|a: ElementReferenceView, b: ElementReferenceView| #[trigger] before(a, b) implies !before(
        b,
        a,
    ) by {
        texts_go_one_way(a.id, b.id);
    }
    assert forall|a: ElementReferenceView, b: ElementReferenceView, c: ElementReferenceView|
        !#[trigger] before(b, a) && !#[trigger] before(c, b) implies !before(c, a) by {
        not_before_is_passed_on(a.id, b.id, c.id);
    }
}

/// Saved pages can be put in order, the later changed first.
pub proof fn bookmarks_have_an_order()
    ensures
        crate::lists::orders(super::bookmarks::bookmark_first()),
{
    let before = super::bookmarks::bookmark_first();
    assert forall|a: BookmarkRecordView, b: BookmarkRecordView| #[trigger] before(a, b) implies !before(
        b,
        a,
    ) by {
        texts_go_one_way(a.url, b.url);
    }
    assert forall|a: BookmarkRecordView, b: BookmarkRecordView, c: BookmarkRecordView|
        !#[trigger] before(b, a) && !#[trigger] before(c, b) implies !before(c, a) by {
        not_before_is_passed_on(a.url, b.url, c.url);
    }
}

/// Logins can be put in order, the later changed first.
pub proof fn logins_have_an_order()
    ensures
        crate::lists::orders(super::credentials::login_first()),
{
    let before = super::credentials::login_first();
    assert forall|a: CredentialRecordView, b: CredentialRecordView| #[trigger] before(a, b) implies !before(
        b,
        a,
    ) by {
        texts_go_one_way(a.username, b.username);
    }
    assert forall|a: CredentialRecordView, b: CredentialRecordView, c: CredentialRecordView|
        !#[trigger] before(b, a) && !#[trigger] before(c, b) implies !before(c, a) by {
        not_before_is_passed_on(a.username, b.username, c.username);
    }
}

/// The logins that an address is offered are all of its origin, in order.
pub proof fn offered_logins_are_in_order(
    records: Map<Seq<char>, CredentialRecordView>,
    url: Seq<char>,
)
    ensures
        super::credentials::logins_for_url(records, url) matches Ok(offered) ==> {
            &&& crate::lists::in_order(offered, super::credentials::login_first())
            &&& offered.to_multiset() == crate::vault::records_for_url(
                records,
                url,
            )->Ok_0.to_multiset()
        },
{
    logins_have_an_order();
    if let Ok(found) = crate::vault::records_for_url(records, url) {
        crate::lists::sorting_orders(found, super::credentials::login_first());
        crate::lists::sorting_rearranges(found, super::credentials::login_first());
    }
}

/// The saved pages are listed all, in order.
pub proof fn listed_bookmarks_are_in_order(state: InnerStateView)
    ensures
        crate::lists::in_order(
            super::bookmarks::listed_bookmarks(state),
            super::bookmarks::bookmark_first(),
        ),
        super::bookmarks::listed_bookmarks(state).to_multiset() == crate::keyed::ordered_values(
            state.bookmarks,
        ).to_multiset(),
{
    bookmarks_have_an_order();
    let bookmarks = crate::keyed::ordered_values(state.bookmarks);
    crate::lists::sorting_orders(bookmarks, super::bookmarks::bookmark_first());
    crate::lists::sorting_rearranges(bookmarks, super::bookmarks::bookmark_first());
}

/// A hand-off holds all tabs, panes, reports, picked elements and saved pages, each in order.
pub proof fn handoffs_are_in_order(state: InnerStateView, now: u64)
    ensures
        ({
            let snapshot = super::bookmarks::handoff_snapshot(state, now);
            &&& crate::lists::in_order(snapshot.tabs, super::bookmarks::tab_first())
            &&& crate::lists::in_order(snapshot.agent_panes, super::bookmarks::pane_first())
            &&& crate::lists::in_order(snapshot.page_contexts, super::bookmarks::context_first())
            &&& crate::lists::in_order(snapshot.element_refs, super::bookmarks::reference_first())
            &&& crate::lists::in_order(snapshot.bookmarks, super::bookmarks::bookmark_first())
            &&& snapshot.tabs.to_multiset() == crate::keyed::ordered_values(
                state.tabs,
            ).to_multiset()
            &&& snapshot.agent_panes.to_multiset() == crate::keyed::ordered_values(
                state.agent_panes,
            ).to_multiset()
            &&& snapshot.page_contexts.to_multiset() == crate::keyed::ordered_values(
                state.page_contexts,
            ).to_multiset()
            &&& snapshot.element_refs.to_multiset() == crate::keyed::ordered_values(
                state.element_refs,
            ).to_multiset()
            &&& snapshot.bookmarks.to_multiset() == crate::keyed::ordered_values(
                state.bookmarks,
            ).to_multiset()
        }),
{
    tabs_have_an_order();
    let tabs = crate::keyed::ordered_values(state.tabs);
    crate::lists::sorting_orders(tabs, super::bookmarks::tab_first());
    crate::lists::sorting_rearranges(tabs, super::bookmarks::tab_first());
    panes_have_an_order();
    let panes = crate::keyed::ordered_values(state.agent_panes);
    crate::lists::sorting_orders(panes, super::bookmarks::pane_first());
    crate::lists::sorting_rearranges(panes, super::bookmarks::pane_first());
    contexts_have_an_order();
    let contexts = crate::keyed::ordered_values(state.page_contexts);
    crate::lists::sorting_orders(contexts, super::bookmarks::context_first());
    crate::lists::sorting_rearranges(contexts, super::bookmarks::context_first());
    references_have_an_order();
    let references = crate::keyed::ordered_values(state.element_refs);
    crate::lists::sorting_orders(references, super::bookmarks::reference_first());
    crate::lists::sorting_rearranges(references, super::bookmarks::reference_first());
    listed_bookmarks_are_in_order(state);
}

/// Saved pages are listed with those changed last first, and of the same moment by their addresses.
/// Each of them is listed, and nothing else.
pub proof fn bookmarks_changed_last_are_listed_first(state: InnerStateView)
    requires
        state.bookmarks.dom().finite(),
    ensures
        ({
            let listed = super::bookmarks::listed_bookmarks(state);
            &&& forall|i: int, j: int|
                0 <= i < j < listed.len() ==> (#[trigger] listed[i]).updated_at_unix >= (
                #[trigger] listed[j]).updated_at_unix
            &&& forall|i: int, j: int|
                0 <= i < j < listed.len() && (#[trigger] listed[i]).updated_at_unix == (
                #[trigger] listed[j]).updated_at_unix ==> !crate::text::text_before(
                    listed[j].url,
                    listed[i].url,
                )
            &&& listed.len() == state.bookmarks.dom().len()
            &&& forall|id: Seq<char>| #[trigger]
                state.bookmarks.contains_key(id) ==> listed.contains(state.bookmarks[id])
        }),
{
    listed_bookmarks_are_in_order(state);
    let bookmarks = crate::keyed::ordered_values(state.bookmarks);
    let listed = super::bookmarks::listed_bookmarks(state);
    crate::keyed::values_are_listed_once(state.bookmarks);
    let before = super::bookmarks::bookmark_first();
    assert forall|i: int, j: int| 0 <= i < j < listed.len() implies (
    #[trigger] listed[i]).updated_at_unix >= (#[trigger] listed[j]).updated_at_unix by {
        assert(!before(listed[j], listed[i]));
    }
    assert forall|i: int, j: int|
        0 <= i < j < listed.len() && (#[trigger] listed[i]).updated_at_unix == (
        #[trigger] listed[j]).updated_at_unix implies !crate::text::text_before(
        listed[j].url,
        listed[i].url,
    ) by {
        assert(!before(listed[j], listed[i]));
    }
    same_members(bookmarks, listed);
}

/// Lists that are rearrangements of each other have the same length and the same members.
proof fn same_members<A>(one: Seq<A>, other: Seq<A>)
    requires
        one.to_multiset() == other.to_multiset(),
    ensures
        one.len() == other.len(),
        forall|item: A| one.contains(item) <==> other.contains(item),
{
    broadcast use vstd::seq_lib::group_to_multiset_ensures;

    assert forall|item: A| one.contains(item) <==> other.contains(item) by {
        assert(one.contains(item) <==> one.to_multiset().count(item) > 0);
        assert(other.contains(item) <==> other.to_multiset().count(item) > 0);
    }
    assert(one.len() == one.to_multiset().len());
    assert(other.len() == other.to_multiset().len());
}

/// A hand-off holds the active tab, the sessions, the results and the log of the state as they are,
/// and each of its tabs, panes, page reports and picked elements, the oldest first.
pub proof fn handoffs_hold_what_there_is(state: InnerStateView, now: u64)
    requires
        state.tabs.dom().finite(),
        state.agent_panes.dom().finite(),
        state.page_contexts.dom().finite(),
        state.element_refs.dom().finite(),
    ensures
        ({
            let snapshot = super::bookmarks::handoff_snapshot(state, now);
            &&& snapshot.generated_at_unix == now
            &&& snapshot.active_tab == match state.active_tab_id {
                Some(id) if state.tabs.contains_key(id) => Some(state.tabs[id]),
                _ => None,
            }
            &&& snapshot.sessions == crate::keyed::ordered_values(state.sessions)
            &&& snapshot.bookmarks == super::bookmarks::listed_bookmarks(state)
            &&& snapshot.command_results == state.command_results
            &&& snapshot.audit_events == state.audit_events
            &&& forall|i: int, j: int|
                0 <= i < j < snapshot.tabs.len() ==> (
                #[trigger] snapshot.tabs[i]).created_at_unix <= (
                #[trigger] snapshot.tabs[j]).created_at_unix
            &&& forall|i: int, j: int|
                0 <= i < j < snapshot.agent_panes.len() ==> (
                #[trigger] snapshot.agent_panes[i]).created_at_unix <= (
                #[trigger] snapshot.agent_panes[j]).created_at_unix
            &&& forall|i: int, j: int|
                0 <= i < j < snapshot.page_contexts.len() ==> (
                #[trigger] snapshot.page_contexts[i]).captured_at_unix <= (
                #[trigger] snapshot.page_contexts[j]).captured_at_unix
            &&& forall|i: int, j: int|
                0 <= i < j < snapshot.element_refs.len() ==> (
                #[trigger] snapshot.element_refs[i]).created_at_unix <= (
                #[trigger] snapshot.element_refs[j]).created_at_unix
            &&& snapshot.tabs.len() == state.tabs.dom().len()
            &&& snapshot.agent_panes.len() == state.agent_panes.dom().len()
            &&& snapshot.page_contexts.len() == state.page_contexts.dom().len()
            &&& snapshot.element_refs.len() == state.element_refs.dom().len()
            &&& forall|id: Seq<char>| #[trigger]
                state.tabs.contains_key(id) ==> snapshot.tabs.contains(state.tabs[id])
            &&& forall|id: Seq<char>| #[trigger]
                state.agent_panes.contains_key(id) ==> snapshot.agent_panes.contains(
                    state.agent_panes[id],
                )
            &&& forall|id: Seq<char>| #[trigger]
                state.page_contexts.contains_key(id) ==> snapshot.page_contexts.contains(
                    state.page_contexts[id],
                )
            &&& forall|id: Seq<char>| #[trigger]
                state.element_refs.contains_key(id) ==> snapshot.element_refs.contains(
                    state.element_refs[id],
                )
        }),
{
    handoffs_are_in_order(state, now);
    let snapshot = super::bookmarks::handoff_snapshot(state, now);
    crate::keyed::values_are_listed_once(state.tabs);
    crate::keyed::values_are_listed_once(state.agent_panes);
    crate::keyed::values_are_listed_once(state.page_contexts);
    crate::keyed::values_are_listed_once(state.element_refs);
    same_members(crate::keyed::ordered_values(state.tabs), snapshot.tabs);
    same_members(crate::keyed::ordered_values(state.agent_panes), snapshot.agent_panes);
    same_members(crate::keyed::ordered_values(state.page_contexts), snapshot.page_contexts);
    same_members(crate::keyed::ordered_values(state.element_refs), snapshot.element_refs);
    let tab_first = super::bookmarks::tab_first();
    let pane_first = super::bookmarks::pane_first();
    let context_first = super::bookmarks::context_first();
    let reference_first = super::bookmarks::reference_first();
    assert forall|i: int, j: int| 0 <= i < j < snapshot.tabs.len() implies (
    #[trigger] snapshot.tabs[i]).created_at_unix <= (
    #[trigger] snapshot.tabs[j]).created_at_unix by {
        assert(!tab_first(snapshot.tabs[j], snapshot.tabs[i]));
    }
    assert forall|i: int, j: int| 0 <= i < j < snapshot.agent_panes.len() implies (
    #[trigger] snapshot.agent_panes[i]).created_at_unix <= (
    #[trigger] snapshot.agent_panes[j]).created_at_unix by {
        assert(!pane_first(snapshot.agent_panes[j], snapshot.agent_panes[i]));
    }
    assert forall|i: int, j: int| 0 <= i < j < snapshot.page_contexts.len() implies (
    #[trigger] snapshot.page_contexts[i]).captured_at_unix <= (
    #[trigger] snapshot.page_contexts[j]).captured_at_unix by {
        assert(!context_first(snapshot.page_contexts[j], snapshot.page_contexts[i]));
    }
    assert forall|i: int, j: int| 0 <= i < j < snapshot.element_refs.len() implies (
    #[trigger] snapshot.element_refs[i]).created_at_unix <= (
    #[trigger] snapshot.element_refs[j]).created_at_unix by {
        assert(!reference_first(snapshot.element_refs[j], snapshot.element_refs[i]));
    }
}

/// The logins that an address is offered are those of its origin, those changed last first, and of
/// the same moment by user.
pub proof fn logins_changed_last_are_offered_first(
    records: Map<Seq<char>, CredentialRecordView>,
    url: Seq<char>,
)
    requires
        records.dom().finite(),
    ensures
        super::credentials::logins_for_url(records, url) is Ok <==> crate::origin::origin_of_url(
            url,
        ) is Ok,
        super::credentials::logins_for_url(records, url) matches Ok(offered) ==> {
            &&& forall|i: int, j: int|
                0 <= i < j < offered.len() ==> (#[trigger] offered[i]).updated_at_unix >= (
                #[trigger] offered[j]).updated_at_unix
            &&& forall|i: int, j: int|
                0 <= i < j < offered.len() && (#[trigger] offered[i]).updated_at_unix == (
                #[trigger] offered[j]).updated_at_unix ==> !crate::text::text_before(
                    offered[j].username,
                    offered[i].username,
                )
        },
{
    offered_logins_are_in_order(records, url);
    let before = super::credentials::login_first();
    if let Ok(offered) = super::credentials::logins_for_url(records, url) {
        assert forall|i: int, j: int| 0 <= i < j < offered.len() implies (
        #[trigger] offered[i]).updated_at_unix >= (#[trigger] offered[j]).updated_at_unix by {
            assert(!before(offered[j], offered[i]));
        }
        assert forall|i: int, j: int|
            0 <= i < j < offered.len() && (#[trigger] offered[i]).updated_at_unix == (
            #[trigger] offered[j]).updated_at_unix implies !crate::text::text_before(
            offered[j].username,
            offered[i].username,
        ) by {
            assert(!before(offered[j], offered[i]));
        }
    }
}

} // verus!
