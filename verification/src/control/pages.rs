//! What pages report, and the elements that users pick.
use super::{no_tab, tab_missing, InnerState, InnerStateView};
use crate::draw::{Draw, DrawView};
use crate::error::{ControlError, ControlErrorView};
use crate::origin::WebOrigin;
use crate::page::{
    sanitize_page_interactive_elements, ElementReference, ElementReferenceInput,
    ElementReferenceInputView, ElementReferenceView, PageContextRequest, PageContextRequestView,
    PageContextSnapshot, PageContextSnapshotView,
};
use crate::tab::{TabState, TabStateView};
use vstd::prelude::*;

verus! {

/// What is kept of a page's report.
pub open spec fn snapshot_of(request: PageContextRequestView, now: u64) -> PageContextSnapshotView {
    PageContextSnapshotView {
        tab_id: request.tab_id,
        url: request.url,
        title: request.title,
        text_preview: request.text_preview,
        selected_element_id: request.selected_element_id,
        interactive_elements: crate::page::first_elements(request.interactive_elements),
        captured_at_unix: now,
    }
}

/// A page reports of itself: its tab takes the address and the title.
pub open spec fn publish_page_context(
    state: InnerStateView,
    request: PageContextRequestView,
    now: u64,
) -> (InnerStateView, Result<PageContextSnapshotView, ControlErrorView>) {
    match crate::origin::origin_of_url(request.url) {
        Err(error) => (state, Err(ControlErrorView::Core(error))),
        Ok(_) => match state.tabs.get(request.tab_id) {
            None => (state, Err(no_tab(request.tab_id))),
            Some(tab) => {
                let snapshot = snapshot_of(request, now);
                (
                    InnerStateView {
                        tabs: state.tabs.insert(
                            request.tab_id,
                            TabStateView {
                                current_url: Some(request.url),
                                title: request.title,
                                updated_at_unix: now,
                                ..tab
                            },
                        ),
                        page_contexts: state.page_contexts.insert(request.tab_id, snapshot),
                        ..state
                    },
                    Ok(snapshot),
                )
            },
        },
    }
}

/// A user picks an element on the page of a tab.
pub open spec fn record_element_reference(
    state: InnerStateView,
    request: ElementReferenceInputView,
    draw: DrawView,
) -> (InnerStateView, Result<ElementReferenceView, ControlErrorView>) {
    match crate::origin::origin_of_url(request.url) {
        Err(error) => (state, Err(ControlErrorView::Core(error))),
        Ok(_) => if !state.tabs.contains_key(request.tab_id) {
            (state, Err(no_tab(request.tab_id)))
        } else {
            let reference = ElementReferenceView {
                id: draw.ids[0],
                tab_id: request.tab_id,
                url: request.url,
                selector: request.selector,
                label: request.label,
                role: request.role,
                text: request.text,
                bounds: request.bounds,
                created_at_unix: draw.now,
            };
            (
                InnerStateView {
                    element_refs: state.element_refs.insert(reference.id, reference),
                    ..state
                },
                Ok(reference),
            )
        },
    }
}

impl InnerState {
    /// A page reports of itself.
    pub fn publish_page_context(&mut self, request: PageContextRequest, now: u64) -> (outcome:
        Result<PageContextSnapshot, ControlError>)
        ensures
            (final(self)@, crate::error::control_result(outcome)) == publish_page_context(
                old(self)@,
                request@,
                now,
            ),
    {
        match WebOrigin::from_url_str(request.url.as_str()) {
            Ok(_) => {},
            Err(error) => {
                return Err(ControlError::Core(error));
            },
        }
        let tab = match self.tabs.get(request.tab_id.as_str()) {
            None => {
                return Err(tab_missing(request.tab_id.as_str()));
            },
            Some(tab) => tab.clone(),
        };
        let snapshot = PageContextSnapshot {
            tab_id: request.tab_id,
            url: request.url,
            title: request.title,
            text_preview: request.text_preview,
            selected_element_id: request.selected_element_id,
            interactive_elements: sanitize_page_interactive_elements(request.interactive_elements),
            captured_at_unix: now,
        };
        let updated = TabState {
            id: tab.id,
            current_url: Some(snapshot.url.clone()),
            session_id: tab.session_id,
            title: snapshot.title.clone(),
            created_at_unix: tab.created_at_unix,
            updated_at_unix: now,
        };
        self.tabs.insert(snapshot.tab_id.clone(), updated);
        self.page_contexts.insert(snapshot.tab_id.clone(), snapshot.clone());
        Ok(snapshot)
    }

    /// What pages last reported, in the order of their tabs.
    pub fn list_page_contexts(&self) -> (contexts: Vec<PageContextSnapshot>)
        ensures
            crate::model::views(contexts@) == crate::keyed::ordered_values(self@.page_contexts),
    {
        self.page_contexts.values()
    }

    /// A user picks an element.
    pub fn record_element_reference(
        &mut self,
        request: ElementReferenceInput,
        draw: &mut Draw,
    ) -> (outcome: Result<ElementReference, ControlError>)
        requires
            old(draw)@.ids.len() >= 1,
        ensures
            (final(self)@, crate::error::control_result(outcome)) == record_element_reference(
                old(self)@,
                request@,
                old(draw)@,
            ),
    {
        match WebOrigin::from_url_str(request.url.as_str()) {
            Ok(_) => {},
            Err(error) => {
                return Err(ControlError::Core(error));
            },
        }
        if !self.tabs.contains_key(request.tab_id.as_str()) {
            return Err(tab_missing(request.tab_id.as_str()));
        }
        let id = draw.next_id();
        let reference = ElementReference {
            id,
            tab_id: request.tab_id,
            url: request.url,
            selector: request.selector,
            label: request.label,
            role: request.role,
            text: request.text,
            bounds: request.bounds,
            created_at_unix: draw.now(),
        };
        self.element_refs.insert(reference.id.clone(), reference.clone());
        Ok(reference)
    }

    /// All picked elements in the order of their identifiers.
    pub fn list_element_references(&self) -> (references: Vec<ElementReference>)
        ensures
            crate::model::views(references@) == crate::keyed::ordered_values(self@.element_refs),
    {
        self.element_refs.values()
    }
}

} // verus!
