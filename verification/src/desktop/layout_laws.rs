//! What a layout gives to the page and to each pane.
use super::layout::{PaneLayoutInputView, WorkspaceSurface};
use crate::pane::PanePosition;
use vstd::prelude::*;

verus! {

/// Whether any pane is docked at a position.
pub open spec fn docked(panes: Seq<PaneLayoutInputView>, position: PanePosition) -> bool {
    exists|i: int| 0 <= i < panes.len() && (#[trigger] panes[i]).position == position
}

/// The even share of a width that the page and each side in use have.
pub open spec fn even_share(width: u32, panes: Seq<PaneLayoutInputView>) -> int {
    match (docked(panes, PanePosition::Left), docked(panes, PanePosition::Right)) {
        (true, true) => width as int / 3,
        (false, false) => width as int,
        _ => width as int / 2,
    }
}

proof fn docked_panes_count(panes: Seq<PaneLayoutInputView>, position: PanePosition)
    ensures
        docked(panes, position) <==> super::layout::panes_at(panes, position) > 0,
    decreases panes.len(),
{
    if panes.len() > 0 {
        let rest = panes.drop_last();
        docked_panes_count(rest, position);
        if docked(rest, position) {
            let i = choose|i: int| 0 <= i < rest.len() && (#[trigger] rest[i]).position == position;
            assert(panes[i].position == position);
        }
        if panes.last().position == position {
            assert(panes[panes.len() - 1].position == position);
        }
        if docked(panes, position) && panes.last().position != position {
            let i = choose|i: int|
                0 <= i < panes.len() && (#[trigger] panes[i]).position == position;
            assert(rest[i].position == position);
        }
    }
}

/// The page keeps at least an even share of the width and two thirds of the height, so that it is
/// never gone from a surface that shows anything; it has all that no pane takes.
pub proof fn pages_keep_their_share(surface: WorkspaceSurface, panes: Seq<PaneLayoutInputView>)
    ensures
        ({
            let page = super::layout::browser_rect(surface, panes);
            &&& page.y == 0
            &&& page.width >= even_share(surface.width, panes)
            &&& surface.width > 0 ==> page.width > 0
            &&& !docked(panes, PanePosition::Left) ==> page.x == 0
            &&& !docked(panes, PanePosition::Right) ==> page.x + page.width == surface.width
            &&& page.height >= surface.height - surface.height / 3
            &&& surface.height > 0 ==> page.height > 0
            &&& !docked(panes, PanePosition::Bottom) ==> page.height == surface.height
        }),
{
    docked_panes_count(panes, PanePosition::Left);
    docked_panes_count(panes, PanePosition::Right);
    docked_panes_count(panes, PanePosition::Bottom);
    super::layout::sides_fit(surface, panes);
    let width = surface.width as int;
    let left = super::layout::side_width(surface.width, panes, PanePosition::Left);
    let right = super::layout::side_width(surface.width, panes, PanePosition::Right);
    if docked(panes, PanePosition::Left) && docked(panes, PanePosition::Right) {
        assert(left <= width / 3 && right <= width / 3);
    } else {
        assert(left + right <= width / 2);
    }
}

/// A pane stands at the edge that it is docked at, right beside the page. A side is as wide as an
/// even share and the bottom as high as a third, up to a bound.
pub proof fn panes_stand_at_their_edge(
    surface: WorkspaceSurface,
    panes: Seq<PaneLayoutInputView>,
    i: int,
)
    requires
        0 <= i < panes.len(),
    ensures
        ({
            let page = super::layout::browser_rect(surface, panes);
            let pane = super::layout::pane_rect(surface, panes, i);
            let share = even_share(surface.width, panes);
            match panes[i].position {
                PanePosition::Left => {
                    &&& pane.x == 0
                    &&& pane.width == page.x
                    &&& pane.width == if share <= 480 { share } else { 480 }
                    &&& pane.y + pane.height <= page.height
                },
                PanePosition::Right => {
                    &&& pane.x == page.x + page.width
                    &&& pane.x + pane.width == surface.width
                    &&& pane.width == if share <= 480 { share } else { 480 }
                    &&& pane.y + pane.height <= page.height
                },
                PanePosition::Bottom => {
                    &&& pane.y == page.height
                    &&& pane.y + pane.height == surface.height
                    &&& pane.height == if surface.height / 3 <= 420 { surface.height / 3 } else { 420 }
                    &&& pane.x + pane.width <= surface.width
                },
            }
        }),
{
    docked_panes_count(panes, PanePosition::Left);
    docked_panes_count(panes, PanePosition::Right);
    assert(docked(panes, panes[i].position));
    super::layout::sides_fit(surface, panes);
    docked_panes_count(panes, panes[i].position);
    let position = panes[i].position;
    super::layout::prefix_counts(panes, position, i);
    let count = super::layout::panes_at(panes, position) as int;
    let index = super::layout::panes_at(panes.take(i), position) as int;
    super::layout::parts_fit(surface.width as int, index, count);
    super::layout::parts_fit(
        surface.height - super::layout::bottom_height(surface.height, panes),
        index,
        count,
    );
}

/// An even part of a length is the whole part of its share, or one more.
proof fn parts_are_even(total: int, index: int, count: int)
    requires
        0 <= total,
        0 <= index < count,
    ensures
        total / count <= super::layout::part_start(total, index + 1, count)
            - super::layout::part_start(total, index, count) <= total / count + 1,
{
    let q = total / count;
    let r = total % count;
    vstd::arithmetic::div_mod::lemma_fundamental_div_mod(total, count);
    vstd::arithmetic::div_mod::lemma_mod_bound(total, count);
    let a = r * index;
    let b = r * (index + 1);
    assert(total * index == count * (q * index) + a && total * (index + 1) == count * (q * (index
        + 1)) + b && q * (index + 1) == q * index + q && b == a + r && 0 <= a) by (nonlinear_arith)
        requires
            total == count * q + r,
            a == r * index,
            b == r * (index + 1),
            0 <= r,
            0 <= index,
    ;
    vstd::arithmetic::div_mod::lemma_hoist_over_denominator(a, q * index, count as nat);
    vstd::arithmetic::div_mod::lemma_hoist_over_denominator(b, q * (index + 1), count as nat);
    assert(count * (q * index) == (q * index) * count) by (nonlinear_arith);
    assert(count * (q * (index + 1)) == (q * (index + 1)) * count) by (nonlinear_arith);
    vstd::arithmetic::div_mod::lemma_div_is_ordered(a, b, count);
    vstd::arithmetic::div_mod::lemma_div_is_ordered(b, a + count, count);
    vstd::arithmetic::div_mod::lemma_hoist_over_denominator(a, 1, count as nat);
}

/// The panes of an edge share it evenly and in their order: one is at most a point longer than
/// another, and an earlier one stands before a later one.
pub proof fn panes_of_an_edge_are_even(
    surface: WorkspaceSurface,
    panes: Seq<PaneLayoutInputView>,
    i: int,
    j: int,
)
    requires
        0 <= i < j < panes.len(),
        panes[i].position == panes[j].position,
    ensures
        ({
            let first = super::layout::pane_rect(surface, panes, i);
            let second = super::layout::pane_rect(surface, panes, j);
            if panes[i].position == PanePosition::Bottom {
                &&& -1 <= first.width - second.width <= 1
                &&& first.x + first.width <= second.x
            } else {
                &&& -1 <= first.height - second.height <= 1
                &&& first.y + first.height <= second.y
            }
        }),
{
    super::layout::sides_fit(surface, panes);
    let position = panes[i].position;
    let high = surface.height - super::layout::bottom_height(surface.height, panes);
    super::layout::prefix_counts(panes, position, i);
    super::layout::prefix_counts(panes, position, j);
    super::layout::later_panes_count_more(panes, i, j);
    let count = super::layout::panes_at(panes, position) as int;
    let a = super::layout::panes_at(panes.take(i), position) as int;
    let b = super::layout::panes_at(panes.take(j), position) as int;
    let wide = surface.width as int;
    super::layout::parts_fit(wide, a, count);
    super::layout::parts_fit(wide, b, count);
    super::layout::parts_fit(high, a, count);
    super::layout::parts_fit(high, b, count);
    parts_are_even(wide, a, count);
    parts_are_even(wide, b, count);
    parts_are_even(high, a, count);
    parts_are_even(high, b, count);
    super::layout::parts_in_order(wide, a, b, count);
    super::layout::parts_in_order(high, a, b, count);
}

/// Each pane is laid out once, in its place in the list and under its own name, and the panes of an
/// edge together with the page fill the surface.
pub proof fn every_pane_is_laid_out(surface: WorkspaceSurface, panes: Seq<PaneLayoutInputView>)
    ensures
        ({
            let layout = super::layout::workspace_layout(surface, panes);
            &&& layout.browser == super::layout::browser_rect(surface, panes)
            &&& layout.panes.len() == panes.len()
            &&& forall|i: int|
                0 <= i < panes.len() ==> (#[trigger] layout.panes[i]).id == panes[i].id
                    && layout.panes[i].position == panes[i].position && layout.panes[i].bounds
                    == super::layout::pane_rect(surface, panes, i)
        }),
{
}

/// The chrome stands at the top, and everything else below it and within the window.
pub proof fn windows_hold_the_chrome_and_the_rest(
    surface: WorkspaceSurface,
    panes: Seq<PaneLayoutInputView>,
)
    ensures
        ({
            let chrome = super::layout::chrome_height(surface);
            let inner = super::layout::workspace_layout(super::layout::below_chrome(surface), panes);
            let layout = super::layout::moved_layout(inner, 0, chrome);
            &&& chrome == if surface.height <= 274 { surface.height } else { 274u32 }
            &&& layout.browser.y == chrome
            &&& layout.browser.x == inner.browser.x
            &&& layout.browser.width == inner.browser.width
            &&& layout.browser.height == inner.browser.height
            &&& layout.browser.within(surface)
            &&& surface.height > 274 ==> layout.browser.height > 0
            &&& !docked(panes, PanePosition::Bottom) ==> layout.browser.y + layout.browser.height
                == surface.height
            &&& layout.panes.len() == panes.len()
            &&& forall|i: int|
                0 <= i < panes.len() ==> (#[trigger] layout.panes[i]).id == panes[i].id
                    && layout.panes[i].bounds.within(surface) && layout.panes[i].bounds.y >= chrome
                    && layout.panes[i].bounds.x == inner.panes[i].bounds.x
                    && layout.panes[i].bounds.y == inner.panes[i].bounds.y + chrome
                    && layout.panes[i].bounds.width == inner.panes[i].bounds.width
                    && layout.panes[i].bounds.height == inner.panes[i].bounds.height && (
                match panes[i].position {
                    PanePosition::Left => layout.panes[i].bounds.x == 0,
                    PanePosition::Right => layout.panes[i].bounds.x + layout.panes[i].bounds.width
                        == surface.width,
                    PanePosition::Bottom => layout.panes[i].bounds.y
                        + layout.panes[i].bounds.height == surface.height,
                })
            &&& !docked(panes, PanePosition::Right) ==> layout.browser.x + layout.browser.width
                == surface.width
        }),
{
    let rest = super::layout::below_chrome(surface);
    super::layout::panes_stay_inside(rest, panes);
    pages_keep_their_share(rest, panes);
    let inner = super::layout::workspace_layout(rest, panes);
    let layout = super::layout::moved_layout(inner, 0, super::layout::chrome_height(surface));
    assert forall|i: int| 0 <= i < panes.len() implies (#[trigger] layout.panes[i]).id
        == panes[i].id && layout.panes[i].bounds.within(surface) && layout.panes[i].bounds.y
        == inner.panes[i].bounds.y + super::layout::chrome_height(surface) && (
    match panes[i].position {
        PanePosition::Left => layout.panes[i].bounds.x == 0,
        PanePosition::Right => layout.panes[i].bounds.x + layout.panes[i].bounds.width
            == surface.width,
        PanePosition::Bottom => layout.panes[i].bounds.y + layout.panes[i].bounds.height
            == surface.height,
    }) by {
        panes_stand_at_their_edge(rest, panes, i);
        assert(super::layout::pane_rect(rest, panes, i).within(rest));
    }
}

} // verus!
