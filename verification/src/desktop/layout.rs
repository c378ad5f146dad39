//! Where the browser's page and the panes stand in the window.
use crate::pane::PanePosition;
use crate::text::same_text;
use vstd::prelude::*;

verus! {

broadcast use crate::model::group_views;

/// The height of the browser's chrome.
pub const BROWSER_CHROME_HEIGHT: u32 = 274;

/// The greatest width of the panes on a side.
pub const MAX_SIDE_WIDTH: u32 = 480;

/// The greatest height of the panes at the bottom.
pub const MAX_BOTTOM_HEIGHT: u32 = 420;

/// A surface to lay out.
#[derive(Clone, Copy, Debug, PartialEq, Eq, Structural)]
pub struct WorkspaceSurface {
    pub width: u32,
    pub height: u32,
}

/// A part of a surface.
#[derive(Clone, Copy, Debug, PartialEq, Eq, Structural)]
pub struct WorkspaceRect {
    pub x: u32,
    pub y: u32,
    pub width: u32,
    pub height: u32,
}

impl WorkspaceRect {
    /// Whether it lies within a surface.
    pub open spec fn within(self, surface: WorkspaceSurface) -> bool {
        self.x + self.width <= surface.width && self.y + self.height <= surface.height
    }

    /// Whether it shares no point with another.
    pub open spec fn apart(self, other: WorkspaceRect) -> bool {
        ||| self.x + self.width <= other.x
        ||| other.x + other.width <= self.x
        ||| self.y + self.height <= other.y
        ||| other.y + other.height <= self.y
    }
}

impl From<WorkspaceSurface> for WorkspaceRect {
    /// The whole of a surface.
    fn from(surface: WorkspaceSurface) -> (rect: WorkspaceRect) {
        WorkspaceRect { x: 0, y: 0, width: surface.width, height: surface.height }
    }
}

impl vstd::std_specs::convert::FromSpecImpl<WorkspaceSurface> for WorkspaceRect {
    open spec fn obeys_from_spec() -> bool {
        true
    }

    open spec fn from_spec(surface: WorkspaceSurface) -> WorkspaceRect {
        WorkspaceRect { x: 0, y: 0, width: surface.width, height: surface.height }
    }
}

/// A pane to be laid out.
#[derive(Debug, PartialEq, Eq)]
pub struct PaneLayoutInput {
    pub id: String,
    pub position: PanePosition,
}

/// Model of [`PaneLayoutInput`].
#[verifier::ext_equal]
pub struct PaneLayoutInputView {
    pub id: Seq<char>,
    pub position: PanePosition,
}

impl View for PaneLayoutInput {
    type V = PaneLayoutInputView;

    open spec fn view(&self) -> PaneLayoutInputView {
        PaneLayoutInputView { id: self.id@, position: self.position }
    }
}

/// A pane and where it stands.
#[derive(Debug, PartialEq, Eq)]
pub struct PaneLayout {
    pub id: String,
    pub position: PanePosition,
    pub bounds: WorkspaceRect,
}

/// Model of [`PaneLayout`].
#[verifier::ext_equal]
pub struct PaneLayoutView {
    pub id: Seq<char>,
    pub position: PanePosition,
    pub bounds: WorkspaceRect,
}

impl View for PaneLayout {
    type V = PaneLayoutView;

    open spec fn view(&self) -> PaneLayoutView {
        PaneLayoutView { id: self.id@, position: self.position, bounds: self.bounds }
    }
}

/// Where the page and the panes stand.
#[derive(Debug, PartialEq, Eq)]
pub struct WorkspaceLayout {
    pub browser: WorkspaceRect,
    pub panes: Vec<PaneLayout>,
}

/// Model of [`WorkspaceLayout`].
#[verifier::ext_equal]
pub struct WorkspaceLayoutView {
    pub browser: WorkspaceRect,
    pub panes: Seq<PaneLayoutView>,
}

impl View for WorkspaceLayout {
    type V = WorkspaceLayoutView;

    open spec fn view(&self) -> WorkspaceLayoutView {
        WorkspaceLayoutView {
            browser: self.browser,
            panes: crate::model::views(self.panes@),
        }
    }
}

/// Where the chrome, the page and the panes stand.
#[derive(Debug, PartialEq, Eq)]
pub struct DesktopLayout {
    pub chrome: WorkspaceRect,
    pub workspace: WorkspaceLayout,
}

/// How many panes are at a position.
pub open spec fn panes_at(panes: Seq<PaneLayoutInputView>, position: PanePosition) -> nat
    decreases panes.len(),
{
    if panes.len() == 0 {
        0
    } else {
        panes_at(panes.drop_last(), position) + if panes.last().position == position {
            1nat
        } else {
            0
        }
    }
}

/// The lesser of two numbers.
pub open spec fn lesser(a: int, b: int) -> int {
    if a <= b {
        a
    } else {
        b
    }
}

/// One for an edge that has panes, else nothing.
pub open spec fn edge(panes: Seq<PaneLayoutInputView>, position: PanePosition) -> int {
    if panes_at(panes, position) > 0 {
        1
    } else {
        0
    }
}

/// The width that a side takes: an even share of the surface with the page and the other side, up
/// to a bound.
pub open spec fn side_width(
    width: u32,
    panes: Seq<PaneLayoutInputView>,
    position: PanePosition,
) -> int {
    if panes_at(panes, position) == 0 {
        0
    } else {
        lesser(
            width as int / (edge(panes, PanePosition::Left) + edge(panes, PanePosition::Right) + 1),
            MAX_SIDE_WIDTH as int,
        )
    }
}

/// The height that the bottom takes: a third of the surface, up to a bound.
pub open spec fn bottom_height(height: u32, panes: Seq<PaneLayoutInputView>) -> int {
    if panes_at(panes, PanePosition::Bottom) == 0 {
        0
    } else {
        lesser(height as int / 3, MAX_BOTTOM_HEIGHT as int)
    }
}

/// Where the `index`-th of `count` even parts of a length begins.
pub open spec fn part_start(total: int, index: int, count: int) -> int {
    (total * index) / count
}

/// Where the page stands: what the panes leave.
pub open spec fn browser_rect(
    surface: WorkspaceSurface,
    panes: Seq<PaneLayoutInputView>,
) -> WorkspaceRect {
    let left = side_width(surface.width, panes, PanePosition::Left);
    let right = side_width(surface.width, panes, PanePosition::Right);
    WorkspaceRect {
        x: left as u32,
        y: 0,
        width: (surface.width - left - right) as u32,
        height: (surface.height - bottom_height(surface.height, panes)) as u32,
    }
}

/// Where the `i`-th pane stands: the panes of an edge share it evenly, in their order.
pub open spec fn pane_rect(
    surface: WorkspaceSurface,
    panes: Seq<PaneLayoutInputView>,
    i: int,
) -> WorkspaceRect {
    let position = panes[i].position;
    let count = panes_at(panes, position) as int;
    let index = panes_at(panes.take(i), position) as int;
    let bottom = bottom_height(surface.height, panes);
    let high = surface.height - bottom;
    match position {
        PanePosition::Bottom => WorkspaceRect {
            x: part_start(surface.width as int, index, count) as u32,
            y: high as u32,
            width: (part_start(surface.width as int, index + 1, count) - part_start(
                surface.width as int,
                index,
                count,
            )) as u32,
            height: bottom as u32,
        },
        _ => {
            let wide = side_width(surface.width, panes, position);
            WorkspaceRect {
                x: if position == PanePosition::Left {
                    0
                } else {
                    (surface.width - wide) as u32
                },
                y: part_start(high, index, count) as u32,
                width: wide as u32,
                height: (part_start(high, index + 1, count) - part_start(high, index, count)) as u32,
            }
        },
    }
}

/// Where the page and the panes stand on a surface.
pub open spec fn workspace_layout(
    surface: WorkspaceSurface,
    panes: Seq<PaneLayoutInputView>,
) -> WorkspaceLayoutView {
    WorkspaceLayoutView {
        browser: browser_rect(surface, panes),
        panes: Seq::new(
            panes.len(),
            |i: int|
                PaneLayoutView {
                    id: panes[i].id,
                    position: panes[i].position,
                    bounds: pane_rect(surface, panes, i),
                },
        ),
    }
}

/// Counting a prefix counts no more.
pub proof fn prefix_counts(panes: Seq<PaneLayoutInputView>, position: PanePosition, n: int)
    requires
        0 <= n <= panes.len(),
    ensures
        panes_at(panes.take(n), position) <= panes_at(panes, position),
        panes_at(panes.take(n), position) <= n,
        n < panes.len() && panes[n].position == position ==> panes_at(panes.take(n), position)
            < panes_at(panes, position),
    decreases panes.len(),
{
    if panes.len() == 0 {
        assert(panes.take(n) =~= panes);
    } else if n == panes.len() {
        assert(panes.take(n) =~= panes);
        prefix_counts(panes.drop_last(), position, n - 1);
        assert(panes.drop_last().take(n - 1) =~= panes.drop_last());
    } else {
        prefix_counts(panes.drop_last(), position, n);
        assert(panes.drop_last().take(n) =~= panes.take(n));
        if n < panes.len() - 1 {
            assert(panes.drop_last()[n] == panes[n]);
        }
    }
}

/// Even parts of a length follow one another and end with it.
pub proof fn parts_fit(total: int, index: int, count: int)
    requires
        0 <= total,
        0 <= index < count,
    ensures
        0 <= part_start(total, index, count) <= part_start(total, index + 1, count) <= total,
        part_start(total, 0, count) == 0,
        part_start(total, count, count) == total,
{
    assert(0 <= total * index <= total * (index + 1) <= total * count) by (nonlinear_arith)
        requires
            0 <= total,
            0 <= index < count,
    ;
    vstd::arithmetic::div_mod::lemma_div_is_ordered(total * index, total * (index + 1), count);
    vstd::arithmetic::div_mod::lemma_div_is_ordered(total * (index + 1), total * count, count);
    vstd::arithmetic::div_mod::lemma_div_multiples_vanish(total, count);
    assert(total * count == count * total) by (nonlinear_arith);
    assert(total * 0 == 0) by (nonlinear_arith);
    vstd::arithmetic::div_mod::lemma_div_pos_is_pos(total * index, count);
    assert(0int / count == 0) by (nonlinear_arith)
        requires
            0 < count,
    ;
}

/// A later part begins where an earlier one ends, or after it.
pub proof fn parts_in_order(total: int, a: int, b: int, count: int)
    requires
        0 <= total,
        0 <= a < b < count,
    ensures
        part_start(total, a + 1, count) <= part_start(total, b, count),
{
    assert(total * (a + 1) <= total * b) by (nonlinear_arith)
        requires
            0 <= total,
            a < b,
    ;
    vstd::arithmetic::div_mod::lemma_div_is_ordered(total * (a + 1), total * b, count);
}

/// Where the `index`-th of `count` even parts of a length begins.
fn scale_axis(total: u32, index: u32, count: u32) -> (start: u32)
    requires
        0 < count,
        index <= count,
    ensures
        start == part_start(total as int, index as int, count as int),
{
    proof {
        if index == count {
            parts_fit(total as int, index - 1, count as int);
        } else {
            parts_fit(total as int, index as int, count as int);
        }
        assert(0 <= total * index <= u64::MAX) by (nonlinear_arith)
            requires
                0 <= total <= 0xffff_ffff,
                0 <= index <= 0xffff_ffff,
        ;
    }
    ((total as u64 * index as u64) / count as u64) as u32
}

/// The `index`-th of `count` even parts of a rectangle, one below the other.
fn split_vertical(x: u32, y: u32, width: u32, height: u32, count: u32, index: u32) -> (rect:
    WorkspaceRect)
    requires
        index < count,
        y + height <= u32::MAX,
    ensures
        rect.x == x,
        rect.y == y + part_start(height as int, index as int, count as int),
        rect.width == width,
        rect.height == part_start(height as int, index + 1, count as int) - part_start(
            height as int,
            index as int,
            count as int,
        ),
{
    proof {
        parts_fit(height as int, index as int, count as int);
    }
    let start = scale_axis(height, index, count);
    let end = scale_axis(height, index + 1, count);
    WorkspaceRect { x, y: y + start, width, height: end - start }
}

/// The `index`-th of `count` even parts of a rectangle, one beside the other.
fn split_horizontal(x: u32, y: u32, width: u32, height: u32, count: u32, index: u32) -> (rect:
    WorkspaceRect)
    requires
        index < count,
        x + width <= u32::MAX,
    ensures
        rect.x == x + part_start(width as int, index as int, count as int),
        rect.y == y,
        rect.width == part_start(width as int, index + 1, count as int) - part_start(
            width as int,
            index as int,
            count as int,
        ),
        rect.height == height,
{
    proof {
        parts_fit(width as int, index as int, count as int);
    }
    let start = scale_axis(width, index, count);
    let end = scale_axis(width, index + 1, count);
    WorkspaceRect { x: x + start, y, width: end - start, height }
}

/// How many panes are at a position.
fn count_at(panes: &Vec<PaneLayoutInput>, position: PanePosition) -> (count: u32)
    requires
        panes.len() <= u32::MAX,
    ensures
        count == panes_at(crate::model::views(panes@), position),
{
    let ghost all = crate::model::views(panes@);
    let mut count: u32 = 0;
    assert(all.take(0) =~= Seq::empty());
    for i in 0..panes.len()
        invariant
            all == crate::model::views(panes@),
            panes.len() <= u32::MAX,
            count == panes_at(all.take(i as int), position),
            count <= i,
    {
        proof {
            assert(all.take(i + 1).drop_last() =~= all.take(i as int));
            assert(all.take(i + 1).last() == panes@[i as int]@);
        }
        if panes[i].position == position {
            count = count + 1;
        }
    }
    assert(all.take(all.len() as int) =~= all);
    count
}

/// The widths of the sides leave room for the page.
pub proof fn sides_fit(surface: WorkspaceSurface, panes: Seq<PaneLayoutInputView>)
    ensures
        0 <= side_width(surface.width, panes, PanePosition::Left),
        0 <= side_width(surface.width, panes, PanePosition::Right),
        side_width(surface.width, panes, PanePosition::Left) + side_width(
            surface.width,
            panes,
            PanePosition::Right,
        ) <= surface.width,
        0 <= bottom_height(surface.height, panes) <= surface.height,
{
    let width = surface.width as int;
    let shares = edge(panes, PanePosition::Left) + edge(panes, PanePosition::Right) + 1;
    if shares == 1 {
        assert(width / shares == width / 1);
    } else if shares == 2 {
        assert(width / shares == width / 2);
    } else {
        assert(width / shares == width / 3);
    }
}

/// Where the page and the panes stand on a surface.
pub fn compute_workspace_layout(surface: WorkspaceSurface, panes: Vec<PaneLayoutInput>) -> (layout:
    WorkspaceLayout)
    requires
        panes.len() <= u32::MAX,
    ensures
        layout@ == workspace_layout(surface, crate::model::views(panes@)),
{
    let ghost all = crate::model::views(panes@);
    proof {
        sides_fit(surface, all);
    }
    let left_count = count_at(&panes, PanePosition::Left);
    let right_count = count_at(&panes, PanePosition::Right);
    let bottom_count = count_at(&panes, PanePosition::Bottom);
    let mut side_edges: u32 = 0;
    if left_count > 0 {
        side_edges = side_edges + 1;
    }
    if right_count > 0 {
        side_edges = side_edges + 1;
    }
    let share = surface.width / (side_edges + 1);
    let side_width: u32 = if side_edges == 0 {
        0
    } else if share < MAX_SIDE_WIDTH {
        share
    } else {
        MAX_SIDE_WIDTH
    };
    let third = surface.height / 3;
    let bottom_height: u32 = if bottom_count == 0 {
        0
    } else if third < MAX_BOTTOM_HEIGHT {
        third
    } else {
        MAX_BOTTOM_HEIGHT
    };
    let left_width: u32 = if left_count > 0 {
        side_width
    } else {
        0
    };
    let right_width: u32 = if right_count > 0 {
        side_width
    } else {
        0
    };
    assert(left_width == self::side_width(surface.width, all, PanePosition::Left));
    assert(right_width == self::side_width(surface.width, all, PanePosition::Right));
    assert(bottom_height == self::bottom_height(surface.height, all));
    let browser_width = surface.width - left_width - right_width;
    let browser_height = surface.height - bottom_height;
    let browser = WorkspaceRect {
        x: left_width,
        y: 0,
        width: browser_width,
        height: browser_height,
    };
    let mut left_index: u32 = 0;
    let mut right_index: u32 = 0;
    let mut bottom_index: u32 = 0;
    let mut pane_layouts: Vec<PaneLayout> = Vec::new();
    assert(all.take(0) =~= Seq::empty());
    for pane in it: panes.into_iter()
        invariant
            all == crate::model::views(it.seq()),
            left_count == panes_at(all, PanePosition::Left),
            right_count == panes_at(all, PanePosition::Right),
            bottom_count == panes_at(all, PanePosition::Bottom),
            left_width == self::side_width(surface.width, all, PanePosition::Left),
            right_width == self::side_width(surface.width, all, PanePosition::Right),
            bottom_height == self::bottom_height(surface.height, all),
            browser_height == surface.height - bottom_height,
            left_width + right_width <= surface.width,
            left_index == panes_at(all.take(it.index() as int), PanePosition::Left),
            right_index == panes_at(all.take(it.index() as int), PanePosition::Right),
            bottom_index == panes_at(all.take(it.index() as int), PanePosition::Bottom),
            pane_layouts@.len() == it.index(),
            forall|i: int|
                0 <= i < it.index() ==> (#[trigger] pane_layouts@[i])@ == workspace_layout(
                    surface,
                    all,
                ).panes[i],
    {
        let ghost n = it.index() as int;
        proof {
            assert(all[n] == pane@);
            prefix_counts(all, PanePosition::Left, n);
            prefix_counts(all, PanePosition::Right, n);
            prefix_counts(all, PanePosition::Bottom, n);
            assert(all.take(n + 1).drop_last() =~= all.take(n));
            assert(all.take(n + 1).last() == pane@);
        }
        let bounds = match pane.position {
            PanePosition::Left => {
                let bounds = split_vertical(
                    0,
                    0,
                    left_width,
                    browser_height,
                    left_count,
                    left_index,
                );
                left_index = left_index + 1;
                bounds
            },
            PanePosition::Right => {
                let bounds = split_vertical(
                    surface.width - right_width,
                    0,
                    right_width,
                    browser_height,
                    right_count,
                    right_index,
                );
                right_index = right_index + 1;
                bounds
            },
            PanePosition::Bottom => {
                let bounds = split_horizontal(
                    0,
                    browser_height,
                    surface.width,
                    bottom_height,
                    bottom_count,
                    bottom_index,
                );
                bottom_index = bottom_index + 1;
                bounds
            },
        };
        assert(bounds == pane_rect(surface, all, n));
        pane_layouts.push(PaneLayout { id: pane.id, position: pane.position, bounds });
    }
    let layout = WorkspaceLayout { browser, panes: pane_layouts };
    assert(layout@.panes =~= workspace_layout(surface, all).panes);
    layout
}

/// A rectangle moved down and to the right.
pub open spec fn moved(rect: WorkspaceRect, x: u32, y: u32) -> WorkspaceRect {
    WorkspaceRect { x: (rect.x + x) as u32, y: (rect.y + y) as u32, ..rect }
}

/// A rectangle moved down and to the right.
fn offset_rect(rect: WorkspaceRect, x: u32, y: u32) -> (result: WorkspaceRect)
    requires
        rect.x + x <= u32::MAX,
        rect.y + y <= u32::MAX,
    ensures
        result == moved(rect, x, y),
{
    WorkspaceRect { x: rect.x + x, y: rect.y + y, width: rect.width, height: rect.height }
}

/// A layout moved down and to the right.
pub open spec fn moved_layout(layout: WorkspaceLayoutView, x: u32, y: u32) -> WorkspaceLayoutView {
    WorkspaceLayoutView {
        browser: moved(layout.browser, x, y),
        panes: Seq::new(
            layout.panes.len(),
            |i: int|
                PaneLayoutView {
                    bounds: moved(layout.panes[i].bounds, x, y),
                    ..layout.panes[i]
                },
        ),
    }
}

/// Moves a layout down and to the right.
fn offset_workspace_layout(layout: &mut WorkspaceLayout, x: u32, y: u32)
    requires
        old(layout).browser.x + x <= u32::MAX,
        old(layout).browser.y + y <= u32::MAX,
        forall|i: int|
            0 <= i < old(layout).panes@.len() ==> (#[trigger] old(layout).panes@[i]).bounds.x + x
                <= u32::MAX && old(layout).panes@[i].bounds.y + y <= u32::MAX,
    ensures
        final(layout)@ == moved_layout(old(layout)@, x, y),
{
    let ghost before = layout@;
    let ghost given = layout.panes@;
    layout.browser = offset_rect(layout.browser, x, y);
    let mut panes: Vec<PaneLayout> = Vec::new();
    for i in 0..layout.panes.len()
        invariant
            layout.panes@ == given,
            before.panes == crate::model::views(given),
            forall|j: int|
                0 <= j < given.len() ==> (#[trigger] given[j]).bounds.x + x <= u32::MAX
                    && given[j].bounds.y + y <= u32::MAX,
            panes@.len() == i,
            forall|j: int|
                0 <= j < i ==> (#[trigger] panes@[j])@ == moved_layout(before, x, y).panes[j],
            layout.browser == moved(before.browser, x, y),
    {
        let pane = &layout.panes[i];
        assert(given[i as int] == *pane);
        panes.push(
            PaneLayout {
                id: pane.id.clone(),
                position: pane.position,
                bounds: offset_rect(pane.bounds, x, y),
            },
        );
    }
    layout.panes = panes;
    assert(layout@.panes =~= moved_layout(before, x, y).panes);
}

impl WorkspaceLayout {
    /// Where a pane stands.
    pub fn pane_bounds(&self, pane_id: &str) -> (bounds: Option<WorkspaceRect>)
        ensures
            match bounds {
                Some(bounds) => exists|i: int|
                    #![trigger self@.panes[i]]
                    0 <= i < self@.panes.len() && self@.panes[i].id == pane_id@
                        && self@.panes[i].bounds == bounds && forall|j: int|
                        0 <= j < i ==> (#[trigger] self@.panes[j]).id != pane_id@,
                None => forall|i: int|
                    0 <= i < self@.panes.len() ==> (#[trigger] self@.panes[i]).id != pane_id@,
            },
    {
        for i in 0..self.panes.len()
            invariant
                forall|j: int| 0 <= j < i ==> (#[trigger] self@.panes[j]).id != pane_id@,
        {
            assert(self@.panes[i as int] == self.panes@[i as int]@);
            if same_text(self.panes[i].id.as_str(), pane_id) {
                return Some(self.panes[i].bounds);
            }
        }
        None
    }
}

/// The height of the chrome: as much of it as the surface has.
pub open spec fn chrome_height(surface: WorkspaceSurface) -> u32 {
    if surface.height <= BROWSER_CHROME_HEIGHT {
        surface.height
    } else {
        BROWSER_CHROME_HEIGHT
    }
}

/// What is left of a surface below the chrome.
pub open spec fn below_chrome(surface: WorkspaceSurface) -> WorkspaceSurface {
    WorkspaceSurface {
        width: surface.width,
        height: (surface.height - chrome_height(surface)) as u32,
    }
}

/// Where the chrome, the page and the panes stand on a surface.
pub fn compute_desktop_layout(surface: WorkspaceSurface, panes: Vec<PaneLayoutInput>) -> (layout:
    DesktopLayout)
    requires
        panes.len() <= u32::MAX,
    ensures
        layout.chrome == (WorkspaceRect {
            x: 0,
            y: 0,
            width: surface.width,
            height: chrome_height(surface),
        }),
        layout.workspace@ == moved_layout(
            workspace_layout(below_chrome(surface), crate::model::views(panes@)),
            0,
            chrome_height(surface),
        ),
{
    let ghost all = crate::model::views(panes@);
    let height: u32 = if surface.height < BROWSER_CHROME_HEIGHT {
        surface.height
    } else {
        BROWSER_CHROME_HEIGHT
    };
    let chrome = WorkspaceRect { x: 0, y: 0, width: surface.width, height };
    let rest = WorkspaceSurface { width: surface.width, height: surface.height - height };
    let mut workspace = compute_workspace_layout(rest, panes);
    proof {
        panes_stay_inside(rest, all);
        assert(workspace@.panes.len() == all.len());
        assert forall|i: int| 0 <= i < workspace.panes@.len() implies (
        #[trigger] workspace.panes@[i]).bounds.x + 0 <= u32::MAX && workspace.panes@[i].bounds.y
            + height <= u32::MAX by {
            assert(workspace@.panes[i] == workspace.panes@[i]@);
            assert(pane_rect(rest, all, i).within(rest));
        }
    }
    offset_workspace_layout(&mut workspace, 0, height);
    DesktopLayout { chrome, workspace }
}

/// The page and every pane lie within the surface.
pub proof fn panes_stay_inside(surface: WorkspaceSurface, panes: Seq<PaneLayoutInputView>)
    ensures
        browser_rect(surface, panes).within(surface),
        forall|i: int|
            0 <= i < panes.len() ==> (#[trigger] pane_rect(surface, panes, i)).within(surface),
{
    sides_fit(surface, panes);
    assert forall|i: int| 0 <= i < panes.len() implies (#[trigger] pane_rect(
        surface,
        panes,
        i,
    )).within(surface) by {
        let position = panes[i].position;
        prefix_counts(panes, position, i);
        let count = panes_at(panes, position) as int;
        let index = panes_at(panes.take(i), position) as int;
        parts_fit(surface.width as int, index, count);
        parts_fit(surface.height - bottom_height(surface.height, panes), index, count);
    }
}

/// A pane stands behind those of its edge that are given before it.
pub proof fn later_panes_count_more(panes: Seq<PaneLayoutInputView>, i: int, j: int)
    requires
        0 <= i < j < panes.len(),
        panes[i].position == panes[j].position,
    ensures
        panes_at(panes.take(i), panes[i].position) < panes_at(panes.take(j), panes[i].position),
{
    prefix_counts(panes.take(j), panes[i].position, i);
    assert(panes.take(j).take(i) =~= panes.take(i));
    assert(panes.take(j)[i] == panes[i]);
}

/// No pane covers the page, and no pane covers another.
pub proof fn panes_do_not_overlap(surface: WorkspaceSurface, panes: Seq<PaneLayoutInputView>)
    ensures
        forall|i: int|
            0 <= i < panes.len() ==> (#[trigger] pane_rect(surface, panes, i)).apart(
                browser_rect(surface, panes),
            ),
        forall|i: int, j: int|
            0 <= i < j < panes.len() ==> (#[trigger] pane_rect(surface, panes, i)).apart(
                #[trigger] pane_rect(surface, panes, j),
            ),
{
    sides_fit(surface, panes);
    panes_stay_inside(surface, panes);
    let high = surface.height - bottom_height(surface.height, panes);
    assert forall|i: int| 0 <= i < panes.len() implies (#[trigger] pane_rect(
        surface,
        panes,
        i,
    )).apart(browser_rect(surface, panes)) by {
        let position = panes[i].position;
        prefix_counts(panes, position, i);
        let count = panes_at(panes, position) as int;
        let index = panes_at(panes.take(i), position) as int;
        parts_fit(surface.width as int, index, count);
        parts_fit(high, index, count);
    }
    assert forall|i: int, j: int| 0 <= i < j < panes.len() implies (#[trigger] pane_rect(
        surface,
        panes,
        i,
    )).apart(#[trigger] pane_rect(surface, panes, j)) by {
        let a = panes[i].position;
        let b = panes[j].position;
        prefix_counts(panes, a, i);
        prefix_counts(panes, b, j);
        let ca = panes_at(panes, a) as int;
        let cb = panes_at(panes, b) as int;
        let ia = panes_at(panes.take(i), a) as int;
        let ib = panes_at(panes.take(j), b) as int;
        parts_fit(surface.width as int, ia, ca);
        parts_fit(high, ia, ca);
        parts_fit(surface.width as int, ib, cb);
        parts_fit(high, ib, cb);
        if a == b {
            later_panes_count_more(panes, i, j);
            parts_in_order(surface.width as int, ia, ib, ca);
            parts_in_order(high, ia, ib, ca);
        }
    }
}

/// The panes of an edge leave no gap: the first begins where the edge begins, each next one begins
/// where the one before ends, and the last ends where the edge ends.
pub proof fn panes_leave_no_gap(
    surface: WorkspaceSurface,
    panes: Seq<PaneLayoutInputView>,
    i: int,
    j: int,
)
    requires
        0 <= i < panes.len(),
        0 <= j < panes.len(),
        panes[i].position == panes[j].position,
    ensures
        ({
            let position = panes[i].position;
            let first = pane_rect(surface, panes, i);
            let second = pane_rect(surface, panes, j);
            let high = surface.height - bottom_height(surface.height, panes);
            let at = panes_at(panes.take(i), position);
            &&& panes_at(panes.take(j), position) == at + 1 ==> if position == PanePosition::Bottom {
                first.x + first.width == second.x
            } else {
                first.y + first.height == second.y
            }
            &&& at == 0 ==> if position == PanePosition::Bottom {
                first.x == 0
            } else {
                first.y == 0
            }
            &&& at + 1 == panes_at(panes, position) ==> if position == PanePosition::Bottom {
                first.x + first.width == surface.width
            } else {
                first.y + first.height == high
            }
        }),
{
    let position = panes[i].position;
    let high = surface.height - bottom_height(surface.height, panes);
    sides_fit(surface, panes);
    prefix_counts(panes, position, i);
    prefix_counts(panes, position, j);
    let count = panes_at(panes, position) as int;
    let a = panes_at(panes.take(i), position) as int;
    let b = panes_at(panes.take(j), position) as int;
    parts_fit(surface.width as int, a, count);
    parts_fit(high, a, count);
    parts_fit(surface.width as int, b, count);
    parts_fit(high, b, count);
}

} // verus!
