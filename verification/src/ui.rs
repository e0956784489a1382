//! The frame layout: what one render pass draws, computed from the surface
//! and the application state alone. The drawing itself (widgets, borders,
//! the terminal back end) happens outside this crate; this module decides
//! where each panel goes and what it holds, and proves the layout invariant.

use vstd::prelude::*;

use crate::app::App;

verus! {

/// The exact height, in rows, of the status bar at the bottom of the frame.
pub const STATUS_BAR_HEIGHT: u16 = 3;

/// A rectangular region of the drawing surface, in cells.
#[derive(Clone, Copy, PartialEq, Eq, Structural, Debug)]
pub struct Rect {
    pub x: u16,
    pub y: u16,
    pub width: u16,
    pub height: u16,
}

/// A well-formed region: its far edges still fit in the cell coordinates.
pub open spec fn rect_wf(r: Rect) -> bool {
    &&& r.x + r.width <= u16::MAX
    &&& r.y + r.height <= u16::MAX
}

/// The height of the status region: the fixed status bar height, clamped to
/// the surface height when the surface is shorter than the bar.
pub open spec fn status_height_spec(h: u16) -> u16 {
    if h >= STATUS_BAR_HEIGHT {
        STATUS_BAR_HEIGHT
    } else {
        h
    }
}

/// The vertical split of a surface into the flexible content region on top
/// and the fixed-height status region anchored at the bottom. The status
/// region takes exactly the status bar height whenever the surface allows
/// it, and the whole (shorter) surface otherwise; the content region takes
/// every remaining row above it.
pub open spec fn split_spec(area: Rect) -> (Rect, Rect) {
    let status_h = status_height_spec(area.height);
    let content_h = (area.height - status_h) as u16;
    (
        Rect { x: area.x, y: area.y, width: area.width, height: content_h },
        Rect {
            x: area.x,
            y: (area.y + content_h) as u16,
            width: area.width,
            height: status_h,
        },
    )
}

/// Splits the surface vertically into the content region and the status
/// region, exactly as `split_spec` says.
pub fn split_vertical(area: Rect) -> (r: (Rect, Rect))
    requires
        rect_wf(area),
    ensures
        r == split_spec(area),
        r.0.height + r.1.height == area.height,
        rect_wf(r.0),
        rect_wf(r.1),
{
    let status_h: u16 = if area.height >= STATUS_BAR_HEIGHT {
        STATUS_BAR_HEIGHT
    } else {
        area.height
    };
    let content_h: u16 = area.height - status_h;
    let content = Rect { x: area.x, y: area.y, width: area.width, height: content_h };
    let status = Rect { x: area.x, y: area.y + content_h, width: area.width, height: status_h };
    (content, status)
}

/// The plan of one frame: where the content panel and the status bar go.
/// Both panels are drawn with rounded borders on all four sides; the content
/// panel holds the placeholder text, word-wrapped with trimmed whitespace,
/// and the status bar carries its title in the border and no body.
#[derive(Clone, Copy, PartialEq, Eq, Structural, Debug)]
pub struct FramePlan {
    pub content: Rect,
    pub status: Rect,
}

/// What one render pass draws on a given surface for a given state. The plan
/// is a function of the surface alone: the current state has no essential
/// attribute that the frame displays, so equal surfaces give equal plans
/// whatever the state.
pub open spec fn plan_spec(area: Rect, state: App) -> FramePlan {
    FramePlan { content: split_spec(area).0, status: split_spec(area).1 }
}

/// Builds the plan of one frame from the surface and the state. Rendering
/// keeps no state of its own: the result is fully determined by the
/// arguments, so two calls on the same surface and state plan the same frame.
pub fn frame_plan(area: Rect, state: &App) -> (p: FramePlan)
    requires
        rect_wf(area),
    ensures
        p == plan_spec(area, *state),
{
    let (content, status) = split_vertical(area);
    FramePlan { content, status }
}

/// The placeholder text shown in the content panel.
pub fn content_text() -> (t: &'static str)
    ensures
        t@ == "demo"@,
{
    "demo"
}

/// The title shown in the status bar's border.
pub fn status_title() -> (t: &'static str)
    ensures
        t@ == "status"@,
{
    "status"
}

/// The layout invariant: on a surface at least as tall as the status bar,
/// the status region is exactly the status bar height and the content region
/// is exactly the rest; on a shorter surface the status region is clamped to
/// the whole surface height and the content region is empty.
pub proof fn lemma_layout_heights(area: Rect)
    ensures
        area.height >= STATUS_BAR_HEIGHT ==> {
            &&& split_spec(area).1.height == STATUS_BAR_HEIGHT
            &&& split_spec(area).0.height == area.height - STATUS_BAR_HEIGHT
        },
        area.height < STATUS_BAR_HEIGHT ==> {
            &&& split_spec(area).1.height == area.height
            &&& split_spec(area).0.height == 0
        },
        split_spec(area).0.height + split_spec(area).1.height == area.height,
{
}

/// Rendering is stateless and idempotent: the plan depends on the surface
/// alone, so two render passes over the same surface — with the same state
/// or any other — plan identical frames.
pub proof fn lemma_render_idempotent(area: Rect, s1: App, s2: App)
    ensures
        plan_spec(area, s1) == plan_spec(area, s2),
{
}

} // verus!
