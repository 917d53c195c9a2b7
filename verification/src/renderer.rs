//! What is drawn where: the boxes of the open overlays and the backdrop
//! around each.

use crate::layout::{center, centered, Rect};
use crate::popup::{calculate_area, popup_height, popup_width};
use crate::ui::UIState;
use vstd::prelude::*;

verus! {

/// Computes the geometry of a frame.
#[derive(Clone, Copy, Debug, PartialEq, Eq, Structural)]
pub struct Renderer;

/// An overlay's box and the strips of backdrop around it.
#[derive(Debug, Clone)]
pub struct OverlayPlan {
    pub area: Rect,
    pub backdrop: Vec<Rect>,
}

/// The overlays to draw in one frame, each above the one before: popup,
/// input, confirmation.
#[derive(Debug, Clone)]
pub struct FramePlan {
    pub popup: Option<OverlayPlan>,
    pub input: Option<OverlayPlan>,
    pub confirm: Option<OverlayPlan>,
}

/// The greatest size of an input's box, as columns and rows.
pub const INPUT_SIZE: (u16, u16) = (50, 3);

/// The greatest size of a confirmation's box, as columns and rows.
pub const CONFIRM_SIZE: (u16, u16) = (40, 10);

/// The strip of `full` above `overlay`, over the whole width; none where it
/// would hold no cell.
pub open spec fn strip_above(full: Rect, overlay: Rect) -> Option<Rect> {
    if overlay.y > full.y && full.width > 0 {
        Some(Rect { x: full.x, y: full.y, width: full.width, height: (overlay.y - full.y) as u16 })
    } else {
        None
    }
}

/// The strip of `full` below `overlay`, over the whole width; none where it
/// would hold no cell.
pub open spec fn strip_below(full: Rect, overlay: Rect) -> Option<Rect> {
    let from = overlay.y + overlay.height;
    if from < full.y + full.height && full.width > 0 {
        Some(
            Rect {
                x: full.x,
                y: from as u16,
                width: full.width,
                height: (full.y + full.height - from) as u16,
            },
        )
    } else {
        None
    }
}

/// The strip of `full` left of `overlay`, as high as the overlay; none where
/// it would hold no cell.
pub open spec fn strip_left(full: Rect, overlay: Rect) -> Option<Rect> {
    if overlay.x > full.x && overlay.height > 0 {
        Some(
            Rect {
                x: full.x,
                y: overlay.y,
                width: (overlay.x - full.x) as u16,
                height: overlay.height,
            },
        )
    } else {
        None
    }
}

/// The strip of `full` right of `overlay`, as high as the overlay; none where
/// it would hold no cell.
pub open spec fn strip_right(full: Rect, overlay: Rect) -> Option<Rect> {
    let from = overlay.x + overlay.width;
    if from < full.x + full.width && overlay.height > 0 {
        Some(
            Rect {
                x: from as u16,
                y: overlay.y,
                width: (full.x + full.width - from) as u16,
                height: overlay.height,
            },
        )
    } else {
        None
    }
}

/// A list of the strip, if there is one.
pub open spec fn listed(strip: Option<Rect>) -> Seq<Rect> {
    match strip {
        Some(r) => seq![r],
        None => Seq::empty(),
    }
}

/// The backdrop of `overlay` in `full`: the strips above, below, left and
/// right of it, in that order. A strip that would have no width or no height
/// is left out.
pub open spec fn backdrop(full: Rect, overlay: Rect) -> Seq<Rect> {
    listed(strip_above(full, overlay)) + listed(strip_below(full, overlay)) + listed(
        strip_left(full, overlay),
    ) + listed(strip_right(full, overlay))
}

/// `plan` holds `area` and its backdrop in `full`, or is absent with the
/// overlay.
pub open spec fn is_plan(plan: Option<OverlayPlan>, open: bool, full: Rect, area: Rect) -> bool {
    if open {
        plan is Some && plan->0.area == area && plan->0.backdrop@ == backdrop(full, area)
    } else {
        plan is None
    }
}

/// The strip at place `i` of a backdrop is the first of the four strips
/// that are there, counted from `i` strips on.
pub proof fn lemma_which_strip(full: Rect, overlay: Rect, i: int)
    requires
        0 <= i < backdrop(full, overlay).len(),
    ensures
        ({
            let above = listed(strip_above(full, overlay)).len();
            let below = listed(strip_below(full, overlay)).len();
            let left = listed(strip_left(full, overlay)).len();
            let strip = Some(backdrop(full, overlay)[i]);
            if i < above {
                strip == strip_above(full, overlay)
            } else if i < above + below {
                strip == strip_below(full, overlay)
            } else if i < above + below + left {
                strip == strip_left(full, overlay)
            } else {
                strip == strip_right(full, overlay)
            }
        }),
{
}

/// No strip of a backdrop is empty, and no two strips share a cell, wherever
/// the overlay lies.
pub proof fn backdrop_strips_are_apart(full: Rect, overlay: Rect)
    requires
        full.fits(),
    ensures
        forall|i: int|
            0 <= i < backdrop(full, overlay).len() ==> {
                let strip = #[trigger] backdrop(full, overlay)[i];
                strip.width > 0 && strip.height > 0
            },
        forall|i: int, j: int, column: int, row: int|
            0 <= i < j < backdrop(full, overlay).len() ==> !(#[trigger] backdrop(
                full,
                overlay,
            )[i].contains(column, row) && #[trigger] backdrop(full, overlay)[j].contains(
                column,
                row,
            )),
{
    let strips = backdrop(full, overlay);
    assert forall|i: int| 0 <= i < strips.len() implies {
        let strip = #[trigger] strips[i];
        strip.width > 0 && strip.height > 0
    } by {
        lemma_which_strip(full, overlay, i);
    }
    assert forall|i: int, j: int, column: int, row: int| 0 <= i < j < strips.len() implies !(
    #[trigger] strips[i].contains(column, row) && #[trigger] strips[j].contains(column, row)) by {
        lemma_which_strip(full, overlay, i);
        lemma_which_strip(full, overlay, j);
    }
}

/// The backdrop dims every cell of the frame but the overlay's: every strip
/// lies within `full`, and a cell of `full` lies in `overlay` or in a strip,
/// never in both. Where the overlay is the whole frame, there is no strip.
pub proof fn backdrop_spares_overlay(full: Rect, overlay: Rect)
    requires
        full.fits(),
        overlay.within(full),
    ensures
        forall|i: int|
            0 <= i < backdrop(full, overlay).len() ==> (#[trigger] backdrop(
                full,
                overlay,
            )[i]).within(full),
        forall|column: int, row: int|
            full.contains(column, row) ==> (overlay.contains(column, row) != exists|i: int|
                0 <= i < backdrop(full, overlay).len() && (#[trigger] backdrop(
                    full,
                    overlay,
                )[i]).contains(column, row)),
        overlay == full ==> backdrop(full, overlay).len() == 0,
{
    let strips = backdrop(full, overlay);
    let a = listed(strip_above(full, overlay));
    let b = listed(strip_below(full, overlay));
    let l = listed(strip_left(full, overlay));
    assert forall|i: int| 0 <= i < strips.len() implies (#[trigger] strips[i]).within(full) by {
        lemma_which_strip(full, overlay, i);
    }
    assert forall|column: int, row: int| full.contains(column, row) implies (overlay.contains(
        column,
        row,
    ) != exists|i: int| 0 <= i < strips.len() && (#[trigger] strips[i]).contains(column, row)) by {
        if overlay.contains(column, row) {
            assert forall|i: int| 0 <= i < strips.len() implies !(#[trigger] strips[i]).contains(
                column,
                row,
            ) by {
                lemma_which_strip(full, overlay, i);
            }
        } else if row < overlay.y {
            assert(strips[0] == strip_above(full, overlay)->0);
            assert(strips[0].contains(column, row));
        } else if row >= overlay.y + overlay.height {
            let k = a.len() as int;
            assert(strips[k] == strip_below(full, overlay)->0);
            assert(strips[k].contains(column, row));
        } else if column < overlay.x {
            let k = (a.len() + b.len()) as int;
            assert(strips[k] == strip_left(full, overlay)->0);
            assert(strips[k].contains(column, row));
        } else {
            let k = (a.len() + b.len() + l.len()) as int;
            assert(strips[k] == strip_right(full, overlay)->0);
            assert(strips[k].contains(column, row));
        }
    }
}

impl Renderer {
    /// The strips of `full` to dim around the overlay in `popup_area`: above,
    /// below, left and right of it, each only if it holds a cell.
    pub fn render_overlay_except(&self, full: Rect, popup_area: Rect) -> (strips: Vec<Rect>)
        requires
            full.fits(),
        ensures
            strips@ == backdrop(full, popup_area),
            forall|i: int|
                0 <= i < strips@.len() ==> (#[trigger] strips@[i]).width > 0 && strips@[i].height
                    > 0,
    {
        proof {
            backdrop_strips_are_apart(full, popup_area);
        }
        let mut strips: Vec<Rect> = Vec::new();
        let full_bottom: u16 = full.y + full.height;
        let full_right: u16 = full.x + full.width;
        if popup_area.y > full.y && full.width > 0 {
            strips.push(
                Rect { x: full.x, y: full.y, width: full.width, height: popup_area.y - full.y },
            );
        }
        let bottom_y: u32 = popup_area.y as u32 + popup_area.height as u32;
        if bottom_y < full_bottom as u32 && full.width > 0 {
            strips.push(
                Rect {
                    x: full.x,
                    y: bottom_y as u16,
                    width: full.width,
                    height: full_bottom - bottom_y as u16,
                },
            );
        }
        if popup_area.x > full.x && popup_area.height > 0 {
            strips.push(
                Rect {
                    x: full.x,
                    y: popup_area.y,
                    width: popup_area.x - full.x,
                    height: popup_area.height,
                },
            );
        }
        let right_x: u32 = popup_area.x as u32 + popup_area.width as u32;
        if right_x < full_right as u32 && popup_area.height > 0 {
            strips.push(
                Rect {
                    x: right_x as u16,
                    y: popup_area.y,
                    width: full_right - right_x as u16,
                    height: popup_area.height,
                },
            );
        }
        strips
    }

    /// The overlays to draw over the list in the frame `frame_area`, with the
    /// box and the backdrop of each. Every box is computed from the overlay's
    /// present state and the frame's present size.
    pub fn render(&self, frame_area: Rect, ui: &UIState) -> (plan: FramePlan)
        requires
            frame_area.fits(),
        ensures
            ui.popup is Some ==> is_plan(
                plan.popup,
                true,
                frame_area,
                centered(
                    frame_area,
                    popup_width(ui.popup->0, frame_area.width) as u16,
                    popup_height(ui.popup->0, frame_area.width, frame_area.height) as u16,
                ),
            ),
            ui.popup is None ==> plan.popup is None,
            is_plan(
                plan.input,
                ui.inputbox is Some,
                frame_area,
                centered(frame_area, INPUT_SIZE.0, INPUT_SIZE.1),
            ),
            is_plan(
                plan.confirm,
                ui.confirm is Some,
                frame_area,
                centered(frame_area, CONFIRM_SIZE.0, CONFIRM_SIZE.1),
            ),
    {
        let popup: Option<OverlayPlan> = match &ui.popup {
            Some(p) => {
                let area: Rect = calculate_area(p, frame_area);
                Some(OverlayPlan { area, backdrop: self.render_overlay_except(frame_area, area) })
            },
            None => None,
        };
        let input: Option<OverlayPlan> = if ui.inputbox.is_some() {
            let area: Rect = center(frame_area, INPUT_SIZE.0, INPUT_SIZE.1);
            Some(OverlayPlan { area, backdrop: self.render_overlay_except(frame_area, area) })
        } else {
            None
        };
        let confirm: Option<OverlayPlan> = if ui.confirm.is_some() {
            let area: Rect = center(frame_area, CONFIRM_SIZE.0, CONFIRM_SIZE.1);
            Some(OverlayPlan { area, backdrop: self.render_overlay_except(frame_area, area) })
        } else {
            None
        };
        FramePlan { popup, input, confirm }
    }
}

} // verus!
