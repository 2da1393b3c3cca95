//! Drawing commands for the menu overlay: what the GUI asks a video backend
//! to draw, in order.
use vstd::prelude::*;

verus! {

/// One drawing command on the overlay. Colors are 0xRRGGBB (a flash message
/// adds an opaque alpha byte); text is drawn byte by byte with the small font.
pub enum DrawOp {
    /// Clear the overlay area of a `width` x `height` framebuffer.
    Clear { width: u32, height: u32 },
    /// Fill the rectangle [x1, x2) x [y1, y2).
    Rect { x1: i32, y1: i32, x2: i32, y2: i32, color: u32 },
    /// A horizontal line on row `y` over [x1, x2).
    HLine { x1: i32, x2: i32, y: i32, color: u32 },
    /// A vertical line on column `x` over [y1, y2).
    VLine { x: i32, y1: i32, y2: i32, color: u32 },
    /// Text whose baseline starts at (x, y).
    Text { x: i32, y: i32, text: Vec<u8>, color: u32 },
}

/// A drawing command as values.
pub enum DrawOpView {
    Clear { width: u32, height: u32 },
    Rect { x1: i32, y1: i32, x2: i32, y2: i32, color: u32 },
    HLine { x1: i32, x2: i32, y: i32, color: u32 },
    VLine { x: i32, y1: i32, y2: i32, color: u32 },
    Text { x: i32, y: i32, text: Seq<u8>, color: u32 },
}

impl View for DrawOp {
    type V = DrawOpView;

    open spec fn view(&self) -> DrawOpView {
        match self {
            DrawOp::Clear { width, height } => DrawOpView::Clear { width: *width, height: *height },
            DrawOp::Rect { x1, y1, x2, y2, color } => DrawOpView::Rect {
                x1: *x1,
                y1: *y1,
                x2: *x2,
                y2: *y2,
                color: *color,
            },
            DrawOp::HLine { x1, x2, y, color } => DrawOpView::HLine { x1: *x1, x2: *x2, y: *y, color: *color },
            DrawOp::VLine { x, y1, y2, color } => DrawOpView::VLine { x: *x, y1: *y1, y2: *y2, color: *color },
            DrawOp::Text { x, y, text, color } => DrawOpView::Text { x: *x, y: *y, text: text@, color: *color },
        }
    }
}

/// The commands of a list as values.
pub open spec fn ops_view(ops: Seq<DrawOp>) -> Seq<DrawOpView> {
    ops.map_values(|op: DrawOp| op@)
}

/// Append a command to a list.
pub fn push_op(ops: &mut Vec<DrawOp>, op: DrawOp)
    ensures
        ops_view(final(ops)@) == ops_view(old(ops)@).push(op@),
{
    let ghost before = ops@;
    ops.push(op);
    assert(ops_view(ops@) =~= ops_view(before).push(op@));
}

} // verus!
