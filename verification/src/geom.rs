//! Fixed geometry of the settings dialog: a plain integer rectangle and
//! the two-column group layout.

use vstd::prelude::*;

verus! {

/// An integer rectangle: position and size.
#[derive(Clone, Copy, Debug, PartialEq, Eq, Structural)]
pub struct RectI {
    pub x: i32,
    pub y: i32,
    pub w: i32,
    pub h: i32,
}

impl RectI {
    /// A rectangle from its position and size.
    pub fn new(x: i32, y: i32, w: i32, h: i32) -> (r: RectI)
        ensures
            r.x == x,
            r.y == y,
            r.w == w,
            r.h == h,
    {
        RectI { x, y, w, h }
    }
}

/// The dialog's two-column layout: a margin, two group widths, and the gap
/// between the columns.
#[derive(Clone, Copy, Debug, PartialEq, Eq, Structural)]
pub struct Layout {
    margin: i32,
    group_h: i32,
    group_w_left: i32,
    gap: i32,
    group_w_right: i32,
}

impl Layout {
    /// The only layout the dialog uses.
    pub closed spec fn wf(self) -> bool {
        self.margin == 12 && self.group_h == 170 && self.group_w_left == 240 && self.gap == 12
            && self.group_w_right == 260
    }

    /// The fixed dialog layout.
    pub fn new() -> (r: Layout)
        ensures
            r.wf(),
            r.spec_left_x() == 12,
            r.spec_top_y() == 12,
            r.spec_right_x() == 264,
            r.spec_group_h() == 170,
            r.spec_group_w_left() == 240,
            r.spec_group_w_right() == 260,
    {
        Layout { margin: 12, group_h: 170, group_w_left: 240, gap: 12, group_w_right: 260 }
    }

    /// The left column's x position.
    pub closed spec fn spec_left_x(self) -> int {
        self.margin as int
    }

    /// The top margin.
    pub closed spec fn spec_top_y(self) -> int {
        self.margin as int
    }

    /// Where the right column starts: margin, left group and gap.
    pub closed spec fn spec_right_x(self) -> int {
        self.margin + self.group_w_left + self.gap
    }

    /// The height of a group box.
    pub closed spec fn spec_group_h(self) -> int {
        self.group_h as int
    }

    /// The width of the left group box.
    pub closed spec fn spec_group_w_left(self) -> int {
        self.group_w_left as int
    }

    /// The width of the right group box.
    pub closed spec fn spec_group_w_right(self) -> int {
        self.group_w_right as int
    }

    /// The left column's x position.
    pub fn left_x(self) -> (r: i32)
        ensures
            r == self.spec_left_x(),
    {
        self.margin
    }

    /// The top margin.
    pub fn top_y(self) -> (r: i32)
        ensures
            r == self.spec_top_y(),
    {
        self.margin
    }

    /// Where the right column starts.
    pub fn right_x(self) -> (r: i32)
        requires
            self.wf(),
        ensures
            r == self.spec_right_x(),
    {
        self.margin + self.group_w_left + self.gap
    }

    /// The height of a group box.
    pub fn group_h(self) -> (r: i32)
        ensures
            r == self.spec_group_h(),
    {
        self.group_h
    }

    /// The width of the left group box.
    pub fn group_w_left(self) -> (r: i32)
        ensures
            r == self.spec_group_w_left(),
    {
        self.group_w_left
    }

    /// The width of the right group box.
    pub fn group_w_right(self) -> (r: i32)
        ensures
            r == self.spec_group_w_right(),
    {
        self.group_w_right
    }
}

} // verus!
