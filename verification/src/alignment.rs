//! The alignment of a text about its anchor, and how it is derived from the
//! justification codes of a drawing.
//!
//! A single-line text and an attribute definition carry a horizontal and a
//! vertical justification code; a rich text carries one attachment point,
//! a code from 1 to 9 that counts the nine anchors row by row, from the top
//! left to the bottom right.

use vstd::prelude::*;

verus! {

/// The horizontal alignment of a text.
#[derive(Clone, Copy, Debug, PartialEq, Eq, Structural)]
pub enum HAlignment {
    Left,
    Center,
    Right,
}

/// The vertical alignment of a text.
#[derive(Clone, Copy, Debug, PartialEq, Eq, Structural)]
pub enum VAlignment {
    Top,
    Middle,
    Bottom,
}

impl HAlignment {
    /// The alignment that a horizontal justification code stands for:
    /// 0 is left, 1 is centered, 2 is right, 4 is centered about the middle
    /// of the text. Every other code, among them 3 (aligned) and 5 (fit),
    /// stands for left.
    pub open spec fn of_justification(code: i16) -> HAlignment {
        if code == 1 || code == 4 {
            HAlignment::Center
        } else if code == 2 {
            HAlignment::Right
        } else {
            HAlignment::Left
        }
    }

    /// The alignment that an attachment point stands for: the column of
    /// the anchor. A code outside 1 to 9 stands for left.
    pub open spec fn of_attachment_point(code: i16) -> HAlignment {
        if 1 <= code <= 9 {
            if code % 3 == 1 {
                HAlignment::Left
            } else if code % 3 == 2 {
                HAlignment::Center
            } else {
                HAlignment::Right
            }
        } else {
            HAlignment::Left
        }
    }

    /// The name of the alignment in the element format.
    pub open spec fn name(self) -> Seq<char> {
        match self {
            HAlignment::Left => "AlignLeft"@,
            HAlignment::Center => "AlignHCenter"@,
            HAlignment::Right => "AlignRight"@,
        }
    }

    /// Derives the alignment from a horizontal justification code.
    pub fn from_justification(code: i16) -> (a: HAlignment)
        ensures
            a == HAlignment::of_justification(code),
    {
        match code {
            1 | 4 => HAlignment::Center,
            2 => HAlignment::Right,
            _ => HAlignment::Left,
        }
    }

    /// Derives the alignment from the attachment point of a rich text.
    pub fn from_attachment_point(code: i16) -> (a: HAlignment)
        ensures
            a == HAlignment::of_attachment_point(code),
    {
        match code {
            2 | 5 | 8 => HAlignment::Center,
            3 | 6 | 9 => HAlignment::Right,
            _ => HAlignment::Left,
        }
    }

    /// The name of the alignment in the element format.
    pub fn as_str(&self) -> (s: &'static str)
        ensures
            s@ == self.name(),
    {
        match self {
            HAlignment::Left => "AlignLeft",
            HAlignment::Center => "AlignHCenter",
            HAlignment::Right => "AlignRight",
        }
    }
}

impl VAlignment {
    /// The alignment that a vertical justification code stands for:
    /// 0 (baseline) and 1 are bottom, 2 is middle, 3 is top. Every other
    /// code stands for top.
    pub open spec fn of_justification(code: i16) -> VAlignment {
        if code == 0 || code == 1 {
            VAlignment::Bottom
        } else if code == 2 {
            VAlignment::Middle
        } else {
            VAlignment::Top
        }
    }

    /// The alignment that an attachment point stands for: the row of the
    /// anchor. A code outside 1 to 9 stands for top.
    pub open spec fn of_attachment_point(code: i16) -> VAlignment {
        if 4 <= code <= 6 {
            VAlignment::Middle
        } else if 7 <= code <= 9 {
            VAlignment::Bottom
        } else {
            VAlignment::Top
        }
    }

    /// The name of the alignment in the element format.
    pub open spec fn name(self) -> Seq<char> {
        match self {
            VAlignment::Top => "AlignTop"@,
            VAlignment::Middle => "AlignVCenter"@,
            VAlignment::Bottom => "AlignBottom"@,
        }
    }

    /// Derives the alignment from a vertical justification code.
    pub fn from_justification(code: i16) -> (a: VAlignment)
        ensures
            a == VAlignment::of_justification(code),
    {
        match code {
            0 | 1 => VAlignment::Bottom,
            2 => VAlignment::Middle,
            _ => VAlignment::Top,
        }
    }

    /// Derives the alignment from the attachment point of a rich text.
    pub fn from_attachment_point(code: i16) -> (a: VAlignment)
        ensures
            a == VAlignment::of_attachment_point(code),
    {
        match code {
            4 | 5 | 6 => VAlignment::Middle,
            7 | 8 | 9 => VAlignment::Bottom,
            _ => VAlignment::Top,
        }
    }

    /// The name of the alignment in the element format.
    pub fn as_str(&self) -> (s: &'static str)
        ensures
            s@ == self.name(),
    {
        match self {
            VAlignment::Top => "AlignTop",
            VAlignment::Middle => "AlignVCenter",
            VAlignment::Bottom => "AlignBottom",
        }
    }
}

} // verus!
