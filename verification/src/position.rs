use vstd::prelude::*;

verus! {

/// The position of the popup content relative to the widget that triggers it.
#[derive(Debug, Clone, Copy, PartialEq, Eq, Structural)]
pub enum Position {
    /// The content will appear on the top of the widget.
    Top,
    /// The content will appear on the bottom of the widget.
    Bottom,
    /// The content will appear on the left of the widget.
    Left,
    /// The content will appear on the right of the widget.
    Right,
    /// The content will be centered over the widget.
    Center,
}

impl Default for Position {
    /// A popup opens on top of its widget unless told otherwise.
    fn default() -> (r: Self)
        ensures
            r == Position::Top,
    {
        Position::Top
    }
}

/// Where the content is placed along one axis, relative to the widget.
#[derive(Debug, Clone, Copy, PartialEq, Eq, Structural)]
pub enum Anchor {
    /// The content ends before the widget starts, separated by the gap
    /// and the padding (left of it, or above it).
    Before,
    /// The content is centered on the widget's center.
    Centered,
    /// The content starts after the widget ends, separated by the gap and
    /// the padding (right of it, or below it).
    After,
}

impl Position {
    /// The placement along the horizontal axis that this position asks for.
    pub open spec fn spec_horizontal(self) -> Anchor {
        match self {
            Position::Left => Anchor::Before,
            Position::Right => Anchor::After,
            _ => Anchor::Centered,
        }
    }

    /// The placement along the vertical axis that this position asks for.
    pub open spec fn spec_vertical(self) -> Anchor {
        match self {
            Position::Top => Anchor::Before,
            Position::Bottom => Anchor::After,
            _ => Anchor::Centered,
        }
    }

    /// Horizontal placement: left of the widget for `Left`, right of it for
    /// `Right`, centered on it otherwise.
    pub fn horizontal_anchor(self) -> (r: Anchor)
        ensures
            r == self.spec_horizontal(),
    {
        match self {
            Position::Left => Anchor::Before,
            Position::Right => Anchor::After,
            _ => Anchor::Centered,
        }
    }

    /// Vertical placement: above the widget for `Top`, below it for
    /// `Bottom`, centered on it otherwise.
    pub fn vertical_anchor(self) -> (r: Anchor)
        ensures
            r == self.spec_vertical(),
    {
        match self {
            Position::Top => Anchor::Before,
            Position::Bottom => Anchor::After,
            _ => Anchor::Centered,
        }
    }
}

/// Every position centers the content on the widget along at least one
/// axis; `Center` is the one position that centers it along both, and each
/// side position puts the content on that side of the widget.
pub proof fn lemma_positions_center_an_axis(p: Position)
    ensures
        p.spec_horizontal() == Anchor::Centered || p.spec_vertical() == Anchor::Centered,
        (p == Position::Center) <==> (p.spec_horizontal() == Anchor::Centered
            && p.spec_vertical() == Anchor::Centered),
        p == Position::Top ==> p.spec_vertical() == Anchor::Before,
        p == Position::Bottom ==> p.spec_vertical() == Anchor::After,
        p == Position::Left ==> p.spec_horizontal() == Anchor::Before,
        p == Position::Right ==> p.spec_horizontal() == Anchor::After,
{
}

} // verus!
