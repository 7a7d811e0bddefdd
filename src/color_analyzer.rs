//! State of the color analyzer panel.
use vstd::prelude::*;
use crate::color::Color;

verus! {

/// The panel is open; `picking_color` says whether a click on the image picks
/// the color under the pointer.
#[derive(Clone, Copy, Debug, PartialEq, Eq, Structural)]
pub struct ColorAnalyzerOpenState {
    pub picking_color: bool,
}

/// The color analyzer: closed, or open with or without color picking, and
/// the color being looked at.
pub struct ColorAnalyzer {
    pub open: Option<ColorAnalyzerOpenState>,
    color: Color,
}

impl ColorAnalyzer {
    pub closed spec fn open_spec(&self) -> Option<ColorAnalyzerOpenState> {
        self.open
    }

    pub closed spec fn color_spec(&self) -> Color {
        self.color
    }

    /// A closed analyzer looking at transparent black.
    pub fn new() -> (r: ColorAnalyzer)
        ensures
            r.open_spec() == None::<ColorAnalyzerOpenState>,
            r.color_spec() == (Color { r: 0, g: 0, b: 0, a: 0 }),
    {
        ColorAnalyzer { open: None, color: Color { r: 0, g: 0, b: 0, a: 0 } }
    }

    /// Closes an open analyzer; opens a closed one without color picking.
    pub fn toggle(&mut self)
        ensures
            old(self).open_spec() is Some ==> final(self).open_spec() == None::<ColorAnalyzerOpenState>,
            old(self).open_spec() is None ==> final(self).open_spec() == Some(
                ColorAnalyzerOpenState { picking_color: false },
            ),
            final(self).color_spec() == old(self).color_spec(),
    {
        if self.is_open() {
            self.open = None;
        } else {
            self.open = Some(ColorAnalyzerOpenState { picking_color: false });
        }
    }

    /// Switches color picking on or off; opens a closed analyzer with color
    /// picking on.
    pub fn toggle_color_picker(&mut self)
        ensures
            final(self).open_spec() == (match old(self).open_spec() {
                Some(s) => Some(ColorAnalyzerOpenState { picking_color: !s.picking_color }),
                None => Some(ColorAnalyzerOpenState { picking_color: true }),
            }),
            final(self).color_spec() == old(self).color_spec(),
    {
        match self.open {
            Some(s) => {
                self.open = Some(ColorAnalyzerOpenState { picking_color: !s.picking_color });
            },
            None => {
                self.open = Some(ColorAnalyzerOpenState { picking_color: true });
            },
        }
    }

    pub fn is_open(&self) -> (r: bool)
        ensures
            r == self.open_spec() is Some,
    {
        self.open.is_some()
    }

    pub fn is_picking_color(&self) -> (r: bool)
        ensures
            r == (match self.open_spec() {
                Some(s) => s.picking_color,
                None => false,
            }),
    {
        match self.open {
            Some(s) => s.picking_color,
            None => false,
        }
    }

    pub fn set_color(&mut self, color: Color)
        ensures
            final(self).color_spec() == color,
            final(self).open_spec() == old(self).open_spec(),
    {
        self.color = color;
    }

    pub fn color(&self) -> (r: Color)
        ensures
            r == self.color_spec(),
    {
        self.color
    }
}

} // verus!
