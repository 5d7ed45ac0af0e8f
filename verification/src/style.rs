//! The GUI engine's global style block, modelled as a value.
//!
//! The engine keeps one style struct of colors and metrics. [`StylePtr`]
//! holds the slice of it the integration reads and writes; [`Style`] hands
//! it out read-only, as during a frame, when the style must not change, and
//! [`StyleMut`] read-write, as between frames.

use vstd::prelude::*;
use crate::geom::Vector2;

verus! {

/// How many style colors the engine keeps.
pub const COLOR_COUNT: usize = 21;

/// A style color, by channel.
#[derive(Clone, Copy, Debug, PartialEq, Eq, Structural)]
pub struct Color {
    pub r: u8,
    pub g: u8,
    pub b: u8,
    pub a: u8,
}

/// Which style color to read or write.
#[derive(Clone, Copy, Debug, PartialEq, Eq, Structural)]
pub enum ColorId {
    Text,
    TextDisabled,
    WindowBg,
    ChildBg,
    PopupBg,
    Border,
    BorderShadow,
    FrameBg,
    FrameBgHovered,
    FrameBgActive,
    TitleBg,
    TitleBgActive,
    TitleBgCollapsed,
    MenuBarBg,
    ScrollbarBg,
    CheckMark,
    SliderGrab,
    Button,
    ButtonHovered,
    ButtonActive,
    Header,
}

impl ColorId {
    /// The color's slot in the engine's color table.
    pub open spec fn index_spec(self) -> int {
        match self {
            ColorId::Text => 0,
            ColorId::TextDisabled => 1,
            ColorId::WindowBg => 2,
            ColorId::ChildBg => 3,
            ColorId::PopupBg => 4,
            ColorId::Border => 5,
            ColorId::BorderShadow => 6,
            ColorId::FrameBg => 7,
            ColorId::FrameBgHovered => 8,
            ColorId::FrameBgActive => 9,
            ColorId::TitleBg => 10,
            ColorId::TitleBgActive => 11,
            ColorId::TitleBgCollapsed => 12,
            ColorId::MenuBarBg => 13,
            ColorId::ScrollbarBg => 14,
            ColorId::CheckMark => 15,
            ColorId::SliderGrab => 16,
            ColorId::Button => 17,
            ColorId::ButtonHovered => 18,
            ColorId::ButtonActive => 19,
            ColorId::Header => 20,
        }
    }

    pub fn index(self) -> (r: usize)
        ensures
            r == self.index_spec(),
            r < COLOR_COUNT,
    {
        match self {
            ColorId::Text => 0,
            ColorId::TextDisabled => 1,
            ColorId::WindowBg => 2,
            ColorId::ChildBg => 3,
            ColorId::PopupBg => 4,
            ColorId::Border => 5,
            ColorId::BorderShadow => 6,
            ColorId::FrameBg => 7,
            ColorId::FrameBgHovered => 8,
            ColorId::FrameBgActive => 9,
            ColorId::TitleBg => 10,
            ColorId::TitleBgActive => 11,
            ColorId::TitleBgCollapsed => 12,
            ColorId::MenuBarBg => 13,
            ColorId::ScrollbarBg => 14,
            ColorId::CheckMark => 15,
            ColorId::SliderGrab => 16,
            ColorId::Button => 17,
            ColorId::ButtonHovered => 18,
            ColorId::ButtonActive => 19,
            ColorId::Header => 20,
        }
    }
}

/// The style block: one color per [`ColorId`] slot, and the spacing
/// metrics the integration reads.
#[derive(Clone, Debug, PartialEq, Eq)]
pub struct StylePtr {
    pub colors: Vec<Color>,
    pub frame_padding: Vector2,
    pub item_spacing: Vector2,
    pub item_inner_spacing: Vector2,
}

impl StylePtr {
    /// The color table holds exactly one color per slot.
    pub open spec fn wf(&self) -> bool {
        self.colors@.len() == COLOR_COUNT
    }

    /// A style block with every color and metric zeroed, as before the
    /// engine or the application has set anything.
    pub fn new() -> (r: StylePtr)
        ensures
            r.wf(),
            forall|i: int| 0 <= i < COLOR_COUNT ==> r.colors@[i] == (Color { r: 0, g: 0, b: 0, a: 0 }),
            r.frame_padding == (Vector2 { x: 0, y: 0 }),
            r.item_spacing == (Vector2 { x: 0, y: 0 }),
            r.item_inner_spacing == (Vector2 { x: 0, y: 0 }),
    {
        let mut colors: Vec<Color> = Vec::new();
        let mut i: usize = 0;
        while i < COLOR_COUNT
            invariant
                i <= COLOR_COUNT,
                colors@.len() == i,
                forall|j: int| 0 <= j < i ==> colors@[j] == (Color { r: 0, g: 0, b: 0, a: 0 }),
            decreases COLOR_COUNT - i,
        {
            colors.push(Color { r: 0, g: 0, b: 0, a: 0 });
            i = i + 1;
        }
        StylePtr {
            colors,
            frame_padding: Vector2 { x: 0, y: 0 },
            item_spacing: Vector2 { x: 0, y: 0 },
            item_inner_spacing: Vector2 { x: 0, y: 0 },
        }
    }

    /// Reads one color of the table.
    pub fn color(&self, id: ColorId) -> (r: Color)
        requires
            self.wf(),
        ensures
            r == self.colors@[id.index_spec()],
    {
        self.colors[id.index()]
    }

    /// Writes one color of the table, leaving everything else as it was.
    pub fn set_color(&mut self, id: ColorId, color: Color)
        requires
            old(self).wf(),
        ensures
            final(self).wf(),
            final(self).colors@ == old(self).colors@.update(id.index_spec(), color),
            final(self).frame_padding == old(self).frame_padding,
            final(self).item_spacing == old(self).item_spacing,
            final(self).item_inner_spacing == old(self).item_inner_spacing,
    {
        let i = id.index();
        self.colors[i] = color;
    }

    /// The padding within a framed widget.
    pub fn frame_padding(&self) -> (r: Vector2)
        ensures
            r == self.frame_padding,
    {
        self.frame_padding
    }

    /// The spacing between two items.
    pub fn item_spacing(&self) -> (r: Vector2)
        ensures
            r == self.item_spacing,
    {
        self.item_spacing
    }

    /// The spacing within a composed item, as between a widget and its
    /// label.
    pub fn item_inner_spacing(&self) -> (r: Vector2)
        ensures
            r == self.item_inner_spacing,
    {
        self.item_inner_spacing
    }
}

/// Read-only access to a style block, as during a frame.
#[derive(Clone, Debug, PartialEq, Eq)]
pub struct Style(pub StylePtr);

impl Style {
    pub fn new(ptr: StylePtr) -> (r: Style)
        ensures
            r.0 == ptr,
    {
        Style(ptr)
    }

    /// Borrows the style block for reading.
    pub fn get(&self) -> (r: &StylePtr)
        ensures
            *r == self.0,
    {
        &self.0
    }
}

/// Read-write access to a style block, as between frames: the style must
/// not change while a frame is being built.
#[derive(Clone, Debug, PartialEq, Eq)]
pub struct StyleMut(pub StylePtr);

impl StyleMut {
    pub fn new(ptr: StylePtr) -> (r: StyleMut)
        ensures
            r.0 == ptr,
    {
        StyleMut(ptr)
    }

    /// Borrows the style block for reading.
    pub fn get(&self) -> (r: &StylePtr)
        ensures
            *r == self.0,
    {
        &self.0
    }

    /// Borrows the style block for writing.
    pub fn get_mut(&mut self) -> (r: &mut StylePtr)
        ensures
            *r == old(self).0,
            final(self).0 == *final(r),
    {
        &mut self.0
    }
}

} // verus!
