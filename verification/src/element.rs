//! A single node of a layout tree: its geometry, the snapshot of that
//! geometry taken at flow placement, its positioning attributes, and the
//! sub-layout it owns.
use vstd::prelude::*;

use crate::unit::SizeUnit;
use crate::{Layout, LayoutType};

verus! {

/// A 2D vector: (width, height) for sizes, (x, y) for positions.
pub type Vector2 = (SizeUnit, SizeUnit);

/// The way an element is positioned.
#[derive(Clone, Copy, Debug, PartialEq, Eq, Structural)]
pub enum PositionStyle {
    /// Relative to the other elements within its container.
    Relative,
    /// Excluded from flow placement and resizing; position and size values
    /// are caller-assigned and never touched.
    Absolute,
}

impl Default for PositionStyle {
    fn default() -> (r: Self)
        ensures
            r == PositionStyle::Relative,
    {
        PositionStyle::Relative
    }
}

/// Attributes which change the behavior of an [`Element`] in layouts.
#[derive(Clone, Copy, Debug, PartialEq, Eq, Structural)]
pub struct ElementAttributes {
    /// The type of positioning the element follows.
    pub style: PositionStyle,
}

impl Default for ElementAttributes {
    fn default() -> (r: Self)
        ensures
            r == (ElementAttributes { style: PositionStyle::Relative }),
    {
        ElementAttributes { style: PositionStyle::Relative }
    }
}

/// Whether every element's geometry equals its recorded baseline, as it
/// does right after flow placement: a resize pass then starts from the
/// baseline, and a revert pass restores it exactly.
pub open spec fn all_baseline(s: Seq<Element>) -> bool {
    forall|i: int|
        0 <= i < s.len() ==> ((#[trigger] s[i]).size == s[i].real_size && s[i].position
            == s[i].real_position)
}

/// An element is a single node in a layout.
#[derive(Debug)]
pub struct Element {
    /// The size of the element.
    pub size: Vector2,
    /// The position of the element.
    pub position: Vector2,
    /// The baseline size: what the size was before any shrink or grow pass.
    pub real_size: Vector2,
    /// The baseline position: what flow placement last assigned.
    pub real_position: Vector2,
    /// Attributes which change the behavior of the element in layouts.
    pub attrs: ElementAttributes,
    /// The sub-layout of the element.
    pub sublayout: Layout,
}

impl Element {
    /// Create a new [`Element`]. Its baseline geometry starts equal to its
    /// geometry, and its sub-layout is empty with the given variant.
    pub fn new(size: Vector2, position: Vector2, display: LayoutType) -> (r: Element)
        ensures
            r.size == size,
            r.position == position,
            r.real_size == size,
            r.real_position == position,
            r.attrs == (ElementAttributes { style: PositionStyle::Relative }),
            r.sublayout.inner@ =~= Seq::<Element>::empty(),
            r.sublayout.variant == display,
            r.sublayout.size == size,
            r.sublayout.col == false,
            r.sublayout.properties == crate::LayoutProperties::spec_default(),
    {
        Element {
            size,
            position,
            real_size: size,
            real_position: position,
            attrs: ElementAttributes::default(),
            sublayout: Layout::new(display, size),
        }
    }

    /// Move the element.
    pub fn goto(&mut self, to: Vector2)
        ensures
            *final(self) == (Element { position: to, ..*old(self) }),
    {
        self.position = to;
    }

    /// Change the size of the element; its sub-layout's container size
    /// follows.
    pub fn resize(&mut self, to: Vector2)
        ensures
            *final(self) == (Element {
                size: to,
                sublayout: Layout { size: to, ..old(self).sublayout },
                ..*old(self)
            }),
    {
        self.size = to;
        self.sublayout.size = self.size;
    }
}

} // verus!
