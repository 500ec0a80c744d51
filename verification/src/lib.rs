//! A minimal box-model layout engine: a container holds an ordered sequence
//! of boxes (elements), and two placement algorithms decide where each box
//! sits — a fixed-size row-wrapping flow (block) and a size-adjusting flow
//! with shrink, grow and center alignment (flexible).
//!
//! All geometry is measured in [`unit::SizeUnit`], an integer pixel count
//! with saturating arithmetic, so every operation of the engine is total.
use vstd::prelude::*;

pub mod block;
pub mod element;
pub mod flexible;
pub mod flow;
pub mod unit;

use element::{Element, Vector2};
use unit::SizeUnit;

verus! {

/// The placement algorithm a layout uses.
#[derive(Clone, Copy, Debug, PartialEq, Eq, Structural)]
pub enum LayoutType {
    /// A layout which attempts to resize elements to fit.
    Flexible,
    /// A layout which preserves element size and skips to the next row on
    /// overflow.
    Block,
}

/// The horizontal alignment of elements in flexible layouts.
#[derive(Clone, Copy, Debug, PartialEq, Eq, Structural)]
pub enum AlignmentX {
    Left,
    Center,
}

impl Default for AlignmentX {
    fn default() -> (r: Self)
        ensures
            r == AlignmentX::Left,
    {
        AlignmentX::Left
    }
}

/// Layout configuration.
#[derive(Clone, Copy, Debug, PartialEq, Eq, Structural)]
pub struct LayoutProperties {
    /// The spacing between each element.
    pub offset: SizeUnit,
    /// The horizontal alignment of elements in flexible layouts.
    pub align_x: AlignmentX,
    /// If elements in a flexible container automatically grow to fill the
    /// container.
    pub flex_grow: bool,
}

impl LayoutProperties {
    /// The configuration a fresh layout starts with.
    pub open spec fn spec_default() -> LayoutProperties {
        LayoutProperties {
            offset: SizeUnit::Pixel(0),
            align_x: AlignmentX::Left,
            flex_grow: true,
        }
    }
}

impl Default for LayoutProperties {
    fn default() -> (r: Self)
        ensures
            r == LayoutProperties::spec_default(),
    {
        LayoutProperties {
            offset: SizeUnit::Pixel(0),
            align_x: AlignmentX::Left,
            flex_grow: true,
        }
    }
}

/// An ordered collection of elements plus the configuration that decides
/// how they are placed.
#[derive(Debug)]
pub struct Layout {
    /// The elements contained within the layout.
    pub inner: Vec<Element>,
    /// The variant of layout this is.
    pub variant: LayoutType,
    /// The size of the containing element.
    pub size: Vector2,
    /// If the flexible layout should wrap elements instead of shrinking.
    /// This essentially creates a column layout.
    pub col: bool,
    /// Layout configuration.
    pub properties: LayoutProperties,
}

impl Layout {
    /// Create a new [`Layout`] with no elements.
    pub fn new(variant: LayoutType, size: Vector2) -> (r: Self)
        ensures
            r.inner@ =~= Seq::<Element>::empty(),
            r.variant == variant,
            r.size == size,
            r.col == false,
            r.properties == LayoutProperties::spec_default(),
    {
        Layout {
            inner: Vec::new(),
            variant,
            size,
            col: false,
            properties: LayoutProperties::default(),
        }
    }

    /// What a full recompute makes of the element sequence `s`, under this
    /// layout's configuration: flexible flow placement for a flexible
    /// layout, block row-wrapping placement otherwise.
    pub open spec fn spec_recalculated(self, s: Seq<Element>) -> Seq<Element> {
        if self.variant == LayoutType::Flexible {
            flow::flow_placed(flexible::flexible_config(self, flow::zero2()), s)
        } else {
            flow::flow_placed(block::block_config(self), s)
        }
    }

    /// Recalculate element positions using the correct algorithm for the
    /// layout type.
    pub fn recalculate(&mut self)
        ensures
            final(self).inner@ == old(self).spec_recalculated(old(self).inner@),
            final(self).variant == old(self).variant,
            final(self).size == old(self).size,
            final(self).col == old(self).col,
            final(self).properties == old(self).properties,
    {
        match self.variant {
            LayoutType::Flexible => self.recalculate_as_flexible(
                (SizeUnit::of(0), SizeUnit::of(0)),
            ),
            LayoutType::Block => self.recalculate_as_block(),
        }
    }

    /// Append an element to the layout, then recalculate every element's
    /// position.
    ///
    /// Returns the number of elements the layout holds after the insertion
    /// (the child count, not a 0-based index of the new element).
    pub fn add(&mut self, element: Element) -> (r: usize)
        ensures
            final(self).inner@ == old(self).spec_recalculated(old(self).inner@.push(element)),
            r == old(self).inner@.len() as int + 1,
            r == final(self).inner@.len(),
            final(self).variant == old(self).variant,
            final(self).size == old(self).size,
            final(self).col == old(self).col,
            final(self).properties == old(self).properties,
    {
        self.inner.push(element);
        self.recalculate();
        proof {
            if old(self).variant == LayoutType::Flexible {
                flow::lemma_flow_len(
                    flexible::flexible_config(*old(self), flow::zero2()),
                    old(self).inner@.push(element),
                    old(self).inner@.len() as int + 1,
                );
            } else {
                flow::lemma_flow_len(
                    block::block_config(*old(self)),
                    old(self).inner@.push(element),
                    old(self).inner@.len() as int + 1,
                );
            }
        }
        self.inner.len()
    }

    /// Remove the element at the given position, then recalculate every
    /// remaining element's position. Later elements are renumbered.
    pub fn remove(&mut self, idx: usize)
        requires
            idx < old(self).inner@.len(),
        ensures
            final(self).inner@ == old(self).spec_recalculated(
                old(self).inner@.remove(idx as int),
            ),
            final(self).variant == old(self).variant,
            final(self).size == old(self).size,
            final(self).col == old(self).col,
            final(self).properties == old(self).properties,
    {
        self.inner.remove(idx);
        self.recalculate();
    }
}

} // verus!
