//! The flexible placement and resize algorithms.
//!
//! A flexible layout flows its elements like a block layout, but honors
//! absolute positioning, wraps only when its column flag is set, and records
//! every assigned position as the element's baseline. A separate resize pass
//! along a chosen axis then center-aligns the group, shrinks every relative
//! element on overflow, or grows every relative element to consume slack;
//! a revert pass restores every element's baseline geometry.
use vstd::prelude::*;

use crate::element::{Element, PositionStyle, Vector2};
use crate::flow;
use crate::flow::FlowConfig;
use crate::unit::SizeUnit;
use crate::{AlignmentX, Layout, LayoutType};

verus! {

/// The axis a resize pass works along.
#[derive(Clone, Copy, Debug, PartialEq, Eq, Structural)]
pub enum Direction {
    X,
    Y,
}

/// The component of a vector along an axis.
pub open spec fn spec_axis(v: Vector2, d: Direction) -> SizeUnit {
    if d == Direction::X {
        v.0
    } else {
        v.1
    }
}

/// The vector with its component along an axis replaced.
pub open spec fn spec_with_axis(v: Vector2, d: Direction, x: SizeUnit) -> Vector2 {
    if d == Direction::X {
        (x, v.1)
    } else {
        (v.0, x)
    }
}

/// Whether an element is excluded from flow placement and resizing.
pub open spec fn is_absolute(e: Element) -> bool {
    e.attrs.style == PositionStyle::Absolute
}

/// The component of a vector along an axis.
pub fn axis(v: Vector2, d: Direction) -> (r: SizeUnit)
    ensures
        r == spec_axis(v, d),
{
    if d == Direction::X {
        v.0
    } else {
        v.1
    }
}

/// The vector with its component along an axis replaced.
pub fn with_axis(v: Vector2, d: Direction, x: SizeUnit) -> (r: Vector2)
    ensures
        r == spec_with_axis(v, d, x),
{
    if d == Direction::X {
        (x, v.1)
    } else {
        (v.0, x)
    }
}

/// The flow configuration of a flexible layout: absolute elements honored,
/// wrapping only when the column flag is set, baseline positions recorded.
pub open spec fn flexible_config(l: Layout, basis: Vector2) -> FlowConfig {
    FlowConfig {
        container: l.size,
        offset: l.properties.offset,
        basis,
        honor_absolute: true,
        wrap: l.col,
        record_real: true,
    }
}

/// Where the middle element's axis position is moved by center alignment:
/// the container's center, backed off by the middle element's full extent
/// when the element count is even and by half of it when odd.
pub open spec fn center_target(l: Layout, d: Direction) -> SizeUnit {
    let s = l.inner@;
    let c = s[s.len() as int / 2];
    let half = spec_axis(l.size, d).spec_div(SizeUnit::Pixel(2));
    if s.len() % 2 == 0 {
        half.spec_sub(spec_axis(c.size, d))
    } else {
        half.spec_sub(spec_axis(c.size, d).spec_div(SizeUnit::Pixel(2)))
    }
}

/// One element after center alignment: moved as a rigid block with the
/// middle element, keeping its pre-move spacing `e - c` from it. Absolute
/// elements stand untouched.
pub open spec fn center_elem(e: Element, c: Element, target: SizeUnit, d: Direction) -> Element {
    if is_absolute(e) {
        e
    } else {
        let delta = spec_axis(e.position, d).spec_sub(spec_axis(c.position, d));
        Element { position: spec_with_axis(e.position, d, target.spec_add(delta)), ..e }
    }
}

/// The element sequence after the center-alignment phase.
pub open spec fn center_pass(l: Layout, d: Direction) -> Seq<Element> {
    let s = l.inner@;
    if l.properties.align_x != AlignmentX::Center || s.len() == 0 {
        s
    } else {
        let c = s[s.len() as int / 2];
        let t = center_target(l, d);
        Seq::new(s.len(), |i: int| center_elem(s[i], c, t, d))
    }
}

/// The number of relative (flow-participating) elements among the first `n`.
pub open spec fn count_relative(s: Seq<Element>, n: int) -> int
    decreases n,
{
    if n <= 0 {
        0
    } else {
        count_relative(s, n - 1) + if is_absolute(s[n - 1]) {
            0int
        } else {
            1int
        }
    }
}

/// The overflow measured so far, and whether a first overflowing element has
/// been seen.
pub struct OverflowAcc {
    pub total: SizeUnit,
    pub seen_first: bool,
}

/// Overflow measured over the first `n` elements: the first overflowing
/// relative element contributes only the portion actually outside the
/// boundary; every later one is entirely outside and contributes its full
/// extent plus the spacing.
pub open spec fn overflow_acc(
    s: Seq<Element>,
    d: Direction,
    off: SizeUnit,
    bound: SizeUnit,
    n: int,
) -> OverflowAcc
    decreases n,
{
    if n <= 0 {
        OverflowAcc { total: SizeUnit::Pixel(0), seen_first: false }
    } else {
        let acc = overflow_acc(s, d, off, bound, n - 1);
        let e = s[n - 1];
        if is_absolute(e) {
            acc
        } else {
            let sv = spec_axis(e.size, d);
            let pv = spec_axis(e.position, d);
            if pv.spec_add(sv).spec_add(off).as_int() > bound.as_int() {
                if !acc.seen_first {
                    OverflowAcc {
                        total: acc.total.spec_add(bound.spec_sub(sv.spec_add(pv)).spec_abs()),
                        seen_first: true,
                    }
                } else {
                    OverflowAcc { total: acc.total.spec_add(sv.spec_add(off)), seen_first: true }
                }
            } else {
                acc
            }
        }
    }
}

/// The positional correction factor of the element at index `i`: the first
/// two elements use 1, later ones their own index.
pub open spec fn index_factor(i: int) -> SizeUnit {
    SizeUnit::Pixel(
        if i > 1 {
            i as i64
        } else {
            1i64
        },
    )
}

/// One element after the shrink phase: its extent along the axis reduced by
/// `amount` (its sub-layout's container size follows), and, when its axis
/// position is nonzero, shifted toward the origin by `amount` times its
/// index factor. Absolute elements stand untouched.
pub open spec fn shrink_elem(e: Element, i: int, amount: SizeUnit, d: Direction) -> Element {
    if is_absolute(e) {
        e
    } else {
        let ns = spec_with_axis(e.size, d, spec_axis(e.size, d).spec_sub(amount));
        let e1 = Element { size: ns, sublayout: Layout { size: ns, ..e.sublayout }, ..e };
        let pv = spec_axis(e1.position, d);
        if pv.as_int() != 0 {
            let shift = amount.spec_mul(index_factor(i));
            Element { position: spec_with_axis(e1.position, d, pv.spec_sub(shift)), ..e1 }
        } else {
            e1
        }
    }
}

/// One element after the grow phase: the mirror of [`shrink_elem`] — extent
/// increased, shifted away from the origin.
pub open spec fn grow_elem(e: Element, i: int, amount: SizeUnit, d: Direction) -> Element {
    if is_absolute(e) {
        e
    } else {
        let ns = spec_with_axis(e.size, d, spec_axis(e.size, d).spec_add(amount));
        let e1 = Element { size: ns, sublayout: Layout { size: ns, ..e.sublayout }, ..e };
        let pv = spec_axis(e1.position, d);
        if pv.as_int() != 0 {
            let shift = amount.spec_mul(index_factor(i));
            Element { position: spec_with_axis(e1.position, d, pv.spec_add(shift)), ..e1 }
        } else {
            e1
        }
    }
}

/// The summed extents along the axis of the relative elements among the
/// first `n`.
pub open spec fn used_extent(s: Seq<Element>, d: Direction, n: int) -> SizeUnit
    decreases n,
{
    if n <= 0 {
        SizeUnit::Pixel(0)
    } else {
        let u = used_extent(s, d, n - 1);
        if is_absolute(s[n - 1]) {
            u
        } else {
            u.spec_add(spec_axis(s[n - 1].size, d))
        }
    }
}

/// The element sequence after a full resize pass along `d`: center
/// alignment (when configured), then shrink on overflow, then — when growth
/// is enabled and nothing overflowed — grow on slack. A layout with no
/// elements, or none in flow, is left unchanged.
pub open spec fn resize_spec(l: Layout, d: Direction) -> Seq<Element> {
    let s0 = l.inner@;
    if s0.len() == 0 {
        s0
    } else {
        let s1 = center_pass(l, d);
        let rc = count_relative(s1, s1.len() as int);
        if rc == 0 {
            s1
        } else {
            let bound = spec_axis(l.size, d);
            let off = l.properties.offset;
            let ov = overflow_acc(s1, d, off, bound, s1.len() as int).total;
            let amount = ov.spec_div(SizeUnit::Pixel(rc as i64));
            let s2 = Seq::new(s1.len(), |i: int| shrink_elem(s1[i], i, amount, d));
            if l.properties.flex_grow && ov.as_int() == 0 {
                let used = used_extent(s2, d, s2.len() as int);
                let grow = bound.spec_sub(used).spec_div(SizeUnit::Pixel(rc as i64));
                Seq::new(s2.len(), |i: int| grow_elem(s2[i], i, grow, d))
            } else {
                s2
            }
        }
    }
}

/// The element sequence after a revert pass: every element's geometry set
/// back to its recorded baseline.
pub open spec fn revert_spec(s: Seq<Element>) -> Seq<Element> {
    Seq::new(
        s.len(),
        |i: int| Element { size: s[i].real_size, position: s[i].real_position, ..s[i] },
    )
}

/// A resize pass changes only geometry: every element's recorded baseline,
/// its attributes, and the sequence's length stand.
pub proof fn lemma_resize_keeps_baseline_fields(l: Layout, d: Direction, i: int)
    requires
        0 <= i < l.inner@.len(),
    ensures
        resize_spec(l, d).len() == l.inner@.len(),
        resize_spec(l, d)[i].real_size == l.inner@[i].real_size,
        resize_spec(l, d)[i].real_position == l.inner@[i].real_position,
        resize_spec(l, d)[i].attrs == l.inner@[i].attrs,
{
}

/// Law: flexible flow placement leaves every element's geometry equal to
/// its recorded baseline — it records each position it assigns, and an
/// element it does not touch keeps the baseline it already had.
pub proof fn lemma_placement_establishes_baseline(l: Layout, basis: Vector2)
    requires
        crate::element::all_baseline(l.inner@),
    ensures
        crate::element::all_baseline(flow::flow_placed(flexible_config(l, basis), l.inner@)),
{
    flow::lemma_flow_baseline(flexible_config(l, basis), l.inner@, l.inner@.len() as int);
}

/// Law: a resize pass followed by a revert pass restores every element's
/// size and position to its baseline — the geometry the last flow placement
/// left it with — and the result is again at its baseline, so any number of
/// further resize/revert cycles change nothing.
pub proof fn lemma_revert_undoes_resize(l: Layout, d: Direction)
    requires
        crate::element::all_baseline(l.inner@),
    ensures
        revert_spec(resize_spec(l, d)).len() == l.inner@.len(),
        forall|i: int|
            0 <= i < l.inner@.len() ==> (#[trigger] revert_spec(resize_spec(l, d))[i]).size
                == l.inner@[i].size,
        forall|i: int|
            0 <= i < l.inner@.len() ==> (#[trigger] revert_spec(resize_spec(l, d))[i]).position
                == l.inner@[i].position,
        crate::element::all_baseline(revert_spec(resize_spec(l, d))),
{
    let rs = resize_spec(l, d);
    let r = revert_spec(rs);
    assert forall|i: int| 0 <= i < l.inner@.len() implies ((#[trigger] r[i]).size
        == l.inner@[i].size && r[i].position == l.inner@[i].position && r[i].size
        == r[i].real_size && r[i].position == r[i].real_position) by {
        lemma_resize_keeps_baseline_fields(l, d, i);
    }
}

/// Law: an element marked `Absolute` in a flexible layout is never moved or
/// resized — not by flow placement, and not by any phase of a resize pass
/// (center alignment, shrink, or grow).
pub proof fn lemma_absolute_exclusion(l: Layout, d: Direction, basis: Vector2, i: int)
    requires
        0 <= i < l.inner@.len(),
        is_absolute(l.inner@[i]),
    ensures
        flow::flow_placed(flexible_config(l, basis), l.inner@)[i] == l.inner@[i],
        resize_spec(l, d)[i] == l.inner@[i],
{
    flow::lemma_flow_skips_absolute(
        flexible_config(l, basis),
        l.inner@,
        l.inner@.len() as int,
        i,
    );
}

impl Layout {
    /// Assign flow positions to the elements, as [`flexible_config`] and
    /// [`flow::flow_pass`] describe: absolute elements untouched, wrapping
    /// only in column mode, every assigned position recorded as the
    /// element's baseline.
    pub(crate) fn recalculate_as_flexible(&mut self, basis: Vector2)
        ensures
            final(self).inner@ == flow::flow_placed(
                flexible_config(*old(self), basis),
                old(self).inner@,
            ),
            final(self).variant == old(self).variant,
            final(self).size == old(self).size,
            final(self).col == old(self).col,
            final(self).properties == old(self).properties,
    {
        let cfg = FlowConfig {
            container: self.size,
            offset: self.properties.offset,
            basis,
            honor_absolute: true,
            wrap: self.col,
            record_real: true,
        };
        flow::flow_place(&mut self.inner, cfg);
    }

    /// Perform element resize calculations along the given axis, as
    /// [`resize_spec`] describes.
    ///
    /// `amount to shrink each element = overflow amount / number of relative
    /// elements`, and likewise for growth on slack. A layout with no
    /// elements, or with none participating in flow, is left unchanged:
    /// the per-element share would otherwise divide by zero.
    pub fn resize_flexible(&mut self, direction: Direction)
        requires
            old(self).variant == LayoutType::Flexible,
            old(self).inner@.len() <= i64::MAX,
        ensures
            final(self).inner@ == resize_spec(*old(self), direction),
            final(self).variant == old(self).variant,
            final(self).size == old(self).size,
            final(self).col == old(self).col,
            final(self).properties == old(self).properties,
    {
        let ghost l0 = *old(self);
        let ghost s0 = l0.inner@;
        let n = self.inner.len();
        if n == 0 {
            return ;
        }
        let ghost s1 = center_pass(l0, direction);

        // Center alignment.
        if self.properties.align_x == AlignmentX::Center {
            let ci = n / 2;
            let c_pos = axis(self.inner[ci].position, direction);
            let half = axis(self.size, direction).div(SizeUnit::of(2));
            let target = if n % 2 == 0 {
                half.sub(axis(self.inner[ci].size, direction))
            } else {
                half.sub(axis(self.inner[ci].size, direction).div(SizeUnit::of(2)))
            };
            assert(target == center_target(l0, direction));
            for i in 0..n
                invariant
                    n == self.inner@.len(),
                    n == s0.len(),
                    self.variant == l0.variant,
                    self.size == l0.size,
                    self.col == l0.col,
                    self.properties == l0.properties,
                    l0.properties.align_x == AlignmentX::Center,
                    s0 == l0.inner@,
                    s1 == center_pass(l0, direction),
                    target == center_target(l0, direction),
                    c_pos == spec_axis(s0[s0.len() as int / 2].position, direction),
                    forall|j: int| 0 <= j < i ==> self.inner@[j] == s1[j],
                    forall|j: int| i <= j < n ==> self.inner@[j] == s0[j],
            {
                let style = self.inner[i].attrs.style;
                if style != PositionStyle::Absolute {
                    let pv = axis(self.inner[i].position, direction);
                    let np = with_axis(self.inner[i].position, direction, target.add(pv.sub(c_pos)));
                    let e = &mut self.inner[i];
                    e.position = np;
                }
            }
            proof {
                assert(self.inner@ =~= s1);
            }
        }
        assert(self.inner@ == s1);

        // Count the elements participating in flow.
        let mut rc: usize = 0;
        for i in 0..n
            invariant
                n == self.inner@.len(),
                n == s1.len(),
                rc <= i,
                rc == count_relative(s1, i as int),
                self.variant == l0.variant,
                self.size == l0.size,
                self.col == l0.col,
                self.properties == l0.properties,
                self.inner@ == s1,
        {
            if self.inner[i].attrs.style != PositionStyle::Absolute {
                rc = rc + 1;
            }
        }
        if rc == 0 {
            return ;
        }

        // Measure the overflow past the container's extent.
        let boundary = axis(self.size, direction);
        let off = self.properties.offset;
        let mut ov = SizeUnit::of(0);
        let mut seen_first = false;
        for i in 0..n
            invariant
                n == self.inner@.len(),
                n == s1.len(),
                n <= i64::MAX,
                0 < rc <= n,
                rc == count_relative(s1, n as int),
                boundary == spec_axis(l0.size, direction),
                off == l0.properties.offset,
                ov == overflow_acc(s1, direction, off, boundary, i as int).total,
                seen_first == overflow_acc(s1, direction, off, boundary, i as int).seen_first,
                self.variant == l0.variant,
                self.size == l0.size,
                self.col == l0.col,
                self.properties == l0.properties,
                self.inner@ == s1,
        {
            if self.inner[i].attrs.style != PositionStyle::Absolute {
                let sv = axis(self.inner[i].size, direction);
                let pv = axis(self.inner[i].position, direction);
                if pv.add(sv).add(off).gt(boundary) {
                    if !seen_first {
                        ov = ov.add(boundary.sub(sv.add(pv)).abs());
                        seen_first = true;
                    } else {
                        ov = ov.add(sv.add(off));
                    }
                }
            }
        }

        // Shrink every relative element by an even share of the overflow.
        let amount = ov.div(SizeUnit::of(rc as i64));
        let ghost s2 = Seq::new(s1.len(), |i: int| shrink_elem(s1[i], i, amount, direction));
        for i in 0..n
            invariant
                n == self.inner@.len(),
                n == s1.len(),
                n <= i64::MAX,
                (s2 == Seq::new(s1.len(), |j: int| shrink_elem(s1[j], j, amount, direction))),
                forall|j: int| 0 <= j < i ==> self.inner@[j] == s2[j],
                forall|j: int| i <= j < n ==> self.inner@[j] == s1[j],
                self.variant == l0.variant,
                self.size == l0.size,
                self.col == l0.col,
                self.properties == l0.properties,
        {
            if self.inner[i].attrs.style != PositionStyle::Absolute {
                let factor = if i > 1 {
                    SizeUnit::of(i as i64)
                } else {
                    SizeUnit::of(1)
                };
                let e = &mut self.inner[i];
                let ns = with_axis(e.size, direction, axis(e.size, direction).sub(amount));
                e.size = ns;
                e.sublayout.size = ns;
                let pv = axis(e.position, direction);
                if !pv.is_zero() {
                    let np = with_axis(e.position, direction, pv.sub(amount.mul(factor)));
                    e.position = np;
                }
            }
        }
        proof {
            assert(self.inner@ =~= s2);
        }

        // Grow every relative element by an even share of the slack, when
        // enabled and nothing overflowed.
        if self.properties.flex_grow && ov.is_zero() {
            let mut used = SizeUnit::of(0);
            for i in 0..n
                invariant
                    n == self.inner@.len(),
                    n == s2.len(),
                    n <= i64::MAX,
                    0 < rc <= n,
                    used == used_extent(s2, direction, i as int),
                    self.variant == l0.variant,
                    self.size == l0.size,
                    self.col == l0.col,
                    self.properties == l0.properties,
                    self.inner@ == s2,
            {
                if self.inner[i].attrs.style != PositionStyle::Absolute {
                    used = used.add(axis(self.inner[i].size, direction));
                }
            }
            let grow = boundary.sub(used).div(SizeUnit::of(rc as i64));
            let ghost s3 = Seq::new(s2.len(), |i: int| grow_elem(s2[i], i, grow, direction));
            for i in 0..n
                invariant
                    n == self.inner@.len(),
                    n == s2.len(),
                    n <= i64::MAX,
                    (s3 == Seq::new(s2.len(), |j: int| grow_elem(s2[j], j, grow, direction))),
                    forall|j: int| 0 <= j < i ==> self.inner@[j] == s3[j],
                    forall|j: int| i <= j < n ==> self.inner@[j] == s2[j],
                    self.variant == l0.variant,
                    self.size == l0.size,
                    self.col == l0.col,
                    self.properties == l0.properties,
            {
                if self.inner[i].attrs.style != PositionStyle::Absolute {
                    let factor = if i > 1 {
                        SizeUnit::of(i as i64)
                    } else {
                        SizeUnit::of(1)
                    };
                    let e = &mut self.inner[i];
                    let ns = with_axis(e.size, direction, axis(e.size, direction).add(grow));
                    e.size = ns;
                    e.sublayout.size = ns;
                    let pv = axis(e.position, direction);
                    if !pv.is_zero() {
                        let np = with_axis(e.position, direction, pv.add(grow.mul(factor)));
                        e.position = np;
                    }
                }
            }
            proof {
                assert(self.inner@ =~= s3);
            }
        }
    }

    /// Undo resizing in a flexible layout: every element's size and position
    /// are set back to its recorded baseline. Should be done before adding
    /// more elements to the layout; after all elements are added,
    /// [`Self::resize_flexible`] should be run again.
    pub fn revert_flexible(&mut self)
        requires
            old(self).variant == LayoutType::Flexible,
        ensures
            final(self).inner@ == revert_spec(old(self).inner@),
            final(self).variant == old(self).variant,
            final(self).size == old(self).size,
            final(self).col == old(self).col,
            final(self).properties == old(self).properties,
    {
        let ghost s0 = self.inner@;
        let n = self.inner.len();
        for i in 0..n
            invariant
                n == self.inner@.len(),
                n == s0.len(),
                forall|j: int| 0 <= j < i ==> self.inner@[j] == revert_spec(s0)[j],
                forall|j: int| i <= j < n ==> self.inner@[j] == s0[j],
                self.variant == old(self).variant,
                self.size == old(self).size,
                self.col == old(self).col,
                self.properties == old(self).properties,
        {
            let e = &mut self.inner[i];
            e.size = e.real_size;
            e.position = e.real_position;
        }
        proof {
            assert(self.inner@ =~= revert_spec(s0));
        }
    }
}

} // verus!
