//! Sequential row-flow placement, shared by the block and the flexible
//! algorithms.
//!
//! Elements are walked in order. The first placed element keeps its position
//! and defines the row origin; each later element is placed after its
//! predecessor, and, when wrapping is enabled and the element would overflow
//! the container's width, it starts a new row instead: at x = 0, below the
//! tallest element recorded for the current row.
use vstd::prelude::*;

use crate::element::{Element, PositionStyle, Vector2};
use crate::unit::SizeUnit;

verus! {

/// Everything the placement walk reads from a layout's configuration.
#[derive(Clone, Copy, Debug)]
pub struct FlowConfig {
    /// The size of the containing element; its width bounds a row.
    pub container: Vector2,
    /// The spacing between each element.
    pub offset: SizeUnit,
    /// Added to every computed flow position.
    pub basis: Vector2,
    /// Whether elements positioned `Absolute` are left untouched
    /// (the flexible algorithm) or placed like any other (the block
    /// algorithm, which does not consult positioning at all).
    pub honor_absolute: bool,
    /// Whether overflowing elements wrap to a new row.
    pub wrap: bool,
    /// Whether a placed element's baseline position is set to its new
    /// position (the flexible algorithm records it so a resize pass can be
    /// undone).
    pub record_real: bool,
}

/// The origin both axes start from.
pub open spec fn zero2() -> Vector2 {
    (SizeUnit::Pixel(0), SizeUnit::Pixel(0))
}

/// An element moved to `to`, with its baseline position recorded when the
/// configuration asks for it.
pub open spec fn placed(e: Element, to: Vector2, record_real: bool) -> Element {
    Element {
        position: to,
        real_position: if record_real {
            to
        } else {
            e.real_position
        },
        ..e
    }
}

/// The state of the placement walk: the element sequence so far, the last
/// placed element's geometry, the current row's first element's geometry,
/// and the tallest height recorded for the current row.
pub struct FlowState {
    pub elems: Seq<Element>,
    /// Whether any element has been placed yet.
    pub placed: bool,
    pub prev_pos: Vector2,
    pub prev_size: Vector2,
    /// Whether any row wrap has happened yet.
    pub wrapped: bool,
    pub row_first_pos: Vector2,
    pub row_first_size: Vector2,
    pub tallest: SizeUnit,
    /// The index at which the current row began.
    pub row_start: int,
}

/// The state before any element is processed.
pub open spec fn flow_init(s0: Seq<Element>) -> FlowState {
    FlowState {
        elems: s0,
        placed: false,
        prev_pos: zero2(),
        prev_size: zero2(),
        wrapped: false,
        row_first_pos: zero2(),
        row_first_size: zero2(),
        tallest: SizeUnit::Pixel(0),
        row_start: 0,
    }
}

/// One step of the walk: process the element at index `i`.
pub open spec fn flow_step(cfg: FlowConfig, st: FlowState, i: int) -> FlowState {
    let e = st.elems[i];
    if cfg.honor_absolute && e.attrs.style == PositionStyle::Absolute {
        st
    } else if !st.placed {
        // The first placed element keeps its position: it defines the row
        // origin. It does not contribute to the recorded row height.
        FlowState {
            placed: true,
            prev_pos: e.position,
            prev_size: e.size,
            row_start: i,
            ..st
        }
    } else {
        let nx = cfg.basis.0.spec_add(st.prev_pos.0).spec_add(st.prev_size.0).spec_add(
            cfg.offset,
        );
        let ny = cfg.basis.1.spec_add(st.prev_pos.1);
        let over = nx.spec_add(e.size.0).spec_add(cfg.offset).as_int()
            > cfg.container.0.as_int();
        if over && cfg.wrap {
            let rf_pos = if st.wrapped {
                st.row_first_pos
            } else {
                st.elems[0].position
            };
            let rf_size = if st.wrapped {
                st.row_first_size
            } else {
                st.elems[0].size
            };
            // If nothing has been recorded as tallest yet, fall back to the
            // row's first element's own height.
            let t0 = if st.tallest.as_int() == 0 {
                rf_size.1
            } else {
                st.tallest
            };
            let wy = t0.spec_add(rf_pos.1).spec_add(cfg.offset);
            let np = (SizeUnit::Pixel(0), wy);
            let e2 = placed(e, np, cfg.record_real);
            FlowState {
                elems: st.elems.update(i, e2),
                placed: true,
                prev_pos: np,
                prev_size: e.size,
                wrapped: true,
                row_first_pos: np,
                row_first_size: e.size,
                tallest: e.size.1,
                row_start: i,
            }
        } else {
            let np = (nx, ny);
            let e2 = placed(e, np, cfg.record_real);
            FlowState {
                elems: st.elems.update(i, e2),
                prev_pos: np,
                prev_size: e.size,
                tallest: if e.size.1.as_int() > st.tallest.as_int() {
                    e.size.1
                } else {
                    st.tallest
                },
                ..st
            }
        }
    }
}

/// The state after the first `n` elements of `s0` are processed.
pub open spec fn flow_pass(cfg: FlowConfig, s0: Seq<Element>, n: int) -> FlowState
    decreases n,
{
    if n <= 0 {
        flow_init(s0)
    } else {
        flow_step(cfg, flow_pass(cfg, s0, n - 1), n - 1)
    }
}

/// The element sequence after the whole walk.
pub open spec fn flow_placed(cfg: FlowConfig, s0: Seq<Element>) -> Seq<Element> {
    flow_pass(cfg, s0, s0.len() as int).elems
}

/// Whether the element at index `i` participates in flow under `cfg`.
pub open spec fn in_flow(cfg: FlowConfig, s: Seq<Element>, i: int) -> bool {
    !(cfg.honor_absolute && s[i].attrs.style == PositionStyle::Absolute)
}

/// The maximum height among the flow-participating elements of `s` with
/// indices in `[lo, hi)`, at least zero.
pub open spec fn max_height(cfg: FlowConfig, s: Seq<Element>, lo: int, hi: int) -> SizeUnit
    decreases hi - lo,
{
    if hi <= lo {
        SizeUnit::Pixel(0)
    } else {
        let m = max_height(cfg, s, lo, hi - 1);
        if in_flow(cfg, s, hi - 1) && s[hi - 1].size.1.as_int() > m.as_int() {
            s[hi - 1].size.1
        } else {
            m
        }
    }
}

/// The maximum is an upper bound on every member's height.
pub proof fn lemma_max_height_ge(cfg: FlowConfig, s: Seq<Element>, lo: int, hi: int, i: int)
    requires
        lo <= i < hi,
        in_flow(cfg, s, i),
    ensures
        max_height(cfg, s, lo, hi).as_int() >= s[i].size.1.as_int(),
    decreases hi - lo,
{
    if i < hi - 1 {
        lemma_max_height_ge(cfg, s, lo, hi - 1, i);
    }
}

/// The walk's bookkeeping for the current row. Once a wrap has started one:
/// the row began at `row_start` with the element the wrap placed, whose
/// geometry the state remembers, and the recorded row height is the maximum
/// height among the row's flow-participating elements processed so far. For
/// the initial row — begun by the first placed element, not by a wrap — the
/// recorded height is the maximum among the row's flow-participating
/// elements *after* that first element, which itself never contributes.
pub open spec fn row_state_ok(cfg: FlowConfig, s0: Seq<Element>, n: int) -> bool {
    let st = flow_pass(cfg, s0, n);
    &&& (st.wrapped ==> {
        &&& 0 <= st.row_start < n
        &&& st.placed
        &&& in_flow(cfg, s0, st.row_start)
        &&& st.tallest == max_height(cfg, s0, st.row_start, n)
        &&& st.row_first_pos == st.elems[st.row_start].position
        &&& st.row_first_size == s0[st.row_start].size
    })
    &&& (st.placed && !st.wrapped ==> {
        &&& 0 <= st.row_start < n
        &&& in_flow(cfg, s0, st.row_start)
        &&& st.tallest == max_height(cfg, s0, st.row_start + 1, n)
    })
    &&& (!st.placed ==> st.tallest == SizeUnit::Pixel(0) && !st.wrapped)
}

/// Placement can move an element, but everything else about it stands:
/// its size, its baseline size, its attributes and its sub-layout.
pub proof fn lemma_flow_preserves(cfg: FlowConfig, s0: Seq<Element>, n: int, i: int)
    requires
        0 <= i < s0.len(),
        n <= s0.len(),
    ensures
        flow_pass(cfg, s0, n).elems[i].size == s0[i].size,
        flow_pass(cfg, s0, n).elems[i].real_size == s0[i].real_size,
        flow_pass(cfg, s0, n).elems[i].attrs == s0[i].attrs,
        flow_pass(cfg, s0, n).elems[i].sublayout == s0[i].sublayout,
        n <= i ==> flow_pass(cfg, s0, n).elems[i] == s0[i],
    decreases n,
{
    if n > 0 {
        lemma_flow_len(cfg, s0, n - 1);
        lemma_flow_preserves(cfg, s0, n - 1, i);
    }
}

/// Within a row begun by a wrap, the recorded row height after processing
/// is the maximum height among the row's flow-participating elements
/// ([`row_state_ok`]). Heights must be nonnegative: the walk records 0
/// until an element contributes, so a negative height could hide behind it.
pub proof fn lemma_flow_tallest(cfg: FlowConfig, s0: Seq<Element>, n: int)
    requires
        n <= s0.len(),
        forall|i: int| 0 <= i < s0.len() ==> s0[i].size.1.as_int() >= 0,
    ensures
        row_state_ok(cfg, s0, n),
    decreases n,
{
    if n > 0 {
        lemma_flow_tallest(cfg, s0, n - 1);
        lemma_flow_len(cfg, s0, n - 1);
        let st = flow_pass(cfg, s0, n - 1);
        let st2 = flow_pass(cfg, s0, n);
        lemma_flow_preserves(cfg, s0, n - 1, n - 1);
        if st.placed {
            lemma_flow_preserves(cfg, s0, n - 1, st.row_start);
        }
        let e = st.elems[n - 1];
        if cfg.honor_absolute && e.attrs.style == PositionStyle::Absolute {
            // The element is skipped, and contributes to no maximum either.
            assert(max_height(cfg, s0, st.row_start, n) == max_height(
                cfg,
                s0,
                st.row_start,
                n - 1,
            ));
            assert(max_height(cfg, s0, st.row_start + 1, n) == max_height(
                cfg,
                s0,
                st.row_start + 1,
                n - 1,
            ));
        } else if !st.placed {
            // The first placed element begins the initial row without
            // contributing to its recorded height.
            assert(max_height(cfg, s0, n, n) == SizeUnit::Pixel(0));
        } else {
            let nx = cfg.basis.0.spec_add(st.prev_pos.0).spec_add(st.prev_size.0).spec_add(
                cfg.offset,
            );
            let over = nx.spec_add(e.size.0).spec_add(cfg.offset).as_int()
                > cfg.container.0.as_int();
            if over && cfg.wrap {
                // The wrap begins a new one-element row, whose maximum is
                // the wrapping element's own height.
                assert(max_height(cfg, s0, n - 1, n - 1) == SizeUnit::Pixel(0));
                assert(in_flow(cfg, s0, n - 1));
                assert(max_height(cfg, s0, n - 1, n) == s0[n - 1].size.1);
            } else if st.wrapped {
                assert(st2.tallest == max_height(cfg, s0, st.row_start, n));
            } else {
                assert(st2.tallest == max_height(cfg, s0, st.row_start + 1, n));
            }
        }
    }
}

/// Whether the walk's step at index `i` takes the wrap branch: a predecessor
/// exists, the element participates in flow, wrapping is enabled, and the
/// element's candidate position would overflow the container's width.
pub open spec fn wraps_at(cfg: FlowConfig, s0: Seq<Element>, i: int) -> bool {
    let st = flow_pass(cfg, s0, i);
    let e = st.elems[i];
    &&& cfg.wrap
    &&& st.placed
    &&& in_flow(cfg, s0, i)
    &&& cfg.basis.0.spec_add(st.prev_pos.0).spec_add(st.prev_size.0).spec_add(cfg.offset)
        .spec_add(e.size.0).spec_add(cfg.offset).as_int() > cfg.container.0.as_int()
}

/// When the walk wraps at index `n` and the row it closes was itself begun
/// by a wrap at `row_start`, the new row's origin is x = 0, and its y is the
/// closed row's height — the maximum height among that row's elements —
/// plus the row's first element's y, plus the offset.
pub proof fn lemma_row_wrap_origin(cfg: FlowConfig, s0: Seq<Element>, n: int)
    requires
        0 <= n < s0.len(),
        forall|i: int| 0 <= i < s0.len() ==> s0[i].size.1.as_int() >= 0,
        flow_pass(cfg, s0, n).wrapped,
        wraps_at(cfg, s0, n),
    ensures
        flow_pass(cfg, s0, n + 1).elems[n].position == (
            SizeUnit::Pixel(0),
            max_height(cfg, s0, flow_pass(cfg, s0, n).row_start, n).spec_add(
                flow_pass(cfg, s0, n).elems[flow_pass(cfg, s0, n).row_start].position.1,
            ).spec_add(cfg.offset),
        ),
    decreases n,
{
    lemma_flow_tallest(cfg, s0, n);
    lemma_flow_len(cfg, s0, n);
    lemma_flow_preserves(cfg, s0, n, n);
    let st = flow_pass(cfg, s0, n);
    let w = st.row_start;
    // The fallback for a zero recorded height agrees with the maximum: the
    // row's first element's height is bounded by the maximum, and heights
    // are nonnegative.
    lemma_flow_preserves(cfg, s0, n, w);
    if st.tallest.as_int() == 0 {
        lemma_max_height_ge(cfg, s0, w, n, w);
    }
}

/// A walk that honors absolute positioning never touches an element marked
/// `Absolute`.
pub proof fn lemma_flow_skips_absolute(cfg: FlowConfig, s0: Seq<Element>, n: int, i: int)
    requires
        cfg.honor_absolute,
        0 <= i < s0.len(),
        n <= s0.len(),
        s0[i].attrs.style == PositionStyle::Absolute,
    ensures
        flow_pass(cfg, s0, n).elems[i] == s0[i],
    decreases n,
{
    if n > 0 {
        lemma_flow_skips_absolute(cfg, s0, n - 1, i);
        lemma_flow_len(cfg, s0, n - 1);
        lemma_flow_preserves(cfg, s0, n - 1, n - 1);
    }
}

/// A walk that records baselines leaves every element's geometry equal to
/// its recorded baseline, provided it already was so for the elements the
/// walk does not touch.
pub proof fn lemma_flow_baseline(cfg: FlowConfig, s0: Seq<Element>, n: int)
    requires
        cfg.record_real,
        n <= s0.len(),
        crate::element::all_baseline(s0),
    ensures
        crate::element::all_baseline(flow_pass(cfg, s0, n).elems),
    decreases n,
{
    if n > 0 {
        lemma_flow_baseline(cfg, s0, n - 1);
        lemma_flow_len(cfg, s0, n - 1);
    }
}

/// Placement only repositions elements: it never adds or removes one.
pub proof fn lemma_flow_len(cfg: FlowConfig, s0: Seq<Element>, n: int)
    requires
        n <= s0.len(),
    ensures
        flow_pass(cfg, s0, n).elems.len() == s0.len(),
    decreases n,
{
    if n > 0 {
        lemma_flow_len(cfg, s0, n - 1);
    }
}

/// Walk the elements and assign flow positions, as [`flow_pass`] describes.
pub(crate) fn flow_place(inner: &mut Vec<Element>, cfg: FlowConfig)
    ensures
        final(inner)@ == flow_placed(cfg, old(inner)@),
{
    let n = inner.len();
    let mut is_placed: bool = false;
    let mut prev_pos: Vector2 = (SizeUnit::of(0), SizeUnit::of(0));
    let mut prev_size: Vector2 = (SizeUnit::of(0), SizeUnit::of(0));
    let mut is_wrapped: bool = false;
    let mut row_first_pos: Vector2 = (SizeUnit::of(0), SizeUnit::of(0));
    let mut row_first_size: Vector2 = (SizeUnit::of(0), SizeUnit::of(0));
    let mut tallest: SizeUnit = SizeUnit::of(0);

    for i in 0..n
        invariant
            n == inner@.len(),
            inner@ == flow_pass(cfg, old(inner)@, i as int).elems,
            is_placed == flow_pass(cfg, old(inner)@, i as int).placed,
            prev_pos == flow_pass(cfg, old(inner)@, i as int).prev_pos,
            prev_size == flow_pass(cfg, old(inner)@, i as int).prev_size,
            is_wrapped == flow_pass(cfg, old(inner)@, i as int).wrapped,
            row_first_pos == flow_pass(cfg, old(inner)@, i as int).row_first_pos,
            row_first_size == flow_pass(cfg, old(inner)@, i as int).row_first_size,
            tallest == flow_pass(cfg, old(inner)@, i as int).tallest,
    {
        let style = inner[i].attrs.style;
        if cfg.honor_absolute && style == PositionStyle::Absolute {
            // Left untouched.
        } else if !is_placed {
            is_placed = true;
            prev_pos = inner[i].position;
            prev_size = inner[i].size;
        } else {
            let e_size = inner[i].size;
            let nx = cfg.basis.0.add(prev_pos.0).add(prev_size.0).add(cfg.offset);
            let ny = cfg.basis.1.add(prev_pos.1);
            let over = nx.add(e_size.0).add(cfg.offset).gt(cfg.container.0);
            if over && cfg.wrap {
                let rf_pos = if is_wrapped {
                    row_first_pos
                } else {
                    inner[0].position
                };
                let rf_size = if is_wrapped {
                    row_first_size
                } else {
                    inner[0].size
                };
                let t0 = if tallest.is_zero() {
                    rf_size.1
                } else {
                    tallest
                };
                let wy = t0.add(rf_pos.1).add(cfg.offset);
                let np = (SizeUnit::of(0), wy);
                let e = &mut inner[i];
                e.position = np;
                if cfg.record_real {
                    e.real_position = np;
                }
                prev_pos = np;
                prev_size = e_size;
                is_wrapped = true;
                row_first_pos = np;
                row_first_size = e_size;
                tallest = e_size.1;
            } else {
                let np = (nx, ny);
                let e = &mut inner[i];
                e.position = np;
                if cfg.record_real {
                    e.real_position = np;
                }
                prev_pos = np;
                prev_size = e_size;
                if e_size.1.gt(tallest) {
                    tallest = e_size.1;
                }
            }
        }
    }
}

} // verus!
