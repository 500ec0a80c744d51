use clemen::element::{Element, PositionStyle};
use clemen::flexible::Direction;
use clemen::unit::SizeUnit;
use clemen::{AlignmentX, Layout, LayoutType};

fn px(v: i64) -> SizeUnit {
    SizeUnit::Pixel(v)
}

fn v2(x: i64, y: i64) -> (SizeUnit, SizeUnit) {
    (px(x), px(y))
}

fn child(w: i64, h: i64) -> Element {
    Element::new(v2(w, h), v2(0, 0), LayoutType::Block)
}

#[test]
fn flexible_shrink_to_exact_fit() {
    // Container width 200, offset 0, growth disabled, no column wrap: two
    // 120-wide children flow to (0,0) and (120,0); the resize pass shrinks
    // both to width 100 at positions (0,0) and (100,0), so the post-shrink
    // extents sum to the container width exactly.
    let mut l = Layout::new(LayoutType::Flexible, v2(200, 100));
    l.properties.flex_grow = false;
    l.add(child(120, 100));
    l.add(child(120, 100));
    assert_eq!(l.inner[0].position, v2(0, 0));
    assert_eq!(l.inner[1].position, v2(120, 0));
    l.resize_flexible(Direction::X);
    assert_eq!(l.inner[0].size, v2(100, 100));
    assert_eq!(l.inner[1].size, v2(100, 100));
    assert_eq!(l.inner[0].position, v2(0, 0));
    assert_eq!(l.inner[1].position, v2(100, 0));
    let sum = l.inner[0].size.0.add(l.inner[1].size.0);
    assert_eq!(sum, l.size.0);
}

#[test]
fn flexible_grow_to_exact_fit() {
    // Container width 200, offset 0, growth enabled: two 80-wide children
    // flow to (0,0) and (80,0) with no overflow; the resize pass grows both
    // to width 100 at positions (0,0) and (100,0).
    let mut l = Layout::new(LayoutType::Flexible, v2(200, 100));
    l.add(child(80, 100));
    l.add(child(80, 100));
    assert_eq!(l.inner[1].position, v2(80, 0));
    l.resize_flexible(Direction::X);
    assert_eq!(l.inner[0].size, v2(100, 100));
    assert_eq!(l.inner[1].size, v2(100, 100));
    assert_eq!(l.inner[0].position, v2(0, 0));
    assert_eq!(l.inner[1].position, v2(100, 0));
}

#[test]
fn flexible_shrink_shares_and_shifts_by_index() {
    // Container width 100, three 80-wide children at 0, 80, 160. The first
    // overflowing child contributes the part actually outside (60); the
    // next is entirely outside and contributes its full extent (80). The
    // overflow of 140 divides by 3 into a share of 46, and each child with
    // a nonzero position shifts toward the origin by the share times its
    // index factor.
    let mut l = Layout::new(LayoutType::Flexible, v2(100, 100));
    l.properties.flex_grow = false;
    l.add(child(80, 50));
    l.add(child(80, 50));
    l.add(child(80, 50));
    l.resize_flexible(Direction::X);
    assert_eq!(l.inner[0].size.0, px(34));
    assert_eq!(l.inner[1].size.0, px(34));
    assert_eq!(l.inner[2].size.0, px(34));
    assert_eq!(l.inner[0].position.0, px(0));
    assert_eq!(l.inner[1].position.0, px(34));
    assert_eq!(l.inner[2].position.0, px(68));
}

#[test]
fn flexible_grow_formula() {
    // Container width 200, children 50 and 60 wide at 0 and 50: slack is
    // 90, each grows by 45, and the second shifts away from the origin by
    // 45.
    let mut l = Layout::new(LayoutType::Flexible, v2(200, 100));
    l.add(child(50, 100));
    l.add(child(60, 100));
    l.resize_flexible(Direction::X);
    assert_eq!(l.inner[0].size.0, px(95));
    assert_eq!(l.inner[1].size.0, px(105));
    assert_eq!(l.inner[0].position.0, px(0));
    assert_eq!(l.inner[1].position.0, px(95));
}

#[test]
fn flexible_resize_updates_sublayout_container() {
    let mut l = Layout::new(LayoutType::Flexible, v2(200, 100));
    l.add(child(80, 100));
    l.add(child(80, 100));
    l.resize_flexible(Direction::X);
    assert_eq!(l.inner[0].sublayout.size, v2(100, 100));
}

#[test]
fn revert_restores_placement_geometry() {
    // After placement, a resize then a revert restores every child's size
    // and position to the values the last flow placement left, however many
    // resize/revert cycles run.
    let mut l = Layout::new(LayoutType::Flexible, v2(200, 100));
    l.add(child(120, 100));
    l.add(child(120, 100));
    let before: Vec<_> = l.inner.iter().map(|e| (e.size, e.position)).collect();
    for _ in 0..3 {
        l.resize_flexible(Direction::X);
        l.revert_flexible();
        let after: Vec<_> = l.inner.iter().map(|e| (e.size, e.position)).collect();
        assert_eq!(before, after);
    }
}

#[test]
fn revert_is_idempotent() {
    let mut l = Layout::new(LayoutType::Flexible, v2(200, 100));
    l.add(child(120, 100));
    l.add(child(120, 100));
    l.resize_flexible(Direction::X);
    l.revert_flexible();
    let once: Vec<_> = l.inner.iter().map(|e| (e.size, e.position)).collect();
    l.revert_flexible();
    let twice: Vec<_> = l.inner.iter().map(|e| (e.size, e.position)).collect();
    assert_eq!(once, twice);
}

#[test]
fn absolute_child_untouched_by_placement_and_resize() {
    // An Absolute child in a flexible layout is never moved or resized by
    // placement, shrink, grow, or center alignment; the following relative
    // child flows as if the absolute one were not there.
    let mut l = Layout::new(LayoutType::Flexible, v2(200, 100));
    l.add(child(100, 100));
    let mut e = Element::new(v2(100, 100), v2(100, 100), LayoutType::Block);
    e.attrs.style = PositionStyle::Absolute;
    l.add(e);
    l.add(child(100, 100));
    assert_eq!(l.inner[1].position, v2(100, 100));
    assert_eq!(l.inner[1].size, v2(100, 100));
    assert_eq!(l.inner[2].position, v2(100, 0));
    l.resize_flexible(Direction::X);
    assert_eq!(l.inner[1].position, v2(100, 100));
    assert_eq!(l.inner[1].size, v2(100, 100));
}

#[test]
fn resize_on_empty_layout_is_noop() {
    let mut l = Layout::new(LayoutType::Flexible, v2(200, 100));
    l.resize_flexible(Direction::X);
    assert_eq!(l.inner.len(), 0);
}

#[test]
fn resize_with_only_absolute_children_is_noop() {
    let mut l = Layout::new(LayoutType::Flexible, v2(200, 100));
    let mut e = Element::new(v2(300, 300), v2(5, 5), LayoutType::Block);
    e.attrs.style = PositionStyle::Absolute;
    l.add(e);
    l.resize_flexible(Direction::X);
    assert_eq!(l.inner[0].position, v2(5, 5));
    assert_eq!(l.inner[0].size, v2(300, 300));
}

#[test]
fn flexible_column_wrap() {
    // With the column flag set, an overflowing child wraps below the first
    // row instead of shrinking; the fallback row height is the first
    // child's own height.
    let mut l = Layout::new(LayoutType::Flexible, v2(200, 400));
    l.col = true;
    l.add(child(150, 50));
    l.add(child(150, 50));
    assert_eq!(l.inner[0].position, v2(0, 0));
    assert_eq!(l.inner[1].position, v2(0, 50));
    // Placement records the assigned position as the baseline.
    assert_eq!(l.inner[1].real_position, v2(0, 50));
}

#[test]
fn flexible_without_column_never_wraps() {
    let mut l = Layout::new(LayoutType::Flexible, v2(200, 400));
    l.add(child(150, 50));
    l.add(child(150, 50));
    assert_eq!(l.inner[1].position, v2(150, 0));
}

#[test]
fn center_alignment_single_child() {
    // One 100-wide child in a 200-wide container, centered along x: the
    // middle child (the only one) moves to 200/2 - 100/2 = 50.
    let mut l = Layout::new(LayoutType::Flexible, v2(200, 100));
    l.properties.align_x = AlignmentX::Center;
    l.properties.flex_grow = false;
    l.add(child(100, 50));
    l.resize_flexible(Direction::X);
    assert_eq!(l.inner[0].position, v2(50, 0));
    assert_eq!(l.inner[0].size, v2(100, 50));
}

#[test]
fn center_alignment_moves_group_rigidly() {
    // Two 50-wide children flowed to 0 and 50 in a 300-wide container. The
    // middle child (index 1) moves to 300/2 - 50 = 100 (even count backs
    // off by the full extent); the other keeps its spacing of -50 from it.
    let mut l = Layout::new(LayoutType::Flexible, v2(300, 100));
    l.properties.align_x = AlignmentX::Center;
    l.properties.flex_grow = false;
    l.add(child(50, 50));
    l.add(child(50, 50));
    l.resize_flexible(Direction::X);
    assert_eq!(l.inner[1].position, v2(100, 0));
    assert_eq!(l.inner[0].position, v2(50, 0));
}

#[test]
fn resize_along_y_axis() {
    // The same shrink logic along the height axis: two 80-high children in
    // a 100-high container, stacked by column wrap at y = 0 and 80.
    let mut l = Layout::new(LayoutType::Flexible, v2(200, 100));
    l.col = true;
    l.properties.flex_grow = false;
    l.add(child(150, 80));
    l.add(child(150, 80));
    assert_eq!(l.inner[1].position, v2(0, 80));
    l.resize_flexible(Direction::Y);
    // Overflow along y: 80 + 80 - 100 = 60; each shrinks by 30, the second
    // shifts up by 30.
    assert_eq!(l.inner[0].size.1, px(50));
    assert_eq!(l.inner[1].size.1, px(50));
    assert_eq!(l.inner[0].position.1, px(0));
    assert_eq!(l.inner[1].position.1, px(50));
}
