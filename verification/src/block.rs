//! The block placement algorithm: fixed-size row-wrapping flow.
use vstd::prelude::*;

use crate::flow;
use crate::flow::FlowConfig;
use crate::unit::SizeUnit;
use crate::Layout;

verus! {

/// The flow configuration of a block layout: wrapping always on, positioning
/// mode not consulted, no baseline recording.
pub open spec fn block_config(l: Layout) -> FlowConfig {
    FlowConfig {
        container: l.size,
        offset: l.properties.offset,
        basis: flow::zero2(),
        honor_absolute: false,
        wrap: true,
        record_real: false,
    }
}

/// A block layout does **not** resize any element placed into it. The block
/// layout only supports rows, as anything overflowing just goes onto the
/// next row.
impl Layout {
    pub(crate) fn recalculate_as_block(&mut self)
        ensures
            final(self).inner@ == flow::flow_placed(block_config(*old(self)), old(self).inner@),
            final(self).variant == old(self).variant,
            final(self).size == old(self).size,
            final(self).col == old(self).col,
            final(self).properties == old(self).properties,
    {
        let cfg = FlowConfig {
            container: self.size,
            offset: self.properties.offset,
            basis: (SizeUnit::of(0), SizeUnit::of(0)),
            honor_absolute: false,
            wrap: true,
            record_real: false,
        };
        flow::flow_place(&mut self.inner, cfg);
    }
}

} // verus!
