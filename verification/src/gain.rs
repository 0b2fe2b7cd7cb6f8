//! Gain ugen: rescales one bus into another by a hot-swappable factor.

use vstd::prelude::*;

use crate::consts::{AUDIO_BUS_LENGTH, NUM_CONTROL_BLOCKS};
use crate::fx::{clamp_fx, fx_clamp, fx_mul, fx_mul_spec};
use crate::state::{block_len, busses_wf, AudioBusses, ControlBlock, ControlBlocks};

verus! {

/// Parameters of a gain stage.
#[derive(Clone, Copy, Debug, PartialEq, Eq, Structural)]
pub struct GainControlBlock {
    pub scale: i64,
}

/// A gain stage: reads bus `src`, writes bus `dst`, scale taken from
/// control-block slot `ci`.
#[derive(Clone, Copy, Debug)]
pub struct GainState {
    src: usize,
    dst: usize,
    ci: usize,
}

impl GainState {
    /// Source bus index.
    pub closed spec fn src(self) -> int {
        self.src as int
    }

    /// Destination bus index.
    pub closed spec fn dst(self) -> int {
        self.dst as int
    }

    /// Control-block slot read each block.
    pub closed spec fn ci(self) -> int {
        self.ci as int
    }

    /// Bus and control-block indices are within the fixed layout.
    pub closed spec fn wf(self) -> bool {
        &&& self.src < AUDIO_BUS_LENGTH
        &&& self.dst < AUDIO_BUS_LENGTH
        &&& self.ci < NUM_CONTROL_BLOCKS
    }

    pub fn new(src: usize, dst: usize, ci: usize) -> (r: GainState)
        requires
            src < AUDIO_BUS_LENGTH,
            dst < AUDIO_BUS_LENGTH,
            ci < NUM_CONTROL_BLOCKS,
        ensures
            r.wf(),
            r.src() == src,
            r.dst() == dst,
            r.ci() == ci,
    {
        GainState { src, dst, ci }
    }

    /// One block with known parameters: every destination sample is the
    /// source sample scaled (saturating) by `ctl.scale`.
    fn ctl_run(&mut self, bus: &mut AudioBusses, ctl: &GainControlBlock) -> (r: bool)
        requires
            old(self).wf(),
            busses_wf(*old(bus)),
        ensures
            *final(self) == *old(self),
            r == true,
            busses_wf(*final(bus)),
            final(bus)@.len() == old(bus)@.len(),
            block_len(*final(bus)) == block_len(*old(bus)),
            forall|i: int|
                0 <= i < old(bus)@.len() && i != old(self).dst() ==> final(bus)@[i] == old(
                    bus,
                )@[i],
            forall|j: int|
                0 <= j < block_len(*old(bus)) ==> final(bus)@[old(self).dst()]@[j] as int
                    == fx_mul_spec(
                    old(bus)@[old(self).src()]@[j] as int,
                    clamp_fx(ctl.scale as int),
                ),
    {
        let scale = fx_clamp(ctl.scale);
        let n = bus[self.dst].len();
        let mut j: usize = 0;
        while j < n
            invariant
                self.wf(),
                *self == *old(self),
                busses_wf(*bus),
                bus@.len() == old(bus)@.len(),
                block_len(*bus) == block_len(*old(bus)),
                n == block_len(*bus),
                j <= n,
                scale as int == clamp_fx(ctl.scale as int),
                forall|i: int|
                    0 <= i < bus@.len() && i != self.dst() ==> bus@[i] == old(bus)@[i],
                forall|jj: int| j <= jj < n ==> bus@[self.dst()]@[jj] == old(bus)@[self.dst()]@[jj],
                forall|jj: int|
                    0 <= jj < j ==> bus@[self.dst()]@[jj] as int == fx_mul_spec(
                        old(bus)@[self.src()]@[jj] as int,
                        clamp_fx(ctl.scale as int),
                    ),
            decreases n - j,
        {
            let x = bus[self.src][j];
            let y = fx_mul(x, scale);
            bus[self.dst][j] = y;
            j += 1;
        }
        true
    }

    /// One render block.  A missing or wrong-variant control block is
    /// graceful degradation: nothing is rendered, nothing changes and the
    /// stage reports `true`; otherwise the gain equation above holds.
    pub fn run(&mut self, bus: &mut AudioBusses, ctl: &ControlBlocks) -> (r: bool)
        requires
            old(self).wf(),
            busses_wf(*old(bus)),
            ctl@.len() == NUM_CONTROL_BLOCKS,
        ensures
            *final(self) == *old(self),
            final(self).wf(),
            busses_wf(*final(bus)),
            final(bus)@.len() == old(bus)@.len(),
            block_len(*final(bus)) == block_len(*old(bus)),
            match ctl@[old(self).ci()] {
                Some(ControlBlock::Gain(g)) => {
                    &&& r == true
                    &&& forall|i: int|
                        0 <= i < old(bus)@.len() && i != old(self).dst() ==> final(bus)@[i] == old(
                            bus,
                        )@[i]
                    &&& forall|j: int|
                        0 <= j < block_len(*old(bus)) ==> final(bus)@[old(self).dst()]@[j] as int
                            == fx_mul_spec(
                            old(bus)@[old(self).src()]@[j] as int,
                            clamp_fx(g.scale as int),
                        )
                },
                _ => r == true && final(bus)@ == old(bus)@,
            },
    {
        match &ctl[self.ci] {
            Some(ControlBlock::Gain(g)) => {
                let g = *g;
                self.ctl_run(bus, &g)
            },
            _ => true,
        }
    }
}

} // verus!
