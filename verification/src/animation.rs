//! The 120 Hz engine clock and the animated tiles it drives.
use vstd::prelude::*;
use crate::art::PicAnm;

verus! {

/// The engine clock: the number of 120 Hz ticks so far, wrapping around.
/// (The timer that measures a tick in real time is the frame loop's.)
#[derive(Debug, Clone, Copy, PartialEq, Eq, Structural, Default)]
pub struct EngineClock {
    pub total_clock_120hz: u32,
}

/// Adds the ticks that elapsed this frame, wrapping past the largest `u32`.
pub fn update_engine_clock(clock: &mut EngineClock, ticks: u32)
    ensures
        final(clock).total_clock_120hz == (if old(clock).total_clock_120hz + ticks > u32::MAX {
            old(clock).total_clock_120hz + ticks - 0x1_0000_0000
        } else {
            old(clock).total_clock_120hz + ticks
        }),
{
    clock.total_clock_120hz = clock.total_clock_120hz.wrapping_add(ticks);
}

/// A surface showing an animated tile: its first tile, the animation, and
/// the frame shown now. (The material the tile is drawn with is the
/// renderer's.)
#[derive(Debug, Clone, Copy, PartialEq, Eq)]
pub struct AnimatedTileMaterial {
    pub base_picnum: i16,
    pub picanm: PicAnm,
    pub current_offset: i32,
}

/// The animation runs at a shift the clock allows, and the frame it
/// moves to at `clock` is a tile number.
pub open spec fn animation_fits(a: AnimatedTileMaterial, clock: u32) -> bool {
    &&& (a.picanm.num_frames != 0 && a.picanm.anim_type != 0 ==> a.picanm.speed < 32)
    &&& (a.picanm.frame_offset(clock) != a.current_offset ==>
            i16::MIN <= a.base_picnum + a.picanm.frame_offset(clock) <= i16::MAX)
}

impl AnimatedTileMaterial {
    /// Moves the animation to the frame of `clock`: returns the tile to show
    /// when the frame changed.
    pub fn update(&mut self, clock: u32) -> (r: Option<i16>)
        requires
            animation_fits(*old(self), clock),
        ensures
            final(self).base_picnum == old(self).base_picnum,
            final(self).picanm == old(self).picanm,
            final(self).current_offset == old(self).picanm.frame_offset(clock),
            r == (if old(self).picanm.frame_offset(clock) != old(self).current_offset {
                Some((old(self).base_picnum + old(self).picanm.frame_offset(clock)) as i16)
            } else {
                None
            }),
    {
        let offset = self.picanm.get_frame_offset(clock);
        if offset != self.current_offset {
            self.current_offset = offset;
            Some(self.base_picnum + offset as i16)
        } else {
            None
        }
    }
}

} // verus!
