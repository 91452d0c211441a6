//! Action bit flags of a demo tic.
use vstd::prelude::*;

verus! {

pub const JUMP: u32 = 1;
pub const CROUCH: u32 = 2;
pub const FIRE: u32 = 4;
pub const AIM_UP: u32 = 8;
pub const AIM_DOWN: u32 = 16;
pub const RUN: u32 = 32;
pub const LOOK_LEFT: u32 = 64;
pub const LOOK_RIGHT: u32 = 128;
pub const STEROIDS: u32 = 4096;
pub const LOOK_UP: u32 = 8192;
pub const LOOK_DOWN: u32 = 16384;
pub const NIGHTVISION: u32 = 32768;
pub const MEDKIT: u32 = 65536;
pub const CENTER_VIEW: u32 = 262144;
pub const QUICK_KICK: u32 = 4194304;
pub const HOLODUKE: u32 = 16777216;
pub const JETPACK: u32 = 33554432;
pub const TURN_AROUND: u32 = 268435456;
pub const OPEN: u32 = 536870912;
pub const INVENTORY: u32 = 1073741824;
pub const ESCAPE: u32 = 2147483648;

} // verus!
