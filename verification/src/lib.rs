//! Verified core of an isometric tile-map prototype: the subtile collision
//! grid, the character's movement and animation decisions, and the frame
//! schedules of its debug probes.
use vstd::prelude::*;

pub mod character;
pub mod debug;
pub mod facing;
pub mod subtile;
