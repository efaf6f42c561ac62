//! The host side of a slime mould simulation that runs on the GPU.
//!
//! Agents wander over a field, leave a trail in it and steer toward the trails they sense; the
//! field spreads and fades. All of that happens on the device, in one kernel program that is
//! dispatched in three stages. This library is what the host has to get right for it: the
//! layout of what the device is given, the size and order of the dispatches, the checks that
//! come before anything is allocated, and the decisions of the loop that drives the frames.

#![allow(unused_imports)]

pub mod agent;
pub mod binary32;
pub mod driver;
pub mod kernel;
pub mod order;
pub mod parameters;
pub mod pipeline;
pub mod stage;
pub mod trail_field;
pub mod workgroup;
