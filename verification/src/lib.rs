//! A model of the USB devices of a host: descriptor bytes decoded into typed
//! values, and a flat list of devices assembled into a tree of buses.
#![allow(unused_imports)]

pub mod display;
pub mod error;
pub mod order;
pub mod profiler;
pub mod text;
pub mod usb;
pub mod wire;
