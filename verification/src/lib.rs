//! The verified core of a fixed-length real-time graphics intro: the byte
//! routines and bump allocator that stand in for the language runtime, the
//! fault policy, the window bootstrap and message pump, and the render loop.
//!
//! Everything here works on plain values. Calls into the operating system and
//! the GPU are made by the program around this library, which hands their
//! results in and carries the library's decisions out.

pub mod bootstrap;
pub mod entry;
pub mod fault;
pub mod heap;
pub mod memory;
pub mod pipeline;
pub mod platform;
pub mod render;
pub mod window;
