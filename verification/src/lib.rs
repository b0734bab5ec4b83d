//! The decisions of a black-hole ray marcher.
//!
//! A picture of a black hole is made by marching rays of light through a
//! bent space, past an accretion disk, until they fall into the hole or
//! leave for the sky. The arithmetic of that march is done on
//! single-precision numbers by the caller. This crate holds everything
//! else, and proves it: which disk, sky and integrator the switches select
//! (`features`), the state machine that every ray runs through, which
//! takes the numbers of a ray and decides on them (`kernel`), the bounds of
//! the disk (`disk`), which samples may enter a mean and what becomes of a
//! pixel (`binary32`, `accumulate`), how textures are addressed (`texture`)
//! and frames stored and packed (`framebuffer`, `frame`), and when the
//! picture has to be started over (`config`, `hardware`).
//!
//! Numbers cross the boundary as their bit patterns. Comparisons between
//! them are made on the bits, in the order of the numbers they stand for.

pub mod accumulate;
pub mod binary32;
pub mod config;
pub mod disk;
pub mod features;
pub mod frame;
pub mod framebuffer;
pub mod fullscreen;
pub mod grid;
pub mod hardware;
pub mod kernel;
pub mod preprocess;
pub mod profiler;
pub mod surface;
pub mod texture;
pub mod timer;
