//! Capture-and-convert logic of a screenshot client for the Way Cooler
//! compositor.
//!
//! The compositor hands out the active output's resolution and a raw dump of
//! its framebuffer over the session bus.  This library holds everything that
//! is decided between those calls and the finished file: the order of the
//! calls, the shapes a reply must have, the per-pixel channel rotation, and
//! the encode / flip / encode sequence that yields the PNG bytes.  The bus and
//! the file system stay with the caller, which drives [`session::step`].

pub mod error;
pub mod pixels;
pub mod raster;
pub mod reply;
pub mod session;
