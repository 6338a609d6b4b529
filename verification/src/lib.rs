//! A software oscilloscope's core: the bridge from a stream of stereo samples
//! to frame-sized line geometry, and the protocol that paces its drawing.
pub mod graphics;
pub mod notifications;
pub mod parseopts;
pub mod pipeline;
