//! Verified core of a CPU path tracer: the pixel scheduling that feeds the
//! worker pool, the image buffer it fills, the PPM serializer, and the
//! progress arithmetic. The floating-point shading itself is left to the
//! renderer binary; everything discrete about the pipeline is specified and
//! proved here.

pub mod schedule;
pub mod image;
pub mod ppm;
pub mod progress;
pub mod constants;
